use std::cell::RefCell;
use std::rc::Rc;

use asyncop::{
    FinishedIds, LegacyCode, OperationData, OperationId, OperationQueue, RpcError, Timestamp,
};
use serde_json::Value;

type Handle = Rc<RefCell<OperationData>>;
type Queue = OperationQueue<Handle>;

fn at(secs: u64) -> Timestamp {
    Timestamp::from_epoch_offset(true, secs, 0).expect("in range")
}

fn finished_ids(queue: &Queue) -> FinishedIds {
    let states = queue
        .snapshot()
        .into_iter()
        .map(|(id, data)| (id, data.borrow().state()))
        .collect();
    FinishedIds::collect(&states)
}

fn try_insert(queue: &mut Queue) -> Result<OperationId, RpcError> {
    let finished = finished_ids(queue);
    let data = Rc::new(RefCell::new(OperationData::new()));
    let operation_id = queue.insert(&finished, None, at(1), data.clone())?;
    assert!(data.borrow_mut().start(at(2)));
    Ok(operation_id)
}

/// Inserts an operation that keeps executing.
fn insert_op(queue: &mut Queue) -> OperationId {
    try_insert(queue).expect("queue has capacity")
}

/// Finishes the given operation.
fn finish_op(queue: &Queue, operation_id: &OperationId) {
    queue
        .read()
        .iter()
        .find(|op| op.operation_id() == operation_id)
        .expect("operation is in the queue")
        .data
        .borrow_mut()
        .finish(Ok(Value::Null), at(3));
}

fn check_capacity(queue: &Queue) -> Result<(), RpcError> {
    queue.check_capacity(&finished_ids(queue))
}

fn queued_ids(queue: &Queue) -> Vec<OperationId> {
    queue
        .read()
        .iter()
        .map(|op| op.operation_id().clone())
        .collect()
}

fn assert_full(error: RpcError) {
    assert_eq!(error.code, LegacyCode::OutOfMemory.code());
    assert_eq!(
        error.message,
        "Too many pending asynchronous operations; \
         collect finished operations with z_getoperationresult",
    );
    assert!(error.data.is_none());
}

#[test]
fn finished_operations_are_retained_below_the_limit() {
    let mut queue = Queue::new(4);

    let op_a = insert_op(&mut queue);
    finish_op(&queue, &op_a);

    let op_b = insert_op(&mut queue);

    // Inserting a new operation must not discard an uncollected result.
    assert_eq!(queued_ids(&queue), vec![op_a, op_b]);
}

#[test]
fn oldest_finished_operations_are_evicted_at_the_limit() {
    let mut queue = Queue::new(2);

    let op_a = insert_op(&mut queue);
    finish_op(&queue, &op_a);
    let op_b = insert_op(&mut queue);
    finish_op(&queue, &op_b);

    let op_c = insert_op(&mut queue);

    // Only the oldest finished operation is evicted to make room.
    assert_eq!(queued_ids(&queue), vec![op_b, op_c]);
}

#[test]
fn insertions_are_rejected_while_full_of_unfinished_operations() {
    let mut queue = Queue::new(2);

    let op_a = insert_op(&mut queue);
    let op_b = insert_op(&mut queue);

    assert!(check_capacity(&queue).is_err());
    assert!(try_insert(&mut queue).is_err());
    assert_eq!(queued_ids(&queue), vec![op_a.clone(), op_b.clone()]);

    // Capacity is reclaimed once an operation finishes.
    finish_op(&queue, &op_a);
    assert!(check_capacity(&queue).is_ok());
    let op_c = insert_op(&mut queue);
    assert_eq!(queued_ids(&queue), vec![op_b, op_c]);
}

#[test]
fn unfinished_operations_are_passed_over() {
    let mut queue = Queue::new(3);
    let op_a = insert_op(&mut queue);
    let op_b = insert_op(&mut queue);
    let op_c = insert_op(&mut queue);
    finish_op(&queue, &op_b);
    finish_op(&queue, &op_c);

    let op_d = insert_op(&mut queue);
    assert_eq!(queued_ids(&queue), vec![op_a, op_c, op_d]);
}

#[test]
fn rejections_say_that_the_queue_is_full() {
    let mut queue = Queue::new(1);
    insert_op(&mut queue);
    assert_full(check_capacity(&queue).expect_err("the queue is full"));
    assert_full(try_insert(&mut queue).expect_err("the queue is full"));
}

#[test]
fn queue_without_places_rejects_everything() {
    let mut queue = Queue::new(0);
    assert_full(check_capacity(&queue).expect_err("the queue is full"));
    assert_full(try_insert(&mut queue).expect_err("the queue is full"));
    assert!(queue.read().is_empty());
}

#[test]
fn operation_that_finished_after_the_snapshot_is_not_evicted() {
    let mut queue = Queue::new(1);
    let op_a = insert_op(&mut queue);
    let stale = finished_ids(&queue);
    finish_op(&queue, &op_a);

    let data = Rc::new(RefCell::new(OperationData::new()));
    assert!(queue.insert(&stale, None, at(1), data).is_err());
    assert_eq!(queued_ids(&queue), vec![op_a]);

    insert_op(&mut queue);
    assert_eq!(queue.read().len(), 1);
}

#[test]
fn finished_operation_that_left_the_queue_gives_no_room() {
    let mut queue = Queue::new(1);
    let op_a = insert_op(&mut queue);
    finish_op(&queue, &op_a);
    let stale = finished_ids(&queue);
    assert!(stale.contains(&op_a));
    assert!(queue.remove(0).is_some());
    let op_b = insert_op(&mut queue);

    // The check goes by the snapshot, which is out of date.
    assert!(queue.check_capacity(&stale).is_ok());
    let data = Rc::new(RefCell::new(OperationData::new()));
    assert!(queue.insert(&stale, None, at(1), data).is_err());
    assert_eq!(queued_ids(&queue), vec![op_b]);
}

#[test]
fn queue_never_exceeds_its_limit() {
    let mut queue = Queue::new(3);
    for _ in 0..10 {
        let id = insert_op(&mut queue);
        finish_op(&queue, &id);
        assert!(queue.read().len() <= 3);
    }
    assert_eq!(queue.read().len(), 3);
}

#[test]
fn removed_operation_leaves_the_others_in_order() {
    let mut queue = Queue::new(3);
    let op_a = insert_op(&mut queue);
    let op_b = insert_op(&mut queue);
    let op_c = insert_op(&mut queue);

    let removed = queue.remove(1).expect("there are three operations");
    assert_eq!(removed.operation_id(), &op_b);
    assert!(queue.remove(2).is_none());
    assert_eq!(queued_ids(&queue), vec![op_a, op_c]);
    assert!(check_capacity(&queue).is_ok());
}

#[test]
fn finished_ids_are_those_of_finished_operations() {
    let mut queue = Queue::new(3);
    assert!(finished_ids(&queue).is_empty());
    let op_a = insert_op(&mut queue);
    let op_b = insert_op(&mut queue);
    assert!(finished_ids(&queue).is_empty());
    finish_op(&queue, &op_b);
    let finished = finished_ids(&queue);
    assert!(!finished.is_empty());
    assert!(finished.contains(&op_b));
    assert!(!finished.contains(&op_a));
}

#[test]
fn inserted_operation_carries_what_it_was_given() {
    let mut queue: OperationQueue<u8> = OperationQueue::new(1);
    let context = asyncop::ContextInfo::new("z_sendmany", Value::from(3));
    let none = FinishedIds::collect(&Vec::new());
    let id = queue
        .insert(&none, Some(context), at(12), 7)
        .expect("there is room");
    let op = &queue.read()[0];
    assert_eq!(op.operation_id(), &id);
    assert_eq!(op.data, 7);
    let status = op.to_status(&OperationData::new());
    assert_eq!(status.id, id);
    assert_eq!(status.method, Some("z_sendmany"));
    assert_eq!(status.params, Some(Value::from(3)));
    assert_eq!(status.creation_time, 12);
}
