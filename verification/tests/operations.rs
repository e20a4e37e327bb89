use asyncop::{
    panic_message, task_name, AsyncOperation, ContextInfo, LegacyCode, OperationData,
    OperationState, OperationStatus, RpcError, TaskOutcome, Timestamp,
};
use serde_json::Value;

fn at(secs: u64) -> Timestamp {
    Timestamp::from_epoch_offset(true, secs, 0).expect("in range")
}

/// Runs an operation whose task ends with the given outcome.
fn run(context: Option<ContextInfo>, outcome: TaskOutcome) -> (OperationData, OperationStatus) {
    let op = AsyncOperation::new(context, at(1_000), ());
    let mut data = OperationData::new();
    assert_eq!(data.state(), OperationState::Ready);
    assert!(data.start(at(1_002)));
    assert_eq!(data.state(), OperationState::Executing);
    data.finish(outcome.into_result(), at(1_009));
    let status = op.to_status(&data);
    assert_eq!(&status.id, op.operation_id());
    assert_eq!(status.creation_time, 1_000);
    (data, status)
}

#[test]
fn task_panic_marks_operation_failed() {
    let (data, status) = run(
        None,
        TaskOutcome::Panicked {
            as_str: Some("something went wrong".to_string()),
            as_string: None,
        },
    );
    assert_eq!(data.state(), OperationState::Failed);

    let error = status.error.expect("panic should be recorded as an error");
    assert_eq!(error.code, LegacyCode::Misc.code());
    assert_eq!(
        error.message,
        "Async operation panicked: something went wrong",
    );
}

#[test]
fn unserializable_result_marks_operation_failed() {
    let unserializable = std::collections::HashMap::from([(vec![0_u8], 0_u32)]);
    let reason = serde_json::to_value(unserializable)
        .expect_err("a JSON key is a string")
        .to_string();
    let (data, status) = run(None, TaskOutcome::Unserializable(reason.clone()));
    assert_eq!(data.state(), OperationState::Failed);

    let error = status
        .error
        .expect("serialization failure should be recorded as an error");
    assert_eq!(error.code, LegacyCode::Misc.code());
    assert!(error.message.starts_with("Failed to serialize"));
    assert_eq!(
        error.message,
        format!("Failed to serialize operation result: {reason}"),
    );
}

#[test]
fn successful_task_records_result() {
    let (data, status) = run(None, TaskOutcome::Returned(Value::from(42_u32)));
    assert_eq!(data.state(), OperationState::Success);

    assert!(status.error.is_none());
    assert_eq!(status.result, Some(Value::from(42_u32)));
}

#[test]
fn rejected_task_records_its_error() {
    let (data, status) = run(
        None,
        TaskOutcome::Rejected(RpcError {
            code: -6,
            message: "Insufficient funds".to_string(),
            data: Some("{\"have\":1}".to_string()),
        }),
    );
    assert_eq!(data.state(), OperationState::Failed);
    assert_eq!(status.status, OperationState::Failed);
    assert_eq!(status.result, None);
    assert_eq!(status.execution_secs, None);

    let error = status.error.expect("the task failed");
    assert_eq!(error.code, -6);
    assert_eq!(error.message, "Insufficient funds");
    assert_eq!(error.data.as_deref(), Some("{\"have\":1}"));
}

#[test]
fn execution_time_is_shown_for_a_success() {
    let (_, status) = run(None, TaskOutcome::Returned(Value::Null));
    assert_eq!(status.status, OperationState::Success);
    assert_eq!(status.execution_secs, Some(7));
}

#[test]
fn status_shows_the_call() {
    let params = Value::from(vec![Value::from("from"), Value::from(1.5)]);
    let context = ContextInfo::new("z_sendmany", params.clone());
    let (_, status) = run(Some(context), TaskOutcome::Returned(Value::Null));
    assert_eq!(status.method, Some("z_sendmany"));
    assert_eq!(status.params, Some(params));

    let (_, status) = run(None, TaskOutcome::Returned(Value::Null));
    assert_eq!(status.method, None);
    assert_eq!(status.params, None);
}

#[test]
fn status_of_an_unfinished_operation_has_no_outcome() {
    let op = AsyncOperation::new(None, at(5), ());
    let mut data = OperationData::new();
    let ready = op.to_status(&data);
    assert_eq!(ready.status, OperationState::Ready);
    assert!(data.start(at(6)));
    let executing = op.to_status(&data);
    assert_eq!(executing.status, OperationState::Executing);
    for status in [ready, executing] {
        assert_eq!(status.creation_time, 5);
        assert!(status.error.is_none());
        assert_eq!(status.result, None);
        assert_eq!(status.execution_secs, None);
    }
}

#[test]
fn success_without_both_times_has_no_execution_time() {
    let op = AsyncOperation::new(None, at(5), ());
    let mut data = OperationData::new();
    data.finish(Ok(Value::Bool(true)), at(9));
    let status = op.to_status(&data);
    assert_eq!(status.result, Some(Value::Bool(true)));
    assert_eq!(status.execution_secs, None);
}

#[test]
fn cancelled_operation_does_not_start() {
    let mut data = OperationData::new();
    data.state = OperationState::Cancelled;
    assert!(!data.start(at(1)));
    assert_eq!(data.state(), OperationState::Cancelled);
    assert!(data.start_time.is_none());
    assert!(data.end_time.is_none());
    assert!(data.result.is_none());
}

#[test]
fn panic_payloads_give_a_message() {
    let text = |text: &str| Some(text.to_string());
    assert_eq!(panic_message(text("a"), text("b")), "a");
    assert_eq!(panic_message(text("a"), None), "a");
    assert_eq!(panic_message(None, text("b")), "b");
    assert_eq!(panic_message(None, None), "unknown panic");

    let (_, status) = run(
        None,
        TaskOutcome::Panicked {
            as_str: None,
            as_string: None,
        },
    );
    assert_eq!(
        status.error.expect("the task panicked").message,
        "Async operation panicked: unknown panic",
    );
}

#[test]
fn tasks_are_named_after_the_method() {
    assert_eq!(task_name(&None), "AsyncOp");
    let context = ContextInfo::new("z_shieldcoinbase", Value::Null);
    assert_eq!(task_name(&Some(context)), "z_shieldcoinbase");
}

#[test]
fn error_codes_have_their_numbers() {
    assert_eq!(LegacyCode::Misc.code(), -1);
    assert_eq!(LegacyCode::OutOfMemory.code(), -7);
    assert_eq!(LegacyCode::InvalidParameter.code(), -8);

    let error = LegacyCode::OutOfMemory.with_static("full");
    assert_eq!((error.code, error.message.as_str()), (-7, "full"));
    assert!(error.data.is_none());
    let error = LegacyCode::Misc.with_message("odd".to_string());
    assert_eq!((error.code, error.message.as_str()), (-1, "odd"));
    assert!(error.data.is_none());
}
