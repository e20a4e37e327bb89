//! The bounded queue of async operations.

use vstd::hash_set::StringHashSet;
use vstd::prelude::*;

use crate::error::{LegacyCode, RpcError};
use crate::operation::{AsyncOperation, ContextInfo, OperationModel};
use crate::operation_id::OperationId;
use crate::state::OperationState;
use crate::time::Timestamp;

verus! {

/// The views of a list of IDs with the state read for each.
pub open spec fn states_view(states: Seq<(OperationId, OperationState)>) -> Seq<
    (Seq<char>, OperationState),
> {
    states.map_values(|entry: (OperationId, OperationState)| (entry.0@, entry.1))
}

/// The IDs that are listed with a finished state.
pub open spec fn finished_among(states: Seq<(Seq<char>, OperationState)>) -> Set<Seq<char>> {
    Set::new(
        |id: Seq<char>|
            exists|i: int|
                0 <= i < states.len() && #[trigger] states[i].0 == id && states[i].1.finished(),
    )
}

/// A set of IDs of operations that have finished executing.
pub struct FinishedIds {
    ids: StringHashSet,
}

impl View for FinishedIds {
    type V = Set<Seq<char>>;

    closed spec fn view(&self) -> Set<Seq<char>> {
        self.ids@
    }
}

impl FinishedIds {
    /// Collects the IDs that are listed with a finished state.
    pub fn collect(states: &Vec<(OperationId, OperationState)>) -> (finished: Self)
        ensures
            finished@ == finished_among(states_view(states@)),
            forall|id: Seq<char>| #[trigger]
                finished@.contains(id) <==> exists|i: int|
                    0 <= i < states@.len() && (#[trigger] states@[i]).0@ == id && !(
                    states@[i].1 is Ready || states@[i].1 is Executing),
    {
        let mut ids = StringHashSet::new();
        let mut i: usize = 0;
        while i < states.len()
            invariant
                i <= states.len(),
                ids@ == finished_among(states_view(states@).take(i as int)),
            decreases states.len() - i,
        {
            let ghost before = states_view(states@).take(i as int);
            let ghost after = states_view(states@).take(i + 1);
            assert(after =~= before.push((states@[i as int].0@, states@[i as int].1)));
            if states[i].1.is_finished() {
                ids.insert(states[i].0.as_str().to_owned());
            }
            i += 1;
            proof {
                lemma_finished_among_push(before, states@[i - 1].0@, states@[i - 1].1);
            }
        }
        let ghost views = states_view(states@);
        assert(views.take(states.len() as int) =~= views);
        assert forall|id: Seq<char>| #[trigger]
            ids@.contains(id) <==> exists|i: int|
                0 <= i < states@.len() && (#[trigger] states@[i]).0@ == id && !(
                states@[i].1 is Ready || states@[i].1 is Executing) by {
            if ids@.contains(id) {
                let i = choose|i: int|
                    0 <= i < views.len() && #[trigger] views[i].0 == id && views[i].1.finished();
                assert(states@[i].0@ == id);
            }
            if exists|i: int|
                0 <= i < states@.len() && (#[trigger] states@[i]).0@ == id && !(
                states@[i].1 is Ready || states@[i].1 is Executing) {
                let i = choose|i: int|
                    0 <= i < states@.len() && (#[trigger] states@[i]).0@ == id && !(
                    states@[i].1 is Ready || states@[i].1 is Executing);
                assert(views[i].0 == id);
            }
        }
        FinishedIds { ids }
    }

    /// Returns whether `id` is in the set.
    pub fn contains(&self, id: &OperationId) -> (found: bool)
        ensures
            found == self@.contains(id@),
    {
        self.ids.contains(id.as_str())
    }

    /// Returns whether the set is empty.
    pub fn is_empty(&self) -> (empty: bool)
        ensures
            empty == self@.is_empty(),
    {
        self.ids.is_empty()
    }
}

/// One more entry adds its ID exactly if its state is finished.
proof fn lemma_finished_among_push(
    states: Seq<(Seq<char>, OperationState)>,
    id: Seq<char>,
    state: OperationState,
)
    ensures
        finished_among(states.push((id, state))) == if state.finished() {
            finished_among(states).insert(id)
        } else {
            finished_among(states)
        },
{
    let longer = states.push((id, state));
    let expected = if state.finished() {
        finished_among(states).insert(id)
    } else {
        finished_among(states)
    };
    assert forall|other: Seq<char>|
        finished_among(longer).contains(other) <==> expected.contains(other) by {
        if finished_among(states).contains(other) {
            let i = choose|i: int|
                0 <= i < states.len() && #[trigger] states[i].0 == other
                    && states[i].1.finished();
            assert(longer[i].0 == other);
        }
        if state.finished() && other == id {
            assert(longer[states.len() as int].0 == other);
        }
        if finished_among(longer).contains(other) {
            let i = choose|i: int|
                0 <= i < longer.len() && #[trigger] longer[i].0 == other
                    && longer[i].1.finished();
            if i < states.len() {
                assert(states[i].0 == other);
            }
        }
    }
    assert(finished_among(longer) =~= expected);
}

/// The views of a list of operations.
pub open spec fn operations_view<D>(ops: Seq<AsyncOperation<D>>) -> Seq<OperationModel<D>> {
    ops.map_values(|op: AsyncOperation<D>| op@)
}

/// What stays of `ops`, oldest first, when up to `excess` of the operations in `finished` are
/// evicted, the oldest of them first.
pub open spec fn survivors<D>(
    ops: Seq<OperationModel<D>>,
    finished: Set<Seq<char>>,
    excess: nat,
) -> Seq<OperationModel<D>>
    decreases ops.len(),
{
    if ops.len() == 0 {
        ops
    } else if excess > 0 && finished.contains(ops[0].id) {
        survivors(ops.drop_first(), finished, (excess - 1) as nat)
    } else {
        seq![ops[0]] + survivors(ops.drop_first(), finished, excess)
    }
}

/// Evicts up to `excess` of the operations in `finished`, the oldest of them first.
fn evict<D>(ops: &mut Vec<AsyncOperation<D>>, finished: &FinishedIds, excess: usize)
    ensures
        operations_view(final(ops)@) == survivors(
            operations_view(old(ops)@),
            finished@,
            excess as nat,
        ),
{
    let ghost all = operations_view(ops@);
    let mut left: usize = excess;
    let mut i: usize = 0;
    assert(all.take(0) + survivors(all.skip(0), finished@, excess as nat) =~= survivors(
        all,
        finished@,
        excess as nat,
    )) by {
        assert(all.skip(0) =~= all);
    }
    while i < ops.len()
        invariant
            i <= ops.len(),
            operations_view(ops@).take(i as int) + survivors(
                operations_view(ops@).skip(i as int),
                finished@,
                left as nat,
            ) == survivors(all, finished@, excess as nat),
        decreases ops.len() - i,
    {
        let ghost now = operations_view(ops@);
        assert(now.skip(i as int)[0] == now[i as int]);
        assert(now.skip(i as int).drop_first() =~= now.skip(i + 1));
        if left > 0 && finished.contains(ops[i].operation_id()) {
            ops.remove(i);
            left -= 1;
            assert(operations_view(ops@).take(i as int) =~= now.take(i as int));
            assert(operations_view(ops@).skip(i as int) =~= now.skip(i + 1));
        } else {
            assert(now.take(i + 1) =~= now.take(i as int) + seq![now[i as int]]);
            assert(now.take(i + 1) + survivors(now.skip(i + 1), finished@, left as nat)
                =~= now.take(i as int) + survivors(now.skip(i as int), finished@, left as nat));
            i += 1;
        }
    }
    assert(operations_view(ops@).take(i as int) + survivors(
        operations_view(ops@).skip(i as int),
        finished@,
        left as nat,
    ) =~= operations_view(ops@));
}

/// A bounded queue of async operations.
///
/// Operations are retained in the queue after they finish, so that their results can be collected
/// with `z_getoperationresult`. To bound the memory used by the queue, inserting an operation into
/// a full queue evicts the oldest finished operations; if the queue is full of unfinished
/// operations, the insertion is rejected instead.
pub struct OperationQueue<D> {
    ops: Vec<AsyncOperation<D>>,
    limit: usize,
}

/// The contents of an [`OperationQueue`], oldest operation first, and its limit.
#[verifier::ext_equal]
pub struct QueueModel<D> {
    pub ops: Seq<OperationModel<D>>,
    pub limit: nat,
}

impl<D> View for OperationQueue<D> {
    type V = QueueModel<D>;

    closed spec fn view(&self) -> QueueModel<D> {
        QueueModel { ops: operations_view(self.ops@), limit: self.limit as nat }
    }
}

/// The error that answers an insertion for which there is no room.
pub open spec fn full_error_model() -> crate::error::ErrorModel {
    LegacyCode::OutOfMemory.error(
        "Too many pending asynchronous operations; collect finished operations with z_getoperationresult"@,
    )
}

impl<D> QueueModel<D> {
    /// Whether the queue holds no more operations than its limit.
    pub open spec fn bounded(self) -> bool {
        self.ops.len() <= self.limit
    }

    /// The operations that stay when room is made for one more.
    pub open spec fn with_room(self, finished: Set<Seq<char>>) -> Seq<OperationModel<D>> {
        if self.ops.len() < self.limit {
            self.ops
        } else {
            survivors(self.ops, finished, (self.ops.len() + 1 - self.limit) as nat)
        }
    }

    /// Whether room can be made for one more operation.
    pub open spec fn admits(self, finished: Set<Seq<char>>) -> bool {
        self.with_room(finished).len() < self.limit
    }

    /// Whether the queue is expected to admit one more operation.
    pub open spec fn has_capacity(self, finished: Set<Seq<char>>) -> bool {
        self.ops.len() < self.limit || !finished.is_empty()
    }
}

impl<D> OperationQueue<D> {
    #[verifier::type_invariant]
    spec fn within_limit(self) -> bool {
        self.ops.len() <= self.limit
    }

    /// Makes an empty queue that holds up to `limit` operations.
    pub fn new(limit: usize) -> (queue: Self)
        ensures
            queue@.ops == Seq::<OperationModel<D>>::empty(),
            queue@.limit == limit,
    {
        let queue = Self { ops: Vec::new(), limit };
        assert(queue@.ops =~= Seq::<OperationModel<D>>::empty());
        queue
    }

    /// Inserts a new operation into the queue, under a fresh ID, and returns that ID.
    ///
    /// `finished` holds the IDs of the operations that were found to have finished; those among
    /// them that are in the queue may be evicted to make room. Returns an error, and leaves the
    /// queue as it is, if the queue is full and none of its operations is in `finished`. The
    /// operation's task must only be launched once the operation has its place here.
    pub fn insert(
        &mut self,
        finished: &FinishedIds,
        context: Option<ContextInfo>,
        creation_time: Timestamp,
        data: D,
    ) -> (id: Result<OperationId, RpcError>)
        ensures
            old(self)@.bounded(),
            final(self)@.bounded(),
            final(self)@.limit == old(self)@.limit,
            final(self)@.ops.len() <= final(self)@.limit,
            id is Ok <==> old(self)@.admits(finished@),
            id is Err <==> (old(self)@.ops.len() == old(self)@.limit && forall|i: int|
                0 <= i < old(self)@.ops.len() ==> !finished@.contains(
                    #[trigger] old(self)@.ops[i].id,
                )),
            old(self)@.ops.len() < old(self)@.limit ==> final(self)@.ops.drop_last()
                == old(self)@.ops,
            forall|oldest: int|
                {
                    &&& old(self)@.ops.len() == old(self)@.limit
                    &&& 0 <= oldest < old(self)@.ops.len()
                    &&& finished@.contains((#[trigger] old(self)@.ops[oldest]).id)
                    &&& forall|i: int|
                        0 <= i < oldest ==> !finished@.contains(#[trigger] old(self)@.ops[i].id)
                } ==> final(self)@.ops.drop_last() == old(self)@.ops.remove(oldest),
            id matches Ok(id) ==> {
                &&& final(self)@.ops.len() > 0
                &&& final(self)@.ops.last().id == id@
                &&& crate::uuid_text::was_drawn(id@.skip("opid-"@.len() as int))
                &&& final(self)@.ops.last().creation_time == creation_time@
                &&& final(self)@.ops.last().data == data
                &&& match context {
                    Some(context) => final(self)@.ops.last().context matches Some(kept)
                        && kept.method == context.method@ && kept.params == context.params,
                    None => final(self)@.ops.last().context is None,
                }
            },
            match id {
                Ok(id) => crate::operation_id::is_generated_id(id@) && final(self)@.ops
                    == old(self)@.with_room(finished@).push(
                    OperationModel {
                        id: id@,
                        context: crate::operation::context_view(context),
                        creation_time: creation_time@,
                        data,
                    },
                ),
                Err(error) => error@ == full_error_model() && final(self)@ == old(self)@,
            },
    {
        proof {
            use_type_invariant(&*self);
        }
        let ghost before = self@;
        proof {
            lemma_room(before, finished@);
        }
        let limit: usize = self.limit;
        let mut ops: Vec<AsyncOperation<D>> = Vec::new();
        std::mem::swap(&mut ops, &mut self.ops);
        if ops.len() >= limit {
            let excess: usize = ops.len() - limit + 1;
            evict(&mut ops, finished, excess);
            if ops.len() >= limit {
                proof {
                    lemma_nothing_evicted(before.ops, finished@, excess as nat);
                }
                self.ops = ops;
                return Err(Self::full_error());
            }
        }
        let op = AsyncOperation::new(context, creation_time, data);
        let operation_id = op.operation_id().clone();
        let ghost retained = ops@;
        ops.push(op);
        assert(operations_view(ops@) =~= operations_view(retained).push(op@));
        assert(operations_view(ops@).drop_last() =~= operations_view(retained));
        self.ops = ops;
        Ok(operation_id)
    }

    /// Errors if a subsequent [`Self::insert`] would be rejected.
    ///
    /// Callers that do expensive work to construct an operation should check this first, so that
    /// a request rejected by the queue is rejected cheaply. The answer is necessarily advisory:
    /// the queue may fill up or drain between this check and the insertion.
    pub fn check_capacity(&self, finished: &FinishedIds) -> (capacity: Result<(), RpcError>)
        ensures
            match capacity {
                Ok(_) => self@.has_capacity(finished@),
                Err(error) => !self@.has_capacity(finished@) && error@ == full_error_model(),
            },
            capacity is Ok <==> (self@.ops.len() < self@.limit || exists|id: Seq<char>|
                finished@.contains(id)),
    {
        proof {
            law_capacity_is_room_or_a_finished_id(self@, finished@);
        }
        if self.ops.len() < self.limit || !finished.is_empty() {
            Ok(())
        } else {
            Err(Self::full_error())
        }
    }

    /// Returns the operations in the queue, oldest first.
    pub fn read(&self) -> (ops: &Vec<AsyncOperation<D>>)
        ensures
            operations_view(ops@) == self@.ops,
            ops@.len() == self@.ops.len(),
            forall|i: int| 0 <= i < ops@.len() ==> #[trigger] ops@[i]@ == self@.ops[i],
            self@.bounded(),
            ops@.len() <= self@.limit,
    {
        proof {
            use_type_invariant(self);
        }
        &self.ops
    }

    /// Takes the operation at `index` out of the queue, as when its result is collected.
    ///
    /// Removing operations is always permitted; insertions must go through [`Self::insert`] to
    /// maintain the queue bound.
    pub fn remove(&mut self, index: usize) -> (op: Option<AsyncOperation<D>>)
        ensures
            final(self)@.limit == old(self)@.limit,
            match op {
                Some(op) => index < old(self)@.ops.len() && op@ == old(self)@.ops[index as int]
                    && final(self)@.ops == old(self)@.ops.remove(index as int),
                None => index >= old(self)@.ops.len() && final(self)@ == old(self)@,
            },
    {
        proof {
            use_type_invariant(&*self);
        }
        if index >= self.ops.len() {
            return None;
        }
        let ghost before = self@;
        let mut ops: Vec<AsyncOperation<D>> = Vec::new();
        std::mem::swap(&mut ops, &mut self.ops);
        let op = ops.remove(index);
        assert(operations_view(ops@) =~= before.ops.remove(index as int));
        self.ops = ops;
        Some(op)
    }

    /// Lists the IDs in the queue with a copy of each operation's data handle, oldest first, so
    /// that the states can be read without holding on to the queue.
    pub fn snapshot(&self) -> (entries: Vec<(OperationId, D)>) where D: Clone
        ensures
            entries@.len() == self@.ops.len(),
            forall|i: int|
                #![trigger entries@[i]]
                0 <= i < entries@.len() ==> entries@[i].0@ == self@.ops[i].id && cloned(
                    self@.ops[i].data,
                    entries@[i].1,
                ),
    {
        let mut entries: Vec<(OperationId, D)> = Vec::new();
        let mut i: usize = 0;
        while i < self.ops.len()
            invariant
                i <= self.ops.len(),
                entries@.len() == i,
                forall|j: int|
                    #![trigger entries@[j]]
                    0 <= j < i ==> entries@[j].0@ == self@.ops[j].id && cloned(
                        self@.ops[j].data,
                        entries@[j].1,
                    ),
            decreases self.ops.len() - i,
        {
            entries.push((self.ops[i].operation_id().clone(), self.ops[i].data.clone()));
            i += 1;
        }
        entries
    }

    /// Builds the error that answers an insertion for which there is no room.
    fn full_error() -> (error: RpcError)
        ensures
            error@ == full_error_model(),
            error.code == LegacyCode::OutOfMemory.number(),
            error.data is None,
    {
        LegacyCode::OutOfMemory.with_static(
            "Too many pending asynchronous operations; collect finished operations with z_getoperationresult",
        )
    }
}

/// Where as many operations stay as there were, none was evicted.
proof fn lemma_nothing_evicted<D>(
    ops: Seq<OperationModel<D>>,
    finished: Set<Seq<char>>,
    excess: nat,
)
    ensures
        survivors(ops, finished, excess).len() <= ops.len(),
        survivors(ops, finished, excess).len() == ops.len() ==> survivors(ops, finished, excess)
            == ops,
    decreases ops.len(),
{
    if ops.len() > 0 {
        if excess > 0 && finished.contains(ops[0].id) {
            lemma_nothing_evicted(ops.drop_first(), finished, (excess - 1) as nat);
        } else {
            lemma_nothing_evicted(ops.drop_first(), finished, excess);
            assert(seq![ops[0]] + ops.drop_first() =~= ops);
        }
    }
}

/// Tells the operations whose IDs are in `finished`.
pub open spec fn finished_in<D>(finished: Set<Seq<char>>) -> spec_fn(OperationModel<D>) -> bool {
    |op: OperationModel<D>| finished.contains(op.id)
}

/// Tells the operations whose IDs are not in `finished`.
pub open spec fn unfinished_in<D>(finished: Set<Seq<char>>) -> spec_fn(OperationModel<D>) -> bool {
    |op: OperationModel<D>| !finished.contains(op.id)
}

/// The smaller of two numbers.
pub open spec fn lesser(a: nat, b: nat) -> nat {
    if a <= b {
        a
    } else {
        b
    }
}

/// Splits the first operation off a filtered list.
proof fn lemma_filter_first<D>(
    ops: Seq<OperationModel<D>>,
    pred: spec_fn(OperationModel<D>) -> bool,
)
    requires
        ops.len() > 0,
    ensures
        ops.filter(pred) == if pred(ops[0]) {
            seq![ops[0]] + ops.drop_first().filter(pred)
        } else {
            ops.drop_first().filter(pred)
        },
{
    let head = seq![ops[0]];
    assert(ops =~= head + ops.drop_first());
    Seq::filter_distributes_over_add(head, ops.drop_first(), pred);
    reveal(Seq::filter);
    assert(head.drop_last() =~= Seq::<OperationModel<D>>::empty());
    assert(head.drop_last().filter(pred) =~= Seq::<OperationModel<D>>::empty());
    if pred(ops[0]) {
        assert(head.filter(pred) =~= head);
    } else {
        assert(head.filter(pred) =~= Seq::<OperationModel<D>>::empty());
        assert(head.filter(pred) + ops.drop_first().filter(pred)
            =~= ops.drop_first().filter(pred));
    }
}

/// Puts an operation before a list that is filtered.
proof fn lemma_filter_prepend<D>(
    op: OperationModel<D>,
    ops: Seq<OperationModel<D>>,
    pred: spec_fn(OperationModel<D>) -> bool,
)
    ensures
        (seq![op] + ops).filter(pred) == if pred(op) {
            seq![op] + ops.filter(pred)
        } else {
            ops.filter(pred)
        },
{
    lemma_filter_first(seq![op] + ops, pred);
    assert((seq![op] + ops).drop_first() =~= ops);
}

/// An eviction takes no operation that is not known to have finished, and keeps the order of
/// those that it leaves.
pub proof fn law_unfinished_operations_stay<D>(
    ops: Seq<OperationModel<D>>,
    finished: Set<Seq<char>>,
    excess: nat,
)
    ensures
        survivors(ops, finished, excess).filter(unfinished_in(finished)) == ops.filter(
            unfinished_in(finished),
        ),
    decreases ops.len(),
{
    let pred = unfinished_in::<D>(finished);
    if ops.len() > 0 {
        lemma_filter_first(ops, pred);
        if excess > 0 && finished.contains(ops[0].id) {
            law_unfinished_operations_stay(ops.drop_first(), finished, (excess - 1) as nat);
        } else {
            law_unfinished_operations_stay(ops.drop_first(), finished, excess);
            lemma_filter_prepend(ops[0], survivors(ops.drop_first(), finished, excess), pred);
        }
    }
}

/// Of the operations that have finished, an eviction takes the oldest, as many as it was asked
/// for or as there are, and leaves the others in their order.
pub proof fn law_oldest_finished_operations_go_first<D>(
    ops: Seq<OperationModel<D>>,
    finished: Set<Seq<char>>,
    excess: nat,
)
    ensures
        survivors(ops, finished, excess).filter(finished_in(finished)) == ops.filter(
            finished_in(finished),
        ).skip(lesser(excess, ops.filter(finished_in(finished)).len()) as int),
        survivors(ops, finished, excess).len() == ops.len() - lesser(
            excess,
            ops.filter(finished_in(finished)).len(),
        ),
    decreases ops.len(),
{
    let pred = finished_in::<D>(finished);
    if ops.len() == 0 {
        reveal(Seq::filter);
        assert(ops.filter(pred).skip(0) =~= ops.filter(pred));
    } else {
        let rest = ops.drop_first();
        lemma_filter_first(ops, pred);
        if excess > 0 && finished.contains(ops[0].id) {
            let fewer = (excess - 1) as nat;
            law_oldest_finished_operations_go_first(rest, finished, fewer);
            let gone = lesser(fewer, rest.filter(pred).len());
            assert((seq![ops[0]] + rest.filter(pred)).skip(gone as int + 1) =~= rest.filter(pred).skip(
                gone as int,
            ));
        } else {
            law_oldest_finished_operations_go_first(rest, finished, excess);
            lemma_filter_prepend(ops[0], survivors(rest, finished, excess), pred);
            if pred(ops[0]) {
                assert(rest.filter(pred).skip(0) =~= rest.filter(pred));
                assert(ops.filter(pred).skip(0) =~= ops.filter(pred));
            }
        }
    }
}

/// Where none of the operations has finished, an eviction takes none, however many were asked for.
pub proof fn law_nothing_finished_nothing_evicted<D>(
    ops: Seq<OperationModel<D>>,
    finished: Set<Seq<char>>,
    excess: nat,
)
    requires
        forall|i: int| 0 <= i < ops.len() ==> !finished.contains(#[trigger] ops[i].id),
    ensures
        survivors(ops, finished, excess) == ops,
    decreases ops.len(),
{
    if ops.len() > 0 {
        assert forall|i: int| 0 <= i < ops.drop_first().len() implies !finished.contains(
            #[trigger] ops.drop_first()[i].id,
        ) by {
            assert(ops.drop_first()[i] == ops[i + 1]);
        }
        law_nothing_finished_nothing_evicted(ops.drop_first(), finished, excess);
        assert(seq![ops[0]] + ops.drop_first() =~= ops);
    }
}

/// An eviction goes one by one: to evict one more is to take the oldest finished operation out
/// first, leaving all others in their places, and then to evict the rest.
pub proof fn law_eviction_goes_one_by_one<D>(
    ops: Seq<OperationModel<D>>,
    finished: Set<Seq<char>>,
    oldest: int,
    rest: nat,
)
    requires
        0 <= oldest < ops.len(),
        finished.contains(ops[oldest].id),
        forall|i: int| 0 <= i < oldest ==> !finished.contains(#[trigger] ops[i].id),
    ensures
        survivors(ops, finished, rest + 1) == survivors(ops.remove(oldest), finished, rest),
    decreases ops.len(),
{
    let tail = ops.drop_first();
    if oldest == 0 {
        assert(ops.remove(0) =~= tail);
    } else {
        assert(!finished.contains(ops[0].id));
        assert(tail[oldest - 1] == ops[oldest]);
        assert forall|i: int| 0 <= i < oldest - 1 implies !finished.contains(
            #[trigger] tail[i].id,
        ) by {
            assert(tail[i] == ops[i + 1]);
        }
        law_eviction_goes_one_by_one(tail, finished, oldest - 1, rest);
        assert(ops.remove(oldest)[0] == ops[0]);
        assert(ops.remove(oldest).drop_first() =~= tail.remove(oldest - 1));
    }
}

/// Where no eviction is asked for, every operation stays.
pub proof fn law_nothing_asked_for_nothing_evicted<D>(ops: Seq<OperationModel<D>>, finished: Set<Seq<char>>)
    ensures
        survivors(ops, finished, 0) == ops,
    decreases ops.len(),
{
    if ops.len() > 0 {
        law_nothing_asked_for_nothing_evicted(ops.drop_first(), finished);
        assert(seq![ops[0]] + ops.drop_first() =~= ops);
    }
}

/// The first place in `ops`, from `from` on, of an operation that has finished.
spec fn first_finished<D>(ops: Seq<OperationModel<D>>, finished: Set<Seq<char>>, from: int) -> int
    decreases ops.len() - from,
{
    if from >= ops.len() || finished.contains(ops[from].id) {
        from
    } else {
        first_finished(ops, finished, from + 1)
    }
}

/// The search for a finished operation stops at the first one.
proof fn lemma_first_finished<D>(
    ops: Seq<OperationModel<D>>,
    finished: Set<Seq<char>>,
    from: int,
    at: int,
)
    requires
        0 <= from <= at < ops.len(),
        finished.contains(ops[at].id),
    ensures
        ({
            let first = first_finished(ops, finished, from);
            &&& from <= first <= at
            &&& finished.contains(ops[first].id)
            &&& forall|j: int| from <= j < first ==> !finished.contains(#[trigger] ops[j].id)
        }),
    decreases at - from,
{
    if !finished.contains(ops[from].id) {
        lemma_first_finished(ops, finished, from + 1, at);
    }
}

/// While a queue is below its limit, an insertion discards no operation, finished or not.
pub proof fn law_nothing_is_evicted_below_the_limit<D>(
    queue: QueueModel<D>,
    finished: Set<Seq<char>>,
)
    requires
        queue.ops.len() < queue.limit,
    ensures
        queue.admits(finished),
        queue.with_room(finished) == queue.ops,
{
}

/// At its limit, a queue makes room by evicting one operation, the oldest that has finished.
pub proof fn law_full_queue_evicts_its_oldest_finished<D>(
    queue: QueueModel<D>,
    finished: Set<Seq<char>>,
    oldest: int,
)
    requires
        queue.ops.len() == queue.limit,
        0 <= oldest < queue.ops.len(),
        finished.contains(queue.ops[oldest].id),
        forall|i: int| 0 <= i < oldest ==> !finished.contains(#[trigger] queue.ops[i].id),
    ensures
        queue.admits(finished),
        queue.with_room(finished) == queue.ops.remove(oldest),
{
    law_eviction_goes_one_by_one(queue.ops, finished, oldest, 0);
    law_nothing_asked_for_nothing_evicted(queue.ops.remove(oldest), finished);
}

/// An insertion is rejected exactly if the queue is full and none of its operations has finished;
/// the queue then keeps all its operations.
pub proof fn law_only_a_queue_full_of_unfinished_rejects<D>(
    queue: QueueModel<D>,
    finished: Set<Seq<char>>,
)
    requires
        queue.bounded(),
    ensures
        !queue.admits(finished) <==> (queue.ops.len() == queue.limit && forall|i: int|
            0 <= i < queue.ops.len() ==> !finished.contains(#[trigger] queue.ops[i].id)),
        !queue.admits(finished) ==> queue.with_room(finished) == queue.ops,
{
    if queue.ops.len() == queue.limit {
        if exists|i: int| 0 <= i < queue.ops.len() && finished.contains(#[trigger] queue.ops[i].id) {
            let at = choose|i: int|
                0 <= i < queue.ops.len() && finished.contains(#[trigger] queue.ops[i].id);
            lemma_first_finished(queue.ops, finished, 0, at);
            law_full_queue_evicts_its_oldest_finished(
                queue,
                finished,
                first_finished(queue.ops, finished, 0),
            );
        } else {
            law_nothing_finished_nothing_evicted(queue.ops, finished, 1);
        }
    }
}

/// An insertion that is admitted never takes a queue over its limit.
pub proof fn law_insertion_keeps_the_bound<D>(
    queue: QueueModel<D>,
    finished: Set<Seq<char>>,
    op: OperationModel<D>,
)
    requires
        queue.admits(finished),
    ensures
        (QueueModel { ops: queue.with_room(finished).push(op), limit: queue.limit }).bounded(),
{
}

/// The capacity check fails on no queue that would admit an insertion, and where the IDs it is
/// given are all in the queue it fails on every queue that would not.
pub proof fn law_capacity_check_foretells_insertion<D>(
    queue: QueueModel<D>,
    finished: Set<Seq<char>>,
)
    requires
        queue.bounded(),
    ensures
        queue.admits(finished) ==> queue.has_capacity(finished),
        (forall|id: Seq<char>| #[trigger]
            finished.contains(id) ==> exists|i: int|
                0 <= i < queue.ops.len() && #[trigger] queue.ops[i].id == id) ==> (
        queue.has_capacity(finished) <==> queue.admits(finished)),
{
    law_only_a_queue_full_of_unfinished_rejects(queue, finished);
    if !finished.is_empty() {
        assert(exists|id: Seq<char>| finished.contains(id)) by {
            if forall|id: Seq<char>| !finished.contains(id) {
                assert(finished =~= Set::<Seq<char>>::empty());
            }
        }
    }
}

/// Where a state is known for each operation of a queue, the queue admits an insertion exactly if
/// it is below its limit or holds an operation that has finished, and the capacity check says so.
pub proof fn law_finished_operations_give_room<D>(
    queue: QueueModel<D>,
    states: Seq<(Seq<char>, OperationState)>,
)
    requires
        queue.bounded(),
        states.len() == queue.ops.len(),
        forall|i: int| 0 <= i < states.len() ==> #[trigger] states[i].0 == queue.ops[i].id,
    ensures
        queue.admits(finished_among(states)) <==> (queue.ops.len() < queue.limit || exists|i: int|
            0 <= i < states.len() && (#[trigger] states[i]).1.finished()),
        queue.has_capacity(finished_among(states)) <==> queue.admits(finished_among(states)),
{
    let finished = finished_among(states);
    law_only_a_queue_full_of_unfinished_rejects(queue, finished);
    law_capacity_check_foretells_insertion(queue, finished);
    assert forall|id: Seq<char>| #[trigger] finished.contains(id) implies exists|i: int|
        0 <= i < queue.ops.len() && #[trigger] queue.ops[i].id == id by {
        let i = choose|i: int|
            0 <= i < states.len() && #[trigger] states[i].0 == id && states[i].1.finished();
        assert(queue.ops[i].id == id);
    }
    if exists|i: int| 0 <= i < states.len() && (#[trigger] states[i]).1.finished() {
        let i = choose|i: int| 0 <= i < states.len() && (#[trigger] states[i]).1.finished();
        assert(states[i].0 == queue.ops[i].id);
        assert(finished.contains(queue.ops[i].id));
    }
}

/// Which operations stay when room is made, and whether there is room at all.
proof fn lemma_room<D>(queue: QueueModel<D>, finished: Set<Seq<char>>)
    requires
        queue.bounded(),
    ensures
        !queue.admits(finished) <==> (queue.ops.len() == queue.limit && forall|i: int|
            0 <= i < queue.ops.len() ==> !finished.contains(#[trigger] queue.ops[i].id)),
        forall|oldest: int|
            {
                &&& queue.ops.len() == queue.limit
                &&& 0 <= oldest < queue.ops.len()
                &&& finished.contains((#[trigger] queue.ops[oldest]).id)
                &&& forall|i: int|
                    0 <= i < oldest ==> !finished.contains(#[trigger] queue.ops[i].id)
            } ==> queue.with_room(finished) == queue.ops.remove(oldest),
{
    law_only_a_queue_full_of_unfinished_rejects(queue, finished);
    assert forall|oldest: int|
        {
            &&& queue.ops.len() == queue.limit
            &&& 0 <= oldest < queue.ops.len()
            &&& finished.contains((#[trigger] queue.ops[oldest]).id)
            &&& forall|i: int| 0 <= i < oldest ==> !finished.contains(#[trigger] queue.ops[i].id)
        } implies queue.with_room(finished) == queue.ops.remove(oldest) by {
        law_full_queue_evicts_its_oldest_finished(queue, finished, oldest);
    }
}

/// There is capacity exactly if the queue is below its limit or some operation was found to have
/// finished, be it still in the queue or not.
pub proof fn law_capacity_is_room_or_a_finished_id<D>(
    queue: QueueModel<D>,
    finished: Set<Seq<char>>,
)
    ensures
        queue.has_capacity(finished) <==> (queue.ops.len() < queue.limit || exists|id: Seq<char>|
            finished.contains(id)),
{
    if forall|id: Seq<char>| !finished.contains(id) {
        assert(finished =~= Set::<Seq<char>>::empty());
    }
}

/// A queue is within its bound exactly if it holds no more operations than its limit.
pub proof fn law_bound_is_the_limit<D>(queue: QueueModel<D>)
    ensures
        queue.bounded() <==> queue.ops.len() <= queue.limit,
{
}

/// The finished IDs are those that are listed with a state in which an operation neither waits
/// nor runs; that the same ID is listed with another state too makes no difference.
pub proof fn law_finished_ids_are_those_listed(
    states: Seq<(Seq<char>, OperationState)>,
    id: Seq<char>,
)
    ensures
        finished_among(states).contains(id) <==> exists|i: int|
            0 <= i < states.len() && #[trigger] states[i].0 == id && !(states[i].1 is Ready
                || states[i].1 is Executing),
{
    if finished_among(states).contains(id) {
        let i = choose|i: int|
            0 <= i < states.len() && #[trigger] states[i].0 == id && states[i].1.finished();
        assert(states[i].0 == id);
    }
    if exists|i: int|
        0 <= i < states.len() && #[trigger] states[i].0 == id && !(states[i].1 is Ready
            || states[i].1 is Executing) {
        let i = choose|i: int|
            0 <= i < states.len() && #[trigger] states[i].0 == id && !(states[i].1 is Ready
                || states[i].1 is Executing);
        assert(states[i].1.finished());
    }
}

/// The views of lists keep every entry in its place.
pub proof fn law_list_views_are_faithful<D>(
    ops: Seq<AsyncOperation<D>>,
    states: Seq<(OperationId, OperationState)>,
    i: int,
)
    ensures
        operations_view(ops).len() == ops.len(),
        0 <= i < ops.len() ==> operations_view(ops)[i] == ops[i]@,
        states_view(states).len() == states.len(),
        0 <= i < states.len() ==> states_view(states)[i] == (states[i].0@, states[i].1),
{
}

/// A queue that admits an insertion gives up no operation or one, and a queue below its limit
/// gives up none.
pub proof fn law_insertion_costs_one_operation_at_most<D>(
    queue: QueueModel<D>,
    finished: Set<Seq<char>>,
)
    requires
        queue.bounded(),
    ensures
        queue.ops.len() < queue.limit ==> queue.with_room(finished).len() == queue.ops.len(),
        queue.with_room(finished).len() >= queue.ops.len() - 1,
{
    law_oldest_finished_operations_go_first(queue.ops, finished, 1);
}

} // verus!
