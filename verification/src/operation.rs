//! Async operations: what is recorded of them while they run, and the status built from it.

use vstd::prelude::*;

use serde_json::Value;

use crate::error::{ErrorModel, LegacyCode, RpcError};
use crate::operation_id::OperationId;
use crate::state::OperationState;
use crate::text::join;
use crate::time::Timestamp;

verus! {

/// The RPC call that an operation was launched for: its method and its parameters.
pub struct ContextInfo {
    pub method: &'static str,
    pub params: Value,
}

/// The contents of a [`ContextInfo`].
#[verifier::ext_equal]
pub struct ContextModel {
    pub method: Seq<char>,
    pub params: Value,
}

impl View for ContextInfo {
    type V = ContextModel;

    open spec fn view(&self) -> ContextModel {
        ContextModel { method: self.method@, params: self.params }
    }
}

/// The view of an optional context.
pub open spec fn context_view(context: Option<ContextInfo>) -> Option<ContextModel> {
    match context {
        Some(context) => Some(context@),
        None => None,
    }
}

impl ContextInfo {
    /// Records the method and the parameters of an RPC call.
    pub fn new(method: &'static str, params: Value) -> (context: Self)
        ensures
            context@ == (ContextModel { method: method@, params }),
            context.method@ == method@,
            context.params == params,
    {
        Self { method, params }
    }
}

/// The name of the task that runs an operation: the method it was launched for, if any.
pub open spec fn task_name_model(context: Option<ContextModel>) -> Seq<char> {
    match context {
        Some(context) => context.method,
        None => "AsyncOp"@,
    }
}

/// Returns the name of the task that runs an operation with the given context.
pub fn task_name(context: &Option<ContextInfo>) -> (name: &'static str)
    ensures
        name@ == task_name_model(context_view(*context)),
        match context {
            Some(context) => name@ == context.method@,
            None => name@ == "AsyncOp"@,
        },
{
    match context {
        Some(context) => context.method,
        None => "AsyncOp",
    }
}

/// What came of running an operation's task to its end.
pub enum TaskOutcome {
    /// The task succeeded, and its result was turned into JSON.
    Returned(Value),
    /// The task failed with an error.
    Rejected(RpcError),
    /// The task succeeded, but its result could not be turned into JSON, for the given reason.
    Unserializable(String),
    /// The task panicked. Each field is the payload of the panic, if it is of that type.
    Panicked { as_str: Option<String>, as_string: Option<String> },
}

/// The message of a panic, given its payload as a `&str` and as a `String`.
pub open spec fn panic_message_model(as_str: Option<Seq<char>>, as_string: Option<Seq<char>>) -> Seq<
    char,
> {
    match (as_str, as_string) {
        (Some(message), _) => message,
        (None, Some(message)) => message,
        (None, None) => "unknown panic"@,
    }
}

/// Returns the message of a panic, given its payload as a `&str` and as a `String`.
pub fn panic_message(as_str: Option<String>, as_string: Option<String>) -> (message: String)
    ensures
        message@ == panic_message_model(
            crate::error::text_view(as_str),
            crate::error::text_view(as_string),
        ),
        match as_str {
            Some(text) => message@ == text@,
            None => match as_string {
                Some(text) => message@ == text@,
                None => message@ == "unknown panic"@,
            },
        },
{
    match as_str {
        Some(message) => message,
        None => match as_string {
            Some(message) => message,
            None => "unknown panic".to_owned(),
        },
    }
}

/// The contents of an operation's result.
pub type ResultModel = Result<Value, ErrorModel>;

/// The view of an operation's result.
pub open spec fn result_view(result: Result<Value, RpcError>) -> ResultModel {
    match result {
        Ok(value) => Ok(value),
        Err(error) => Err(error@),
    }
}

/// The view of an operation's result, where there is one.
pub open spec fn optional_result_view(result: Option<Result<Value, RpcError>>) -> Option<
    ResultModel,
> {
    match result {
        Some(result) => Some(result_view(result)),
        None => None,
    }
}

impl TaskOutcome {
    /// The result that is recorded for this outcome.
    pub open spec fn result(self) -> ResultModel {
        match self {
            TaskOutcome::Returned(value) => Ok(value),
            TaskOutcome::Rejected(error) => Err(error@),
            TaskOutcome::Unserializable(reason) => Err(
                LegacyCode::Misc.error("Failed to serialize operation result: "@ + reason@),
            ),
            TaskOutcome::Panicked { as_str, as_string } => Err(
                LegacyCode::Misc.error(
                    "Async operation panicked: "@ + panic_message_model(
                        crate::error::text_view(as_str),
                        crate::error::text_view(as_string),
                    ),
                ),
            ),
        }
    }

    /// Turns the outcome into the result that is recorded for it.
    pub fn into_result(self) -> (result: Result<Value, RpcError>)
        ensures
            result_view(result) == self.result(),
            match self {
                TaskOutcome::Returned(value) => result == Ok::<Value, RpcError>(value),
                TaskOutcome::Rejected(error) => result == Err::<Value, RpcError>(error),
                TaskOutcome::Unserializable(reason) => result matches Err(error) && error.code
                    == LegacyCode::Misc.number() && error.message@
                    == "Failed to serialize operation result: "@ + reason@ && error.data is None,
                TaskOutcome::Panicked { as_str, as_string } => result matches Err(error)
                    && error.code == LegacyCode::Misc.number() && error.data is None
                    && error.message@ == "Async operation panicked: "@ + (match (as_str, as_string) {
                    (Some(text), _) => text@,
                    (None, Some(text)) => text@,
                    (None, None) => "unknown panic"@,
                }),
            },
    {
        match self {
            TaskOutcome::Returned(value) => Ok(value),
            TaskOutcome::Rejected(error) => Err(error),
            TaskOutcome::Unserializable(reason) => Err(
                LegacyCode::Misc.with_message(
                    join("Failed to serialize operation result: ", reason.as_str()),
                ),
            ),
            TaskOutcome::Panicked { as_str, as_string } => {
                let message = panic_message(as_str, as_string);
                Err(
                    LegacyCode::Misc.with_message(
                        join("Async operation panicked: ", message.as_str()),
                    ),
                )
            },
        }
    }
}

/// The view of an optional time.
pub open spec fn time_view(time: Option<Timestamp>) -> Option<int> {
    match time {
        Some(time) => Some(time@),
        None => None,
    }
}

/// Data associated with an async operation.
pub struct OperationData {
    pub state: OperationState,
    pub start_time: Option<Timestamp>,
    pub end_time: Option<Timestamp>,
    pub result: Option<Result<Value, RpcError>>,
}

/// The contents of an [`OperationData`], with times in nanoseconds from the Unix epoch.
#[verifier::ext_equal]
pub struct DataModel {
    pub state: OperationState,
    pub start_time: Option<int>,
    pub end_time: Option<int>,
    pub result: Option<ResultModel>,
}

impl View for OperationData {
    type V = DataModel;

    open spec fn view(&self) -> DataModel {
        DataModel {
            state: self.state,
            start_time: time_view(self.start_time),
            end_time: time_view(self.end_time),
            result: optional_result_view(self.result),
        }
    }
}

impl DataModel {
    /// What is recorded of an operation that has just been launched.
    pub open spec fn launched() -> DataModel {
        DataModel {
            state: OperationState::Ready,
            start_time: None,
            end_time: None,
            result: None,
        }
    }

    /// What is recorded once the operation's task starts at `now`. A cancelled operation does not
    /// start.
    pub open spec fn started(self, now: int) -> DataModel {
        if self.state is Cancelled {
            self
        } else {
            DataModel { state: OperationState::Executing, start_time: Some(now), ..self }
        }
    }

    /// What is recorded once the operation's task has ended at `end_time` with `result`.
    pub open spec fn ended(self, result: ResultModel, end_time: int) -> DataModel {
        DataModel {
            state: if result is Ok {
                OperationState::Success
            } else {
                OperationState::Failed
            },
            end_time: Some(end_time),
            result: Some(result),
            ..self
        }
    }

    /// Whether the times and the result fit the state: an operation that is ready has none of
    /// them, one that is executing has a start time alone, one that was cancelled has no end and
    /// no result, and one whose task has ended has them all, with a value after a success and an
    /// error after a failure.
    pub open spec fn consistent(self) -> bool {
        match self.state {
            OperationState::Ready => self.start_time is None && self.end_time is None
                && self.result is None,
            OperationState::Cancelled => self.end_time is None && self.result is None,
            OperationState::Executing => self.start_time is Some && self.end_time is None
                && self.result is None,
            OperationState::Success => self.start_time is Some && self.end_time is Some
                && self.result matches Some(Ok(_)),
            OperationState::Failed => self.start_time is Some && self.end_time is Some
                && self.result matches Some(Err(_)),
        }
    }
}

impl OperationData {
    /// Records an operation that has just been launched.
    pub fn new() -> (data: Self)
        ensures
            data@ == DataModel::launched(),
            data.state is Ready,
            data.start_time is None,
            data.end_time is None,
            data.result is None,
    {
        OperationData {
            state: OperationState::Ready,
            start_time: None,
            end_time: None,
            result: None,
        }
    }

    /// Records that the operation's task has started, and returns whether it is to run: the task
    /// of an operation that was cancelled must stop at once.
    pub fn start(&mut self, now: Timestamp) -> (run: bool)
        ensures
            run == !(old(self)@.state is Cancelled),
            !run ==> final(self)@ == old(self)@,
            final(self)@ == old(self)@.started(now@),
            run ==> final(self).state is Executing && final(self).start_time == Some(now),
            !run ==> *final(self) == *old(self),
            final(self).end_time == old(self).end_time,
            final(self).result == old(self).result,
    {
        if matches!(self.state, OperationState::Cancelled) {
            return false;
        }
        self.state = OperationState::Executing;
        self.start_time = Some(now);
        true
    }

    /// Records the result with which the operation's task has ended, and when it did.
    pub fn finish(&mut self, result: Result<Value, RpcError>, end_time: Timestamp)
        ensures
            final(self)@ == old(self)@.ended(result_view(result), end_time@),
            result is Ok ==> final(self).state is Success,
            result is Err ==> final(self).state is Failed,
            final(self).start_time == old(self).start_time,
            final(self).end_time == Some(end_time),
            final(self).result == Some(result),
    {
        self.state = if result.is_ok() {
            OperationState::Success
        } else {
            OperationState::Failed
        };
        self.end_time = Some(end_time);
        self.result = Some(result);
    }

    /// Returns the current state of the operation.
    pub fn state(&self) -> (state: OperationState)
        ensures
            state == self@.state,
            state == self.state,
    {
        self.state
    }
}

/// An async operation launched by an RPC call.
///
/// `data` is the handle through which the operation and the task that runs it share an
/// [`OperationData`]; nothing here looks behind it.
pub struct AsyncOperation<D> {
    pub operation_id: OperationId,
    pub context: Option<ContextInfo>,
    pub creation_time: Timestamp,
    pub data: D,
}

/// The contents of an [`AsyncOperation`], with its time in nanoseconds from the Unix epoch.
#[verifier::ext_equal]
pub struct OperationModel<D> {
    pub id: Seq<char>,
    pub context: Option<ContextModel>,
    pub creation_time: int,
    pub data: D,
}

impl<D> View for AsyncOperation<D> {
    type V = OperationModel<D>;

    open spec fn view(&self) -> OperationModel<D> {
        OperationModel {
            id: self.operation_id@,
            context: context_view(self.context),
            creation_time: self.creation_time@,
            data: self.data,
        }
    }
}

/// The status of an async operation.
pub struct OperationStatus {
    pub id: OperationId,
    pub method: Option<&'static str>,
    pub params: Option<Value>,
    pub status: OperationState,
    /// The creation time, in seconds since the Unix epoch.
    pub creation_time: u64,
    pub error: Option<OperationError>,
    pub result: Option<Value>,
    /// Execution time for successful operations.
    pub execution_secs: Option<u64>,
}

/// The error with which an async operation failed.
#[derive(Debug)]
pub struct OperationError {
    pub code: i32,
    pub message: String,
    pub data: Option<String>,
}

impl View for OperationError {
    type V = ErrorModel;

    open spec fn view(&self) -> ErrorModel {
        ErrorModel {
            code: self.code,
            message: self.message@,
            data: crate::error::text_view(self.data),
        }
    }
}

/// The contents of an [`OperationStatus`].
#[verifier::ext_equal]
pub struct StatusModel {
    pub id: Seq<char>,
    pub method: Option<Seq<char>>,
    pub params: Option<Value>,
    pub status: OperationState,
    pub creation_time: int,
    pub error: Option<ErrorModel>,
    pub result: Option<Value>,
    pub execution_secs: Option<int>,
}

impl View for OperationStatus {
    type V = StatusModel;

    open spec fn view(&self) -> StatusModel {
        StatusModel {
            id: self.id@,
            method: match self.method {
                Some(method) => Some(method@),
                None => None,
            },
            params: self.params,
            status: self.status,
            creation_time: self.creation_time as int,
            error: match self.error {
                Some(error) => Some(error@),
                None => None,
            },
            result: self.result,
            execution_secs: match self.execution_secs {
                Some(secs) => Some(secs as int),
                None => None,
            },
        }
    }
}

impl<D> OperationModel<D> {
    /// The status of this operation, given what is recorded of it.
    pub open spec fn status(self, data: DataModel) -> StatusModel {
        StatusModel {
            id: self.id,
            method: match self.context {
                Some(context) => Some(context.method),
                None => None,
            },
            params: match self.context {
                Some(context) => Some(context.params),
                None => None,
            },
            status: data.state,
            creation_time: crate::time::whole_secs(self.creation_time),
            error: match data.result {
                Some(Err(error)) => Some(error),
                _ => None,
            },
            result: match data.result {
                Some(Ok(value)) => Some(value),
                _ => None,
            },
            execution_secs: match (data.result, data.start_time, data.end_time) {
                (Some(Ok(_)), Some(start), Some(end)) => Some(crate::time::whole_secs(end - start)),
                _ => None,
            },
        }
    }
}

impl<D> AsyncOperation<D> {
    /// Makes a new operation, under a fresh ID.
    pub fn new(context: Option<ContextInfo>, creation_time: Timestamp, data: D) -> (op: Self)
        ensures
            crate::operation_id::is_generated_id(op@.id),
            op@.context == context_view(context),
            op@.creation_time == creation_time@,
            op@.data == data,
            crate::uuid_text::was_drawn(op.operation_id@.skip("opid-"@.len() as int)),
            op.context == context,
            op.creation_time == creation_time,
            op.data == data,
    {
        Self { operation_id: OperationId::new(), context, creation_time, data }
    }

    /// Returns the ID of this operation.
    pub fn operation_id(&self) -> (id: &OperationId)
        ensures
            id@ == self@.id,
            *id == self.operation_id,
    {
        &self.operation_id
    }

    /// Builds the current status of this operation from what is recorded of it.
    pub fn to_status(&self, data: &OperationData) -> (status: OperationStatus)
        ensures
            status@ == self@.status(data@),
            status.id@ == self.operation_id@,
            match self.context {
                Some(context) => status.method == Some(context.method) && status.params == Some(
                    context.params,
                ),
                None => status.method is None && status.params is None,
            },
            status.status == data.state,
            self.creation_time@ >= 0 ==> status.creation_time * 1_000_000_000
                <= self.creation_time@ < (status.creation_time + 1) * 1_000_000_000,
            self.creation_time@ < 0 ==> status.creation_time == 0,
            match data.result {
                Some(Ok(value)) => status.result == Some(value) && status.error is None,
                Some(Err(e)) => status.result is None && (status.error matches Some(error)
                    && error.code == e.code && error.message == e.message && error.data == e.data),
                None => status.result is None && status.error is None,
            },
            match (data.result, data.start_time, data.end_time) {
                (Some(Ok(_)), Some(start), Some(end)) => status.execution_secs matches Some(secs)
                    && (if end@ >= start@ {
                    start@ + secs * 1_000_000_000 <= end@ < start@ + (secs + 1) * 1_000_000_000
                } else {
                    secs == 0
                }),
                _ => status.execution_secs is None,
            },
    {
        let (method, params) = match &self.context {
            Some(context) => (Some(context.method), Some(context.params.clone())),
            None => (None, None),
        };

        let (error, result, execution_secs) = match &data.result {
            None => (None, None, None),
            Some(Err(e)) => (
                Some(
                    OperationError {
                        code: e.code,
                        message: e.message.clone(),
                        data: e.data.clone(),
                    },
                ),
                None,
                None,
            ),
            Some(Ok(value)) => (
                None,
                Some(value.clone()),
                match (data.end_time, data.start_time) {
                    (Some(end), Some(start)) => Some(end.secs_since(start)),
                    _ => None,
                },
            ),
        };

        OperationStatus {
            id: self.operation_id.clone(),
            method,
            params,
            status: data.state,
            creation_time: self.creation_time.unix_secs(),
            error,
            result,
            execution_secs,
        }
    }
}

/// The times and the result of an operation fit its state from its launch on, through the start
/// of its task to the end.
pub proof fn law_records_stay_consistent(data: DataModel, now: int, result: ResultModel, end: int)
    requires
        data.consistent(),
    ensures
        DataModel::launched().consistent(),
        data.state is Ready || data.state is Cancelled ==> data.started(now).consistent(),
        data.state is Executing ==> data.ended(result, end).consistent(),
{
}

/// However the task of an operation ends, and whatever was recorded before, the operation is then
/// finished: it never stays in the executing state. It has succeeded if the task returned a value
/// that could be turned into JSON, and has failed otherwise, a panic of the task included.
pub proof fn law_every_outcome_finishes_the_operation(
    data: DataModel,
    outcome: TaskOutcome,
    end: int,
)
    ensures
        data.ended(outcome.result(), end).state.finished(),
        data.ended(outcome.result(), end).state is Success <==> outcome is Returned,
        data.ended(outcome.result(), end).state is Failed <==> !(outcome is Returned),
        data.ended(outcome.result(), end).result == Some(outcome.result()),
{
}

/// An operation that was cancelled before its task started stays as it is when the task starts.
pub proof fn law_cancelled_operation_stays_cancelled(data: DataModel, now: int)
    requires
        data.state is Cancelled,
    ensures
        data.started(now) == data,
{
}

/// The status of an operation whose task panicked shows a failure, with the panic's message.
pub proof fn law_panic_is_reported<D>(
    op: OperationModel<D>,
    as_str: Option<String>,
    as_string: Option<String>,
    now: int,
    end: int,
)
    ensures
        ({
            let outcome = TaskOutcome::Panicked { as_str, as_string };
            let data = DataModel::launched().started(now).ended(outcome.result(), end);
            let status = op.status(data);
            &&& status.status is Failed
            &&& status.result is None
            &&& status.error == Some(
                LegacyCode::Misc.error(
                    "Async operation panicked: "@ + panic_message_model(
                        crate::error::text_view(as_str),
                        crate::error::text_view(as_string),
                    ),
                ),
            )
        }),
{
}

/// The status of an operation whose task returned a value shows that value, no error, and the
/// whole seconds that the task ran.
pub proof fn law_success_is_reported<D>(op: OperationModel<D>, value: Value, now: int, end: int)
    ensures
        ({
            let outcome = TaskOutcome::Returned(value);
            let data = DataModel::launched().started(now).ended(outcome.result(), end);
            let status = op.status(data);
            &&& status.status is Success
            &&& status.result == Some(value)
            &&& status.error is None
            &&& status.execution_secs == Some(crate::time::whole_secs(end - now))
        }),
{
}

/// A status never shows both a result and an error, and shows the time that the task took only
/// beside a result.
pub proof fn law_status_has_no_result_beside_an_error<D>(op: OperationModel<D>, data: DataModel)
    ensures
        !(op.status(data).result is Some && op.status(data).error is Some),
        op.status(data).execution_secs is Some ==> op.status(data).result is Some,
{
}

/// Where the record of an operation is consistent, its status shows a result and the time it took
/// exactly if it has succeeded, and an error exactly if it has failed.
pub proof fn law_status_follows_the_state<D>(op: OperationModel<D>, data: DataModel)
    requires
        data.consistent(),
    ensures
        op.status(data).result is Some <==> data.state is Success,
        op.status(data).execution_secs is Some <==> data.state is Success,
        op.status(data).error is Some <==> data.state is Failed,
{
}

/// An operation that has just been launched is ready, and nothing else is recorded of it.
pub proof fn law_launched_operation_is_ready()
    ensures
        DataModel::launched().state is Ready,
        DataModel::launched().start_time is None,
        DataModel::launched().end_time is None,
        DataModel::launched().result is None,
{
}

/// An operation that was not cancelled is executing once its task starts, from that very time on,
/// and so it is not finished before the task ends. Nothing else changes in its record.
pub proof fn law_started_operation_is_executing(data: DataModel, now: int)
    requires
        !(data.state is Cancelled),
    ensures
        data.started(now).state is Executing,
        !data.started(now).state.finished(),
        data.started(now).start_time == Some(now),
        data.started(now).end_time == data.end_time,
        data.started(now).result == data.result,
{
}

/// The end of a task is recorded with its result and its time as they are, beside the start time
/// that was there. A result that is a value makes it a success, and an error a failure.
pub proof fn law_end_is_recorded_as_it_was(data: DataModel, result: ResultModel, end: int)
    ensures
        data.ended(result, end).start_time == data.start_time,
        data.ended(result, end).end_time == Some(end),
        data.ended(result, end).result == Some(result),
        result is Ok ==> data.ended(result, end).state is Success,
        result is Err ==> data.ended(result, end).state is Failed,
{
}

/// An operation whose task failed with an error is shown as failed, with the code, the message and
/// the data of that very error, whatever they are.
pub proof fn law_rejection_is_reported_as_it_was<D>(
    op: OperationModel<D>,
    error: RpcError,
    now: int,
    end: int,
)
    ensures
        ({
            let outcome = TaskOutcome::Rejected(error);
            let data = DataModel::launched().started(now).ended(outcome.result(), end);
            let status = op.status(data);
            &&& status.status is Failed
            &&& status.result is None
            &&& status.execution_secs is None
            &&& status.error matches Some(shown) && shown.code == error.code && shown.message
                == error.message@ && (match error.data {
                Some(data) => shown.data == Some(data@),
                None => shown.data is None,
            })
        }),
{
}

/// An operation whose result could not be turned into JSON is shown as failed, with the reason
/// in the message.
pub proof fn law_unserializable_result_is_reported<D>(
    op: OperationModel<D>,
    reason: String,
    now: int,
    end: int,
)
    ensures
        ({
            let outcome = TaskOutcome::Unserializable(reason);
            let data = DataModel::launched().started(now).ended(outcome.result(), end);
            let status = op.status(data);
            &&& status.status is Failed
            &&& status.result is None
            &&& status.error matches Some(shown) && shown.code == LegacyCode::Misc.number()
                && shown.message == "Failed to serialize operation result: "@ + reason@
                && shown.data is None
        }),
{
}

/// Different results of tasks are never recorded as the same one: a value stays apart from an
/// error, two values from each other, and two errors from each other.
pub proof fn law_outcomes_are_kept_apart(
    a: Value,
    b: Value,
    e: RpcError,
    f: RpcError,
)
    ensures
        TaskOutcome::Returned(a).result() == TaskOutcome::Returned(b).result() <==> a == b,
        TaskOutcome::Rejected(e).result() == TaskOutcome::Rejected(f).result() <==> e@ == f@,
        TaskOutcome::Returned(a).result() is Ok,
        TaskOutcome::Rejected(e).result() is Err,
{
}

/// The message of a panic is its payload, be it a `&str` or a `String`; a payload that is neither
/// is an unknown panic.
pub proof fn law_panic_message_is_the_payload(message: Seq<char>, other: Option<Seq<char>>)
    ensures
        panic_message_model(Some(message), other) == message,
        panic_message_model(None, Some(message)) == message,
        panic_message_model(None, None) == "unknown panic"@,
{
}

/// A task is named after the method that its operation was launched for, whatever the parameters
/// are.
pub proof fn law_task_is_named_after_the_method(context: ContextModel)
    ensures
        task_name_model(Some(context)) == context.method,
        task_name_model(None) == "AsyncOp"@,
{
}

/// Whatever is recorded of an operation, its status shows its ID, the state that is recorded, and
/// the method and the parameters of its context, or neither if it has none.
pub proof fn law_status_shows_the_operation<D>(op: OperationModel<D>, data: DataModel)
    ensures
        op.status(data).id == op.id,
        op.status(data).status == data.state,
        op.context matches Some(context) ==> op.status(data).method == Some(context.method)
            && op.status(data).params == Some(context.params),
        op.context is None ==> op.status(data).method is None && op.status(data).params is None,
{
}

/// What a status shows of the operation itself does not change while the operation runs.
pub proof fn law_status_of_one_operation_agrees<D>(
    op: OperationModel<D>,
    earlier: DataModel,
    later: DataModel,
)
    ensures
        op.status(earlier).id == op.status(later).id,
        op.status(earlier).method == op.status(later).method,
        op.status(earlier).params == op.status(later).params,
        op.status(earlier).creation_time == op.status(later).creation_time,
{
}

/// The creation time in a status is the whole seconds from the Unix epoch to the launch; a launch
/// before the epoch shows as 0.
pub proof fn law_status_shows_the_creation_time<D>(op: OperationModel<D>, data: DataModel)
    ensures
        op.creation_time >= 0 ==> op.status(data).creation_time * 1_000_000_000
            <= op.creation_time < (op.status(data).creation_time + 1) * 1_000_000_000,
        op.creation_time < 0 ==> op.status(data).creation_time == 0,
{
    crate::time::law_whole_seconds_fill_the_span(op.creation_time);
}

/// The execution time in a status is the whole seconds from the start to the end of the task, 0 if
/// the clock went back. It is shown for a value with both times known, and for nothing else.
pub proof fn law_status_shows_the_execution_time<D>(op: OperationModel<D>, data: DataModel)
    ensures
        op.status(data).execution_secs is Some <==> ((data.result matches Some(Ok(_)))
            && data.start_time is Some && data.end_time is Some),
        op.status(data).execution_secs matches Some(secs) ==> {
            let start = data.start_time->0;
            let end = data.end_time->0;
            &&& end >= start ==> start + secs * 1_000_000_000 <= end < start + (secs + 1)
                * 1_000_000_000
            &&& end < start ==> secs == 0
        },
{
    if data.start_time is Some && data.end_time is Some {
        crate::time::law_whole_seconds_fill_the_span(data.end_time->0 - data.start_time->0);
    }
}

/// A status shows the recorded value or the recorded error as it is, in its own place, and neither
/// while there is no result.
pub proof fn law_status_shows_the_recorded_result<D>(op: OperationModel<D>, data: DataModel)
    ensures
        data.result matches Some(Ok(value)) ==> op.status(data).result == Some(value) && op.status(
            data,
        ).error is None,
        data.result matches Some(Err(error)) ==> op.status(data).error == Some(error) && op.status(
            data,
        ).result is None,
        data.result is None ==> op.status(data).result is None && op.status(data).error is None,
{
}

/// The views of contexts, results and times lose nothing of what they stand for.
pub proof fn law_part_views_are_faithful(
    context: ContextInfo,
    value: Value,
    error: RpcError,
    time: Timestamp,
)
    ensures
        context@.method == context.method@,
        context@.params == context.params,
        context_view(Some(context)) == Some(context@),
        context_view(None) is None,
        result_view(Ok(value)) == Ok::<Value, ErrorModel>(value),
        result_view(Err(error)) == Err::<Value, ErrorModel>(error@),
        optional_result_view(Some(Ok(value))) == Some(Ok::<Value, ErrorModel>(value)),
        optional_result_view(Some(Err(error))) == Some(Err::<Value, ErrorModel>(error@)),
        optional_result_view(None) is None,
        time_view(Some(time)) == Some(time@),
        time_view(None) is None,
{
}

/// The views of operations and their records lose nothing of what they stand for.
pub proof fn law_operation_views_are_faithful<D>(op: AsyncOperation<D>, data: OperationData)
    ensures
        op@.id == op.operation_id@,
        op@.creation_time == op.creation_time@,
        op@.data == op.data,
        op@.context is Some <==> op.context is Some,
        op.context matches Some(context) ==> op@.context == Some(context@),
        data@.state == data.state,
        data@.start_time is Some <==> data.start_time is Some,
        data.start_time matches Some(time) ==> data@.start_time == Some(time@),
        data@.end_time is Some <==> data.end_time is Some,
        data.end_time matches Some(time) ==> data@.end_time == Some(time@),
        data@.result is Some <==> data.result is Some,
        data.result matches Some(Ok(value)) ==> data@.result == Some(
            Ok::<Value, ErrorModel>(value),
        ),
        data.result matches Some(Err(error)) ==> data@.result == Some(
            Err::<Value, ErrorModel>(error@),
        ),
{
}

/// The view of a status loses nothing of what it stands for.
pub proof fn law_status_view_is_faithful(status: OperationStatus, error: OperationError)
    ensures
        error@.code == error.code,
        error@.message == error.message@,
        error@.data is Some <==> error.data is Some,
        error.data matches Some(data) ==> error@.data == Some(data@),
        status@.id == status.id@,
        status@.status == status.status,
        status@.params == status.params,
        status@.result == status.result,
        status@.creation_time == status.creation_time,
        status@.method is Some <==> status.method is Some,
        status.method matches Some(method) ==> status@.method == Some(method@),
        status@.error is Some <==> status.error is Some,
        status.error matches Some(error) ==> status@.error == Some(error@),
        status@.execution_secs is Some <==> status.execution_secs is Some,
        status.execution_secs matches Some(secs) ==> status@.execution_secs == Some(secs as int),
{
}

} // verus!
