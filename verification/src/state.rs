//! The states of an async operation and their names on the wire.

use vstd::prelude::*;

use crate::text::same_text;

verus! {

/// The possible states that an async operation can be in.
#[derive(Clone, Copy, Debug, PartialEq, Eq, Structural)]
pub enum OperationState {
    Ready,
    Executing,
    Cancelled,
    Failed,
    Success,
}

impl OperationState {
    /// The name under which this state is shown to RPC callers.
    pub open spec fn name(self) -> Seq<char> {
        match self {
            OperationState::Ready => "queued"@,
            OperationState::Executing => "executing"@,
            OperationState::Cancelled => "cancelled"@,
            OperationState::Failed => "failed"@,
            OperationState::Success => "success"@,
        }
    }

    /// Whether an operation in this state is over, with or without a result.
    pub open spec fn finished(self) -> bool {
        self is Cancelled || self is Failed || self is Success
    }

    /// Finds the state that has the given name, if there is one.
    pub fn parse(s: &str) -> (state: Option<Self>)
        ensures
            match state {
                Some(state) => state.name() == s@,
                None => forall|state: OperationState| #[trigger] state.name() != s@,
            },
    {
        if same_text(s, "queued") {
            Some(Self::Ready)
        } else if same_text(s, "executing") {
            Some(Self::Executing)
        } else if same_text(s, "cancelled") {
            Some(Self::Cancelled)
        } else if same_text(s, "failed") {
            Some(Self::Failed)
        } else if same_text(s, "success") {
            Some(Self::Success)
        } else {
            None
        }
    }

    /// Returns whether an operation in this state has finished executing.
    pub fn is_finished(self) -> (finished: bool)
        ensures
            finished == self.finished(),
    {
        matches!(self, Self::Cancelled | Self::Failed | Self::Success)
    }
}

impl From<OperationState> for &'static str {
    fn from(value: OperationState) -> (name: Self) {
        match value {
            OperationState::Ready => "queued",
            OperationState::Executing => "executing",
            OperationState::Cancelled => "cancelled",
            OperationState::Failed => "failed",
            OperationState::Success => "success",
        }
    }
}

impl vstd::std_specs::convert::FromSpecImpl<OperationState> for &'static str {
    open spec fn obeys_from_spec() -> bool {
        true
    }

    open spec fn from_spec(value: OperationState) -> Self {
        match value {
            OperationState::Ready => "queued",
            OperationState::Executing => "executing",
            OperationState::Cancelled => "cancelled",
            OperationState::Failed => "failed",
            OperationState::Success => "success",
        }
    }
}

/// No two states share a name, so a name read back gives the state it was written for.
pub proof fn law_names_are_distinct(a: OperationState, b: OperationState)
    ensures
        a.name() == b.name() <==> a == b,
{
    reveal_strlit("queued");
    reveal_strlit("executing");
    reveal_strlit("cancelled");
    reveal_strlit("failed");
    reveal_strlit("success");
    if a != b && a.name() == b.name() {
        assert(a.name().len() == b.name().len());
        assert(a.name()[0] == b.name()[0]);
    }
}

/// The text that a state converts into is its name.
pub proof fn law_conversion_gives_the_name(state: OperationState)
    ensures
        <&'static str as vstd::std_specs::convert::FromSpec<OperationState>>::obeys_from_spec(),
        <&'static str as vstd::std_specs::convert::FromSpec<OperationState>>::from_spec(state)@
            == state.name(),
{
}

/// An operation is unfinished exactly while it waits to run or runs.
pub proof fn law_unfinished_is_ready_or_executing(state: OperationState)
    ensures
        !state.finished() <==> (state is Ready || state is Executing),
{
}

} // verus!
