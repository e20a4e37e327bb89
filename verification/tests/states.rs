use asyncop::OperationState;

const STATES: [(OperationState, &str, bool); 5] = [
    (OperationState::Ready, "queued", false),
    (OperationState::Executing, "executing", false),
    (OperationState::Cancelled, "cancelled", true),
    (OperationState::Failed, "failed", true),
    (OperationState::Success, "success", true),
];

#[test]
fn states_are_parsed_from_their_names() {
    for (state, name, _) in STATES {
        assert_eq!(OperationState::parse(name), Some(state));
    }
}

#[test]
fn states_convert_into_their_names() {
    for (state, name, _) in STATES {
        let text: &'static str = state.into();
        assert_eq!(text, name);
        assert_eq!(OperationState::parse(text), Some(state));
    }
}

#[test]
fn other_names_are_not_parsed() {
    for name in ["", "ready", "Queued", "queued ", "queue", "successful", "done"] {
        assert_eq!(OperationState::parse(name), None);
    }
}

#[test]
fn finished_states_are_told_apart() {
    for (state, _, finished) in STATES {
        assert_eq!(state.is_finished(), finished);
    }
}
