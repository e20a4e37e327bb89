use asyncop::{LegacyCode, OperationId};

const UUID: &str = "67e55044-10b1-426f-9247-bb680e5fe0c8";

fn parse(text: &str) -> Result<OperationId, asyncop::RpcError> {
    OperationId::try_from(text.to_string())
}

fn assert_rejected(text: &str) {
    let error = parse(text).expect_err("not an operation ID");
    assert_eq!(error.code, LegacyCode::InvalidParameter.code());
    assert_eq!(error.code, -8);
    assert_eq!(error.message, "Invalid operation ID");
    assert!(error.data.is_none());
}

#[test]
fn new_ids_are_prefixed_random_uuids() {
    for _ in 0..50 {
        let id = OperationId::new();
        let text = id.as_str();
        assert_eq!(text.len(), 41);
        let uuid = text.strip_prefix("opid-").expect("prefix");
        for (i, c) in uuid.chars().enumerate() {
            match i {
                8 | 13 | 18 | 23 => assert_eq!(c, '-'),
                14 => assert_eq!(c, '4'),
                19 => assert!("89ab".contains(c)),
                _ => assert!(matches!(c, '0'..='9' | 'a'..='f')),
            }
        }
    }
}

#[test]
fn new_ids_are_read_back() {
    let id = OperationId::new();
    let read = parse(id.as_str()).expect("a new ID is valid");
    assert_eq!(read, id);
    assert_eq!(read.as_str(), id.as_str());
}

#[test]
fn new_ids_differ() {
    assert_ne!(OperationId::new(), OperationId::new());
}

#[test]
fn clones_are_equal() {
    let id = OperationId::new();
    assert_eq!(id.clone(), id);
}

#[test]
fn every_textual_form_of_a_uuid_is_accepted() {
    for uuid in [
        UUID,
        "67E55044-10B1-426F-9247-BB680E5FE0C8",
        "67e5504410b1426f9247bb680e5fe0c8",
        "{67e55044-10b1-426f-9247-bb680e5fe0c8}",
        "urn:uuid:67e55044-10b1-426f-9247-bb680e5fe0c8",
        "URN:Uuid:67e55044-10b1-426f-9247-bb680e5fe0c8",
        "00000000-0000-0000-0000-000000000000",
    ] {
        let text = format!("opid-{uuid}");
        let id = parse(&text).expect("an operation ID");
        assert_eq!(id.as_str(), text);
    }
}

#[test]
fn ids_without_the_prefix_are_rejected() {
    assert_rejected("");
    assert_rejected(UUID);
    assert_rejected("opid");
    assert_rejected(&format!("OPID-{UUID}"));
    assert_rejected(&format!(" opid-{UUID}"));
    assert_rejected(&format!("opid{UUID}"));
}

#[test]
fn ids_without_a_uuid_are_rejected() {
    assert_rejected("opid-");
    assert_rejected("opid-x");
    assert_rejected(&format!("opid-{UUID} "));
    assert_rejected(&format!("opid-opid-{UUID}"));
    assert_rejected("opid-67e55044-10b1-426f-9247-bb680e5fe0c");
    assert_rejected("opid-67e55044-10b1-426f-9247-bb680e5fe0cg");
    assert_rejected("opid-67e5504-410b1-426f-9247-bb680e5fe0c8");
    assert_rejected("opid-{67e5504410b1426f9247bb680e5fe0c8}");
    assert_rejected("opid-{67e55044-10b1-426f-9247-bb680e5fe0c8)");
    assert_rejected("opid-urn-uuid:67e55044-10b1-426f-9247-bb680e5fe0c8");
    // As many bytes as a hyphenated UUID, though fewer characters.
    assert_rejected("opid-\u{e9}e55044-10b1-426f-9247-bb680e5fe0c8");
}
