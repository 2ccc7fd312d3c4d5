use cosmic_grackle::error::ContactsError;

#[test]
fn display_formats_include_details() {
    assert_eq!(
        ContactsError::ContactNotFound("abc-123".into()).to_string(),
        "contact not found: abc-123"
    );
    assert_eq!(
        ContactsError::GroupNotFound("Family".into()).to_string(),
        "group not found: Family"
    );
    assert_eq!(
        ContactsError::AccessDenied.to_string(),
        "contacts access denied"
    );
}

#[test]
fn every_error_variant_has_its_prefix() {
    assert_eq!(
        ContactsError::InvalidInput("bad".into()).to_string(),
        "invalid input: bad"
    );
    assert_eq!(
        ContactsError::OperationFailed("boom".into()).to_string(),
        "operation failed: boom"
    );
    assert_eq!(
        ContactsError::ObjcError("oops".into()).to_string(),
        "objective-c error: oops"
    );
    assert_eq!(
        ContactsError::ChannelError("gone".into()).to_string(),
        "internal channel error: gone"
    );
}

#[test]
fn error_text_keeps_non_ascii_details() {
    assert_eq!(
        ContactsError::ContactNotFound("Zoë-ß".into()).to_string(),
        "contact not found: Zoë-ß"
    );
}
