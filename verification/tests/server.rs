use cosmic_grackle::contact_store::{EmailOp, PhoneOp, PostalAddressData, PostalOp, UrlOp};
use cosmic_grackle::server::{
    check_len, check_opt_len, validate_create, validate_update, ContactsCreateInput,
    ContactsUpdateInput, ParamError, MAX_BIRTHDAY_LEN, MAX_CONTACT_TYPE_LEN, MAX_DEPARTMENT_LEN,
    MAX_EMAIL_LEN, MAX_ID_LEN, MAX_NAME_LEN, MAX_NOTE_LEN, MAX_POSTAL_PART_LEN,
    MAX_URL_LEN,
};

#[test]
fn check_len_accepts_value_under_limit() {
    assert!(check_len("field", "hello", 10).is_ok());
}

#[test]
fn check_len_accepts_value_at_limit() {
    assert!(check_len("field", "hello", 5).is_ok());
}

#[test]
fn check_len_rejects_value_over_limit() {
    let err = check_len("field", "hello!", 5).unwrap_err();
    assert!(err.to_string().contains("field"));
    assert!(err.to_string().contains("too long"));
}

#[test]
fn check_opt_len_accepts_none() {
    assert!(check_opt_len("field", None, 5).is_ok());
}

#[test]
fn check_opt_len_rejects_oversized_some() {
    let v = "x".repeat(20);
    assert!(check_opt_len("field", Some(&v), 5).is_err());
}

#[test]
fn check_len_message_gives_length_and_cap() {
    let err = check_len("query", &"q".repeat(1234), 256).unwrap_err();
    assert_eq!(err.to_string(), "query too long (1234 bytes, max 256)");
    assert_eq!(
        err,
        ParamError::TooLong { field: "query".into(), len: 1234, max: 256 }
    );
}

#[test]
fn check_len_counts_bytes_not_characters() {
    // Four characters, eight bytes.
    let v = "éééé";
    assert!(check_len("name", v, 8).is_ok());
    let err = check_len("name", v, 7).unwrap_err();
    assert_eq!(err.to_string(), "name too long (8 bytes, max 7)");
}

#[test]
fn check_len_message_for_zero_cap() {
    let err = check_len("id", "a", 0).unwrap_err();
    assert_eq!(err.to_string(), "id too long (1 bytes, max 0)");
}

#[test]
fn limits_are_not_below_their_floors() {
    assert!(MAX_EMAIL_LEN >= 320);
    assert!(MAX_NAME_LEN >= 64);
    assert!(MAX_NOTE_LEN >= 1024);
}

fn empty_create() -> ContactsCreateInput {
    ContactsCreateInput::default()
}

#[test]
fn create_without_any_name_is_refused() {
    let mut input = empty_create();
    input.email = Some("ada@example.org".into());
    input.note = Some("n".repeat(5000));
    let err = validate_create(input).unwrap_err();
    assert_eq!(err, ParamError::MissingName);
    assert_eq!(
        err.to_string(),
        "At least one of first_name, last_name, or organization is required"
    );
}

#[test]
fn create_with_only_an_organization_is_accepted() {
    let mut input = empty_create();
    input.organization = Some("Analytical Engine Co.".into());
    let params = validate_create(input).unwrap();
    assert_eq!(params.organization.as_deref(), Some("Analytical Engine Co."));
    assert!(params.first_name.is_none());
    assert!(params.postal_address.is_none());
}

#[test]
fn create_reports_the_first_field_over_its_cap() {
    let mut input = empty_create();
    input.first_name = Some("Ada".into());
    input.phone = Some("1".repeat(65));
    input.note = Some("n".repeat(5000));
    let err = validate_create(input).unwrap_err();
    assert_eq!(err.to_string(), "phone too long (65 bytes, max 64)");
}

#[test]
fn create_checks_every_documented_cap() {
    let cases: Vec<(&str, usize, fn(&mut ContactsCreateInput, String))> = vec![
        ("name_prefix", MAX_NAME_LEN, |i, v| i.name_prefix = Some(v)),
        ("middle_name", MAX_NAME_LEN, |i, v| i.middle_name = Some(v)),
        ("nickname", MAX_NAME_LEN, |i, v| i.nickname = Some(v)),
        ("phonetic_family_name", MAX_NAME_LEN, |i, v| i.phonetic_family_name = Some(v)),
        ("url", MAX_URL_LEN, |i, v| i.url = Some(v)),
        ("department", MAX_DEPARTMENT_LEN, |i, v| i.department = Some(v)),
        ("birthday", MAX_BIRTHDAY_LEN, |i, v| i.birthday = Some(v)),
        ("contact_type", MAX_CONTACT_TYPE_LEN, |i, v| i.contact_type = Some(v)),
        ("postal_address.city", MAX_POSTAL_PART_LEN, |i, v| {
            i.postal_address = Some(PostalAddressData { city: Some(v), ..Default::default() })
        }),
        ("postal_address.country", MAX_POSTAL_PART_LEN, |i, v| {
            i.postal_address = Some(PostalAddressData { country: Some(v), ..Default::default() })
        }),
    ];
    for (field, cap, set) in cases {
        let mut at_cap = empty_create();
        at_cap.last_name = Some("Lovelace".into());
        set(&mut at_cap, "a".repeat(cap));
        assert!(validate_create(at_cap).is_ok(), "{field}");
        let mut over = empty_create();
        over.last_name = Some("Lovelace".into());
        set(&mut over, "a".repeat(cap + 1));
        let err = validate_create(over).unwrap_err();
        assert_eq!(
            err,
            ParamError::TooLong { field: field.to_string(), len: cap + 1, max: cap }
        );
    }
    assert_eq!(
        (MAX_URL_LEN, MAX_DEPARTMENT_LEN, MAX_BIRTHDAY_LEN, MAX_CONTACT_TYPE_LEN, MAX_POSTAL_PART_LEN),
        (2048, 256, 32, 32, 512)
    );
}

#[test]
fn create_copies_the_given_fields() {
    let input = ContactsCreateInput {
        first_name: Some("Ada".into()),
        last_name: Some("Lovelace".into()),
        email: Some("ada@example.org".into()),
        phone: Some("+1-555-0100".into()),
        url: Some("https://example.org".into()),
        organization: Some("Analytical Engine Co.".into()),
        department: Some("Engines".into()),
        job_title: Some("Mathematician".into()),
        note: Some("inventor of the algorithm".into()),
        birthday: Some("1815-12-10".into()),
        postal_address: Some(PostalAddressData {
            city: Some("London".into()),
            ..Default::default()
        }),
        ..Default::default()
    };
    let p = validate_create(input).unwrap();
    assert_eq!(p.first_name.as_deref(), Some("Ada"));
    assert_eq!(p.last_name.as_deref(), Some("Lovelace"));
    assert_eq!(p.email.as_deref(), Some("ada@example.org"));
    assert_eq!(p.phone.as_deref(), Some("+1-555-0100"));
    assert_eq!(p.url.as_deref(), Some("https://example.org"));
    assert_eq!(p.department.as_deref(), Some("Engines"));
    assert_eq!(p.job_title.as_deref(), Some("Mathematician"));
    assert_eq!(p.note.as_deref(), Some("inventor of the algorithm"));
    assert_eq!(p.birthday.as_deref(), Some("1815-12-10"));
    assert_eq!(p.postal_address.unwrap().city.as_deref(), Some("London"));
    assert!(p.contact_type.is_none());
}

#[test]
fn update_checks_the_id_first() {
    let input = ContactsUpdateInput {
        id: "i".repeat(MAX_ID_LEN + 1),
        first_name: Some("f".repeat(300)),
        ..Default::default()
    };
    let err = validate_update(input).unwrap_err();
    assert_eq!(err.to_string(), "id too long (257 bytes, max 256)");
}

#[test]
fn update_checks_the_pairs() {
    let input = ContactsUpdateInput {
        id: "abc".into(),
        url_to: Some("u".repeat(MAX_URL_LEN + 1)),
        ..Default::default()
    };
    assert_eq!(validate_update(input).unwrap_err().to_string(), "url_to too long (2049 bytes, max 2048)");
    let long_line = "p".repeat(10_000);
    let input = ContactsUpdateInput {
        id: "abc".into(),
        postal_from: Some(long_line.clone()),
        ..Default::default()
    };
    let p = validate_update(input).unwrap();
    assert!(matches!(p.postal_op, Some(PostalOp::Remove(ref f)) if *f == long_line));
    let input = ContactsUpdateInput {
        id: "abc".into(),
        postal_to: Some(PostalAddressData { street: Some("s".repeat(513)), ..Default::default() }),
        ..Default::default()
    };
    assert_eq!(
        validate_update(input).unwrap_err().to_string(),
        "postal_to.street too long (513 bytes, max 512)"
    );
}

#[test]
fn update_copies_the_given_fields() {
    let input = ContactsUpdateInput {
        id: "abc".into(),
        last_name: Some("Byron".into()),
        note: Some("poet's daughter".into()),
        ..Default::default()
    };
    let p = validate_update(input).unwrap();
    assert_eq!(p.id, "abc");
    assert_eq!(p.last_name.as_deref(), Some("Byron"));
    assert_eq!(p.note.as_deref(), Some("poet's daughter"));
    assert!(p.first_name.is_none());
    assert!(p.phone_op.is_none());
}

#[test]
fn update_turns_pairs_into_changes() {
    let input = ContactsUpdateInput {
        id: "abc".into(),
        phone_to: Some("555".into()),
        email_from: Some("a@x".into()),
        url_from: Some("https://a".into()),
        url_to: Some("https://b".into()),
        postal_from: Some("1 Main, Town".into()),
        ..Default::default()
    };
    let p = validate_update(input).unwrap();
    assert!(matches!(p.phone_op, Some(PhoneOp::Add(ref t)) if t == "555"));
    assert!(matches!(p.email_op, Some(EmailOp::Remove(ref f)) if f == "a@x"));
    assert!(matches!(p.url_op, Some(UrlOp::Replace { ref from, ref to }) if from == "https://a" && to == "https://b"));
    assert!(matches!(p.postal_op, Some(PostalOp::Remove(ref f)) if f == "1 Main, Town"));
}
