use cosmic_grackle::contact_store::{
    contact_from_record, format_postal_address, none_if_empty, parse_contact_type,
    BirthdayComponents, ContactKind, ContactRecord, PostalAddressData, PostalFields,
    NS_DATE_COMPONENT_UNDEFINED,
};

fn record() -> ContactRecord {
    ContactRecord {
        identifier: "ABC-1".into(),
        is_organization: false,
        name_prefix: String::new(),
        given_name: "Ada".into(),
        middle_name: String::new(),
        family_name: "Lovelace".into(),
        name_suffix: String::new(),
        nickname: String::new(),
        organization_name: String::new(),
        department_name: String::new(),
        job_title: String::new(),
        phonetic_given_name: String::new(),
        phonetic_middle_name: String::new(),
        phonetic_family_name: String::new(),
        phonetic_organization_name: String::new(),
        emails: vec![],
        phones: vec![],
        urls: vec![],
        postal_addresses: vec![],
        birthday: None,
    }
}

#[test]
fn none_if_empty_converts_empty_to_none() {
    assert_eq!(none_if_empty(String::new()), None);
    assert_eq!(none_if_empty("x".into()), Some("x".into()));
}

#[test]
fn postal_address_data_is_empty_detects_all_none() {
    let empty = PostalAddressData::default();
    assert!(empty.is_empty());
    let populated = PostalAddressData {
        street: Some("123 Main".into()),
        ..Default::default()
    };
    assert!(!populated.is_empty());
}

#[test]
fn postal_address_joins_non_empty_parts() {
    let addr = PostalFields {
        street: "123 Main".into(),
        city: String::new(),
        state: "CA".into(),
        postal_code: "94000".into(),
        country: String::new(),
    };
    assert_eq!(format_postal_address(&addr), "123 Main, CA, 94000");
    let only_country = PostalFields { country: "UK".into(), ..Default::default() };
    assert_eq!(format_postal_address(&only_country), "UK");
    assert_eq!(format_postal_address(&PostalFields::default()), "");
}

#[test]
fn full_name_uses_first_and_last_name() {
    let c = contact_from_record(record());
    assert_eq!(c.full_name, "Ada Lovelace");
    assert_eq!(c.first_name, "Ada");
    assert_eq!(c.last_name, "Lovelace");
    assert_eq!(c.contact_type, "person");
    assert_eq!(c.id, "ABC-1");
}

#[test]
fn full_name_falls_back_to_one_name_then_organization() {
    let mut r = record();
    r.family_name = String::new();
    assert_eq!(contact_from_record(r).full_name, "Ada");
    let mut r = record();
    r.given_name = String::new();
    assert_eq!(contact_from_record(r).full_name, "Lovelace");
    let mut r = record();
    r.given_name = String::new();
    r.family_name = String::new();
    r.organization_name = "Analytical Engine Co.".into();
    r.is_organization = true;
    let c = contact_from_record(r);
    assert_eq!(c.full_name, "Analytical Engine Co.");
    assert_eq!(c.contact_type, "organization");
    assert_eq!(c.organization.as_deref(), Some("Analytical Engine Co."));
}

#[test]
fn empty_fields_become_none_and_note_is_never_read() {
    let mut r = record();
    r.nickname = "Ada".into();
    r.job_title = "Mathematician".into();
    let c = contact_from_record(r);
    assert_eq!(c.nickname.as_deref(), Some("Ada"));
    assert_eq!(c.job_title.as_deref(), Some("Mathematician"));
    assert!(c.name_prefix.is_none());
    assert!(c.middle_name.is_none());
    assert!(c.department.is_none());
    assert!(c.phonetic_given_name.is_none());
    assert!(c.organization.is_none());
    assert!(c.note.is_none());
    assert!(c.birthday.is_none());
}

#[test]
fn lists_and_birthday_are_carried_over() {
    let mut r = record();
    r.emails = vec!["ada@example.org".into(), "ada@work.example".into()];
    r.phones = vec!["+1-555-0100".into()];
    r.urls = vec!["https://example.org".into()];
    r.postal_addresses = vec![
        PostalFields { street: "1 Main".into(), city: "Town".into(), ..Default::default() },
        PostalFields::default(),
    ];
    r.birthday = Some(BirthdayComponents { year: 1815, month: 12, day: 10 });
    let c = contact_from_record(r);
    assert_eq!(c.emails, vec!["ada@example.org".to_string(), "ada@work.example".to_string()]);
    assert_eq!(c.phones, vec!["+1-555-0100".to_string()]);
    assert_eq!(c.urls, vec!["https://example.org".to_string()]);
    assert_eq!(c.addresses, vec!["1 Main, Town".to_string(), String::new()]);
    assert_eq!(c.birthday.as_deref(), Some("1815-12-10"));
}

#[test]
fn birthday_without_year_is_shown_without_year() {
    let mut r = record();
    r.birthday = Some(BirthdayComponents { year: NS_DATE_COMPONENT_UNDEFINED, month: 6, day: 5 });
    assert_eq!(contact_from_record(r).birthday.as_deref(), Some("--06-05"));
}

#[test]
fn contact_type_shown_reads_back() {
    let mut r = record();
    r.is_organization = true;
    let shown = contact_from_record(r).contact_type;
    assert_eq!(parse_contact_type(&shown).unwrap(), ContactKind::Organization);
    let shown = contact_from_record(record()).contact_type;
    assert_eq!(parse_contact_type(&shown).unwrap(), ContactKind::Person);
}
