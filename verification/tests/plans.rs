use cosmic_grackle::contact_store::edits::{Entry, ListEdit, PlannedEdit, POSTAL_LABEL};
use cosmic_grackle::contact_store::plans::{
    address_lines, plan_create, plan_update, ExistingValues, PostalEntry,
};
use cosmic_grackle::contact_store::{
    contact_from_record, BirthdayComponents, ContactKind, ContactRecord, ContactsCreateParams,
    ContactsUpdateParams, EmailOp, PhoneOp,
    PostalAddressData, PostalFields, PostalOp, UrlOp,
};

#[test]
fn create_reads_contact_type_and_birthday() {
    let params = ContactsCreateParams {
        first_name: Some("Ada".into()),
        contact_type: Some("organization".into()),
        birthday: Some("--12-10".into()),
        email: Some("ada@example.org".into()),
        ..Default::default()
    };
    let plan = plan_create(&params).unwrap();
    assert_eq!(plan.fields.contact_type, Some(ContactKind::Organization));
    assert_eq!(plan.fields.birthday.unwrap().month(), 12);
    assert_eq!(plan.fields.fields.first_name.map(|s| s.as_str()), Some("Ada"));
    assert_eq!(plan.email.map(|s| s.as_str()), Some("ada@example.org"));
    assert!(plan.phone.is_none());
    assert_eq!(POSTAL_LABEL, "home");
}

#[test]
fn create_drops_a_postal_address_without_parts() {
    let params = ContactsCreateParams {
        first_name: Some("Ada".into()),
        postal_address: Some(PostalAddressData::default()),
        ..Default::default()
    };
    assert!(plan_create(&params).unwrap().postal_address.is_none());
    let params = ContactsCreateParams {
        postal_address: Some(PostalAddressData { city: Some("London".into()), ..Default::default() }),
        ..Default::default()
    };
    assert!(plan_create(&params).unwrap().postal_address.is_some());
}

#[test]
fn create_reports_a_bad_contact_type_before_a_bad_birthday() {
    let params = ContactsCreateParams {
        contact_type: Some("robot".into()),
        birthday: Some("never".into()),
        ..Default::default()
    };
    let err = plan_create(&params).err().unwrap();
    assert!(err.to_string().contains("contact_type"));
    let params = ContactsCreateParams { birthday: Some("never".into()), ..Default::default() };
    let err = plan_create(&params).err().unwrap();
    assert!(err.to_string().contains("birthday"));
}

fn entry(label: &str, value: &str) -> Entry {
    Entry { label: Some(label.into()), value: value.into() }
}

fn existing() -> ExistingValues {
    ExistingValues {
        phones: vec![entry("mobile", "555-0100")],
        emails: vec![entry("home", "a@x"), entry("school", "b@x")],
        urls: vec![],
        postal_addresses: vec![PostalEntry {
            label: Some("work".into()),
            address: PostalFields { street: "1 Main".into(), city: "Town".into(), ..Default::default() },
        }],
    }
}

#[test]
fn update_plans_every_requested_change() {
    let params = ContactsUpdateParams {
        id: "c-1".into(),
        birthday: Some("1815-12-10".into()),
        phone_op: Some(PhoneOp::Replace { from: "555-0100".into(), to: "555-0199".into() }),
        email_op: Some(EmailOp::Remove("b@x".into())),
        url_op: Some(UrlOp::Add("https://example.org".into())),
        postal_op: Some(PostalOp::Remove("1 Main, Town".into())),
        ..Default::default()
    };
    let ex = existing();
    let plan = plan_update(&params, &ex, true).unwrap();
    assert_eq!(plan.fields.birthday, Some(BirthdayComponents { year: 1815, month: 12, day: 10 }));
    assert_eq!(
        plan.phone,
        Some(PlannedEdit { edit: ListEdit::ReplaceAt(0), label: Some("mobile".into()) })
    );
    assert_eq!(plan.email, Some(PlannedEdit { edit: ListEdit::RemoveAt(1), label: None }));
    assert_eq!(
        plan.url,
        Some(PlannedEdit { edit: ListEdit::Append, label: Some("homepage".into()) })
    );
    assert_eq!(plan.postal, Some(PlannedEdit { edit: ListEdit::RemoveAt(0), label: None }));
}

#[test]
fn update_reports_the_first_failing_change() {
    let params = ContactsUpdateParams {
        id: "c-1".into(),
        email_op: Some(EmailOp::Remove("missing@x".into())),
        url_op: Some(UrlOp::Remove("missing".into())),
        ..Default::default()
    };
    let ex = existing();
    let err = plan_update(&params, &ex, true).err().unwrap();
    assert_eq!(
        err.to_string(),
        "invalid input: email 'missing@x' not found on contact c-1"
    );
    let params = ContactsUpdateParams {
        id: "c-1".into(),
        contact_type: Some("Person".into()),
        email_op: Some(EmailOp::Remove("missing@x".into())),
        ..Default::default()
    };
    let err = plan_update(&params, &ex, true).err().unwrap();
    assert!(err.to_string().contains("contact_type"));
}

#[test]
fn update_with_refused_phone_fails() {
    let params = ContactsUpdateParams {
        id: "c-1".into(),
        phone_op: Some(PhoneOp::Add("not a number".into())),
        ..Default::default()
    };
    let err = plan_update(&params, &existing(), false).err().unwrap();
    assert_eq!(err.to_string(), "invalid input: invalid phone number: not a number");
}

#[test]
fn update_without_changes_plans_nothing() {
    let params = ContactsUpdateParams { id: "c-1".into(), ..Default::default() };
    let plan = plan_update(&params, &existing(), true).unwrap();
    assert!(plan.phone.is_none() && plan.email.is_none() && plan.url.is_none());
    assert!(plan.postal.is_none());
    assert!(plan.fields.contact_type.is_none() && plan.fields.birthday.is_none());
}

#[test]
fn update_replaces_an_address_under_its_own_label() {
    let params = ContactsUpdateParams {
        id: "c-1".into(),
        postal_op: Some(PostalOp::Replace {
            from: "1 Main, Town".into(),
            to: PostalAddressData { city: Some("City".into()), ..Default::default() },
        }),
        ..Default::default()
    };
    let plan = plan_update(&params, &existing(), true).unwrap();
    assert_eq!(
        plan.postal,
        Some(PlannedEdit { edit: ListEdit::ReplaceAt(0), label: Some("work".into()) })
    );
    let lines = address_lines(&existing().postal_addresses);
    assert_eq!(lines, vec![entry("work", "1 Main, Town")]);
}

#[test]
fn created_contact_reads_back_as_asked() {
    let params = ContactsCreateParams {
        first_name: Some("Ada".into()),
        last_name: Some("Lovelace".into()),
        email: Some("ada@example.org".into()),
        note: Some("n".into()),
        birthday: Some("--12-10".into()),
        nickname: Some(String::new()),
        postal_address: Some(PostalAddressData {
            street: Some("12 St. James's Square".into()),
            city: Some("London".into()),
            state: Some(String::new()),
            country: Some("UK".into()),
            ..Default::default()
        }),
        ..Default::default()
    };
    let plan = plan_create(&params).unwrap();
    let part = |v: &Option<String>| v.clone().unwrap_or_default();
    let text = |v: Option<&String>| v.cloned().unwrap_or_default();
    let f = &plan.fields.fields;
    let rec = ContactRecord {
        identifier: "new-1".into(),
        is_organization: plan.fields.contact_type == Some(ContactKind::Organization),
        name_prefix: text(f.name_prefix),
        given_name: text(f.first_name),
        middle_name: text(f.middle_name),
        family_name: text(f.last_name),
        name_suffix: text(f.name_suffix),
        nickname: text(f.nickname),
        organization_name: text(f.organization),
        department_name: text(f.department),
        job_title: text(f.job_title),
        phonetic_given_name: text(f.phonetic_given_name),
        phonetic_middle_name: text(f.phonetic_middle_name),
        phonetic_family_name: text(f.phonetic_family_name),
        phonetic_organization_name: text(f.phonetic_organization_name),
        emails: plan.email.into_iter().cloned().collect(),
        phones: vec![],
        urls: plan.url.into_iter().cloned().collect(),
        postal_addresses: plan
            .postal_address
            .map(|d| PostalFields {
                street: part(&d.street),
                city: part(&d.city),
                state: part(&d.state),
                postal_code: part(&d.postal_code),
                country: part(&d.country),
            })
            .into_iter()
            .collect(),
        birthday: plan.fields.birthday,
    };
    let c = contact_from_record(rec);
    assert_eq!(c.addresses, vec!["12 St. James's Square, London, UK".to_string()]);
    assert_eq!(c.id, "new-1");
    assert_eq!(c.contact_type, "person");
    assert_eq!(c.first_name, "Ada");
    assert_eq!(c.last_name, "Lovelace");
    assert_eq!(c.full_name, "Ada Lovelace");
    assert_eq!(c.emails, vec!["ada@example.org".to_string()]);
    assert!(c.phones.is_empty());
    assert_eq!(c.birthday.as_deref(), Some("--12-10"));
    assert_eq!(c.nickname, None);
    assert_eq!(c.note, None);
}
