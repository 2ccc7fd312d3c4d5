use cosmic_grackle::keys::contact_fetch_key_names;
use cosmic_grackle::contact_store::reads::{
    find_group, find_group_folded, fold_case, is_record_not_found, lookup_outcome, require_found,
    ContactCollector, FetchFailure, MemberCounter,
};
use cosmic_grackle::contact_store::ContactRecord;
use cosmic_grackle::error::ContactsError;
use cosmic_grackle::models::Contact;

fn contact(id: &str) -> Contact {
    Contact {
        id: id.into(),
        contact_type: "person".into(),
        first_name: String::new(),
        last_name: String::new(),
        full_name: String::new(),
        name_prefix: None,
        middle_name: None,
        name_suffix: None,
        nickname: None,
        phonetic_given_name: None,
        phonetic_middle_name: None,
        phonetic_family_name: None,
        phonetic_organization_name: None,
        emails: vec![],
        phones: vec![],
        urls: vec![],
        organization: None,
        department: None,
        job_title: None,
        note: None,
        birthday: None,
        addresses: vec![],
    }
}

#[test]
fn fetch_keys_leave_out_the_note() {
    let keys = contact_fetch_key_names();
    assert_eq!(keys.len(), 20);
    assert_eq!(keys[0], "identifier");
    assert!(keys.contains(&"birthday"));
    assert!(!keys.contains(&"note"));
}

#[test]
fn record_not_found_needs_domain_and_code() {
    assert!(is_record_not_found(Some("CNErrorDomain"), "CNErrorDomain", 200, 200));
    assert!(!is_record_not_found(Some("CNErrorDomain"), "NSCocoaErrorDomain", 200, 200));
    assert!(!is_record_not_found(Some("CNErrorDomain"), "CNErrorDomain", 201, 200));
    assert!(!is_record_not_found(None, "CNErrorDomain", 200, 200));
}

#[test]
fn lookup_answers_missing_record_with_nothing() {
    let missing = FetchFailure { not_found: true, description: "gone".into() };
    assert!(matches!(lookup_outcome(Err(missing)), Ok(None)));
    let failed = FetchFailure { not_found: false, description: "denied".into() };
    match lookup_outcome(Err(failed)) {
        Err(e) => assert_eq!(e.to_string(), "objective-c error: denied"),
        Ok(_) => panic!("expected an error"),
    }
}

#[test]
fn lookup_answers_a_fetched_record_with_its_contact() {
    let rec = ContactRecord {
        identifier: "X1".into(),
        is_organization: false,
        name_prefix: String::new(),
        given_name: "Grace".into(),
        middle_name: String::new(),
        family_name: "Hopper".into(),
        name_suffix: String::new(),
        nickname: String::new(),
        organization_name: String::new(),
        department_name: String::new(),
        job_title: String::new(),
        phonetic_given_name: String::new(),
        phonetic_middle_name: String::new(),
        phonetic_family_name: String::new(),
        phonetic_organization_name: String::new(),
        emails: vec![],
        phones: vec![],
        urls: vec![],
        postal_addresses: vec![],
        birthday: None,
    };
    let c = lookup_outcome(Ok(rec)).unwrap().unwrap();
    assert_eq!(c.id, "X1");
    assert_eq!(c.full_name, "Grace Hopper");
}

#[test]
fn changes_need_an_existing_contact() {
    let missing = FetchFailure { not_found: true, description: "gone".into() };
    let err = require_found::<u8>("abc-123", Err(missing)).unwrap_err();
    assert_eq!(err, ContactsError::ContactNotFound("abc-123".into()));
    let failed = FetchFailure { not_found: false, description: "io".into() };
    let err = require_found::<u8>("abc-123", Err(failed)).unwrap_err();
    assert_eq!(err, ContactsError::ObjcError("io".into()));
    assert_eq!(require_found("abc-123", Ok(7u8)).unwrap(), 7);
}

#[test]
fn group_is_found_ignoring_case() {
    let names = vec!["Work".to_string(), "family".to_string(), "FAMILY".to_string()];
    assert_eq!(find_group(&names, "FaMiLy").unwrap(), 1);
    assert_eq!(find_group(&names, "work").unwrap(), 0);
    let err = find_group(&names, "Friends").unwrap_err();
    assert_eq!(err.to_string(), "group not found: Friends");
}

#[test]
fn group_case_matching_covers_all_letters() {
    let names = vec!["Ärzte".to_string(), "Équipe".to_string(), "ΟΜΑΔΑ".to_string()];
    assert_eq!(find_group(&names, "ärzte").unwrap(), 0);
    assert_eq!(find_group(&names, "ÄRZTE").unwrap(), 0);
    assert_eq!(find_group(&names, "éQUIPE").unwrap(), 1);
    assert_eq!(find_group(&names, "ομαδα").unwrap(), 2);
    assert_eq!(find_group(&names, "arzte").unwrap_err(), ContactsError::GroupNotFound("arzte".into()));
}

#[test]
fn group_case_matching_folds_letters_that_grow() {
    let names = vec!["Straße".to_string(), "ﬁsh club".to_string()];
    assert_eq!(find_group(&names, "STRASSE").unwrap(), 0);
    assert_eq!(find_group(&names, "strasse").unwrap(), 0);
    assert_eq!(find_group(&names, "FISH CLUB").unwrap(), 1);
    assert_eq!(fold_case("Straße"), "strasse");
    assert_eq!(fold_case("ÄRZTE"), "ärzte");
}

#[test]
fn group_lookup_over_folded_names_keeps_the_given_name() {
    let folded = vec!["work".to_string(), "family".to_string()];
    assert_eq!(find_group_folded(&folded, "family", "FAMILY").unwrap(), 1);
    assert_eq!(
        find_group_folded(&folded, "friends", "Friends").unwrap_err(),
        ContactsError::GroupNotFound("Friends".into())
    );
}

#[test]
fn collector_stops_at_the_limit() {
    let mut c = ContactCollector::new(Some(2));
    assert!(!c.accept(contact("1")));
    assert!(c.accept(contact("2")));
    let kept = c.finish(true, None).unwrap();
    assert_eq!(kept.len(), 2);
    assert_eq!(kept[1].id, "2");
}

#[test]
fn collector_with_zero_limit_keeps_nothing() {
    let mut c = ContactCollector::new(Some(0));
    assert!(c.accept(contact("1")));
    assert!(c.finish(true, None).unwrap().is_empty());
}

#[test]
fn collector_keeps_the_first_contacts_in_order() {
    let mut c = ContactCollector::new(Some(3));
    let mut stops = Vec::new();
    for i in 0..5 {
        stops.push(c.accept(contact(&i.to_string())));
    }
    assert_eq!(stops, vec![false, false, true, true, true]);
    let kept = c.finish(true, None).unwrap();
    let ids: Vec<&str> = kept.iter().map(|k| k.id.as_str()).collect();
    assert_eq!(ids, vec!["0", "1", "2"]);
}

#[test]
fn collector_without_limit_never_stops() {
    let mut c = ContactCollector::new(None);
    for i in 0..100 {
        assert!(!c.accept(contact(&i.to_string())));
    }
    assert_eq!(c.finish(true, None).unwrap().len(), 100);
}

#[test]
fn collector_reports_failures() {
    let c = ContactCollector::new(None);
    let err = c.finish(false, Some("denied".into())).unwrap_err();
    assert_eq!(err, ContactsError::ObjcError("denied".into()));
    let c = ContactCollector::new(None);
    let err = c.finish(false, None).unwrap_err();
    assert_eq!(err.to_string(), "operation failed: enumerate contacts failed");
}

#[test]
fn member_counter_counts_each_member() {
    let mut c = MemberCounter::new();
    for _ in 0..3 {
        c.count_one();
    }
    let g = c.finish("grp-1".into(), "Family".into());
    assert_eq!((g.id.as_str(), g.name.as_str(), g.member_count), ("grp-1", "Family", 3));
    let empty = MemberCounter::new().finish("grp-2".into(), "Empty".into());
    assert_eq!(empty.member_count, 0);
}
