use cosmic_grackle::contact_store::edits::{
    apply_list_edit, find_entry, find_first, plan_email_op, plan_phone_op, plan_postal_op,
    plan_url_op, Entry, ListEdit, PlannedEdit, EMAIL_LABEL, PHONE_LABEL, POSTAL_LABEL, URL_LABEL,
};
use cosmic_grackle::contact_store::{EmailOp, PhoneOp, PostalAddressData, PostalOp, UrlOp};

fn strings(v: &[&str]) -> Vec<String> {
    v.iter().map(|s| s.to_string()).collect()
}

fn entries(v: &[(&str, &str)]) -> Vec<Entry> {
    v.iter()
        .map(|(l, s)| Entry { label: Some(l.to_string()), value: s.to_string() })
        .collect()
}

fn carry_out(list: &mut Vec<Entry>, plan: PlannedEdit, text: Option<&str>) {
    let new_entry = text.map(|t| Entry { label: plan.label.clone(), value: t.to_string() });
    apply_list_edit(list, plan.edit, new_entry);
}

#[test]
fn add_appends_under_the_default_label() {
    let current = entries(&[("home", "a@x"), ("work", "b@x")]);
    let plan = plan_email_op(&current, &EmailOp::Add("c@x".into()), "id-1").unwrap();
    assert_eq!(plan, PlannedEdit { edit: ListEdit::Append, label: Some(EMAIL_LABEL.to_string()) });
    let mut list = current.clone();
    carry_out(&mut list, plan, Some("c@x"));
    assert_eq!(list, entries(&[("home", "a@x"), ("work", "b@x"), ("work", "c@x")]));
    assert_eq!(
        plan_url_op(&current, &UrlOp::Add("https://c".into()), "id-1").unwrap().label,
        Some("homepage".to_string())
    );
    assert_eq!(
        plan_phone_op(&current, &PhoneOp::Add("555".into()), "id-1", true).unwrap().label,
        Some(PHONE_LABEL.to_string())
    );
    assert_eq!(URL_LABEL, "homepage");
    assert_eq!(POSTAL_LABEL, "home");
}

#[test]
fn remove_takes_the_first_match_only() {
    let current = entries(&[("home", "a@x"), ("work", "b@x"), ("other", "a@x")]);
    let plan = plan_email_op(&current, &EmailOp::Remove("a@x".into()), "id-1").unwrap();
    assert_eq!(plan, PlannedEdit { edit: ListEdit::RemoveAt(0), label: None });
    let mut list = current.clone();
    carry_out(&mut list, plan, None);
    assert_eq!(list, entries(&[("work", "b@x"), ("other", "a@x")]));
}

#[test]
fn replace_changes_the_first_match_in_place_and_keeps_its_label() {
    let current = entries(&[("home", "https://a"), ("blog", "https://b"), ("x", "https://b")]);
    let op = UrlOp::Replace { from: "https://b".into(), to: "https://c".into() };
    let plan = plan_url_op(&current, &op, "id-1").unwrap();
    assert_eq!(plan, PlannedEdit { edit: ListEdit::ReplaceAt(1), label: Some("blog".to_string()) });
    let mut list = current.clone();
    carry_out(&mut list, plan, Some("https://c"));
    assert_eq!(list, entries(&[("home", "https://a"), ("blog", "https://c"), ("x", "https://b")]));
}

#[test]
fn replace_of_an_unlabelled_entry_writes_no_label() {
    let current = vec![Entry { label: None, value: "555".into() }];
    let op = PhoneOp::Replace { from: "555".into(), to: "666".into() };
    let plan = plan_phone_op(&current, &op, "id-1", true).unwrap();
    assert_eq!(plan, PlannedEdit { edit: ListEdit::ReplaceAt(0), label: None });
}

#[test]
fn missing_entry_is_reported() {
    let current = entries(&[("work", "a@x")]);
    let err = plan_email_op(&current, &EmailOp::Remove("z@x".into()), "id-9").unwrap_err();
    assert_eq!(err.to_string(), "invalid input: email 'z@x' not found on contact id-9");
    let err = plan_url_op(&current, &UrlOp::Remove("z".into()), "id-9").unwrap_err();
    assert_eq!(err.to_string(), "invalid input: url 'z' not found on contact id-9");
}

#[test]
fn empty_text_is_refused_before_lookup() {
    let current = entries(&[("work", "a@x")]);
    let err = plan_email_op(&current, &EmailOp::Add(String::new()), "id").unwrap_err();
    assert_eq!(err.to_string(), "invalid input: email_to must be non-empty");
    let err = plan_email_op(&current, &EmailOp::Remove(String::new()), "id").unwrap_err();
    assert_eq!(err.to_string(), "invalid input: email_from must be non-empty");
    let op = UrlOp::Replace { from: "a@x".into(), to: String::new() };
    let err = plan_url_op(&current, &op, "id").unwrap_err();
    assert_eq!(err.to_string(), "invalid input: url_to must be non-empty");
    let op = UrlOp::Replace { from: String::new(), to: String::new() };
    let err = plan_url_op(&current, &op, "id").unwrap_err();
    assert_eq!(err.to_string(), "invalid input: url_from must be non-empty");
    let err = plan_phone_op(&current, &PhoneOp::Add(String::new()), "id", true).unwrap_err();
    assert_eq!(err.to_string(), "invalid input: phone_to must be non-empty");
    let err = plan_phone_op(&current, &PhoneOp::Remove(String::new()), "id", true).unwrap_err();
    assert_eq!(err.to_string(), "invalid input: phone_from must be non-empty");
    let err = plan_postal_op(&current, &PostalOp::Remove(String::new()), "id").unwrap_err();
    assert_eq!(err.to_string(), "invalid input: postal_from must be non-empty");
}

#[test]
fn phone_refused_by_the_store_fails_first() {
    let current = entries(&[("mobile", "555")]);
    let op = PhoneOp::Replace { from: "nope".into(), to: "???".into() };
    let err = plan_phone_op(&current, &op, "id-1", false).unwrap_err();
    assert_eq!(err.to_string(), "invalid input: invalid phone number: ???");
    let err = plan_phone_op(&current, &op, "id-1", true).unwrap_err();
    assert_eq!(err.to_string(), "invalid input: phone 'nope' not found on contact id-1");
    let err = plan_phone_op(&current, &PhoneOp::Add("x".into()), "id-1", false).unwrap_err();
    assert_eq!(err.to_string(), "invalid input: invalid phone number: x");
}

#[test]
fn phone_remove_does_not_look_at_acceptance() {
    let current = entries(&[("mobile", "555"), ("home", "666")]);
    let plan = plan_phone_op(&current, &PhoneOp::Remove("666".into()), "id-1", false).unwrap();
    assert_eq!(plan.edit, ListEdit::RemoveAt(1));
}

#[test]
fn postal_address_without_parts_is_refused() {
    let current = entries(&[("home", "1 Main, Town")]);
    let err = plan_postal_op(&current, &PostalOp::Add(PostalAddressData::default()), "id-1")
        .unwrap_err();
    assert_eq!(
        err.to_string(),
        "invalid input: postal address requires at least one non-empty field"
    );
    let op = PostalOp::Replace { from: "1 Main, Town".into(), to: PostalAddressData::default() };
    assert!(plan_postal_op(&current, &op, "id-1").is_err());
}

#[test]
fn postal_address_of_empty_parts_is_refused() {
    let current = entries(&[("home", "1 Main, Town")]);
    let blank = PostalAddressData { street: Some(String::new()), ..Default::default() };
    assert!(!blank.has_any_text());
    let err = plan_postal_op(&current, &PostalOp::Add(blank.clone()), "id-1").unwrap_err();
    assert_eq!(
        err.to_string(),
        "invalid input: postal address requires at least one non-empty field"
    );
    let op = PostalOp::Replace { from: "1 Main, Town".into(), to: blank };
    let err = plan_postal_op(&current, &op, "id-1").unwrap_err();
    assert_eq!(
        err.to_string(),
        "invalid input: postal address requires at least one non-empty field"
    );
    let city = PostalAddressData { street: Some(String::new()), city: Some("Town".into()), ..Default::default() };
    let plan = plan_postal_op(&current, &PostalOp::Add(city), "id-1").unwrap();
    assert_eq!(plan, PlannedEdit { edit: ListEdit::Append, label: Some("home".to_string()) });
}

#[test]
fn postal_address_is_matched_by_its_one_line_form() {
    let current = entries(&[("home", "1 Main, Town"), ("work", "2 High St")]);
    let plan = plan_postal_op(&current, &PostalOp::Remove("2 High St".into()), "id-1").unwrap();
    assert_eq!(plan.edit, ListEdit::RemoveAt(1));
    let to = PostalAddressData { city: Some("Ville".into()), ..Default::default() };
    let op = PostalOp::Replace { from: "2 High St".into(), to };
    let plan = plan_postal_op(&current, &op, "id-1").unwrap();
    assert_eq!(plan, PlannedEdit { edit: ListEdit::ReplaceAt(1), label: Some("work".to_string()) });
    let err = plan_postal_op(&current, &PostalOp::Remove("1 Main".into()), "id-1").unwrap_err();
    assert_eq!(
        err.to_string(),
        "invalid input: postal address '1 Main' not found on contact id-1"
    );
}

#[test]
fn add_then_remove_restores_the_list() {
    let current = entries(&[("home", "a"), ("other", "b")]);
    let mut list = current.clone();
    let add = plan_email_op(&list, &EmailOp::Add("c".into()), "id").unwrap();
    carry_out(&mut list, add, Some("c"));
    let remove = plan_email_op(&list, &EmailOp::Remove("c".into()), "id").unwrap();
    carry_out(&mut list, remove, None);
    assert_eq!(list, current);
}

#[test]
fn replace_and_replace_back_restores_the_list() {
    let current = entries(&[("home", "a"), ("other", "b"), ("work", "a")]);
    let mut list = current.clone();
    let there = UrlOp::Replace { from: "a".into(), to: "z".into() };
    let plan = plan_url_op(&list, &there, "id").unwrap();
    carry_out(&mut list, plan, Some("z"));
    assert_eq!(list, entries(&[("home", "z"), ("other", "b"), ("work", "a")]));
    let back = UrlOp::Replace { from: "z".into(), to: "a".into() };
    let plan = plan_url_op(&list, &back, "id").unwrap();
    carry_out(&mut list, plan, Some("a"));
    assert_eq!(list, current);
}

#[test]
fn out_of_range_or_missing_entry_leaves_the_list_alone() {
    let mut list = strings(&["a"]);
    apply_list_edit(&mut list, ListEdit::RemoveAt(3), None);
    apply_list_edit(&mut list, ListEdit::Append, None);
    apply_list_edit(&mut list, ListEdit::ReplaceAt(0), None);
    apply_list_edit(&mut list, ListEdit::ReplaceAt(1), Some("b".to_string()));
    assert_eq!(list, strings(&["a"]));
}

#[test]
fn find_first_finds_the_earliest() {
    let v = strings(&["x", "y", "x"]);
    assert_eq!(find_first(&v, "x"), Some(0));
    assert_eq!(find_first(&v, "y"), Some(1));
    assert_eq!(find_first(&v, "X"), None);
    let es = entries(&[("a", "x"), ("b", "y"), ("c", "x")]);
    assert_eq!(find_entry(&es, "y"), Some(1));
    assert_eq!(find_entry(&es, "a"), None);
}
