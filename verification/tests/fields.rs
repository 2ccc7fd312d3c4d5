use cosmic_grackle::contact_store::{
    format_birthday, parse_birthday, parse_contact_type, BirthdayComponents, ContactKind,
    NS_DATE_COMPONENT_UNDEFINED,
};

#[test]
fn parse_contact_type_accepts_person_and_organization() {
    assert_eq!(parse_contact_type("person").unwrap(), ContactKind::Person);
    assert_eq!(
        parse_contact_type("organization").unwrap(),
        ContactKind::Organization,
    );
}

#[test]
fn parse_contact_type_rejects_other_values() {
    let err = parse_contact_type("Person").unwrap_err();
    assert!(err.to_string().contains("'person' or 'organization'"));
    assert!(parse_contact_type("company").is_err());
    assert!(parse_contact_type("").is_err());
}

#[test]
fn parse_contact_type_error_names_the_value() {
    let err = parse_contact_type("company").unwrap_err();
    assert_eq!(
        err.to_string(),
        "invalid input: contact_type must be 'person' or 'organization', got 'company'"
    );
}

#[test]
fn parse_birthday_accepts_full_date() {
    let comps = parse_birthday("1815-12-10").unwrap();
    assert_eq!(comps.year(), 1815);
    assert_eq!(comps.month(), 12);
    assert_eq!(comps.day(), 10);
}

#[test]
fn parse_birthday_accepts_no_year() {
    let comps = parse_birthday("--06-15").unwrap();
    assert_eq!(comps.year(), NS_DATE_COMPONENT_UNDEFINED);
    assert_eq!(comps.month(), 6);
    assert_eq!(comps.day(), 15);
}

#[test]
fn parse_birthday_rejects_malformed_inputs() {
    for bad in [
        "",
        "1815/12/10",
        "1815-12",
        "1815-12-10-extra",
        "abc-12-10",
        "1815-13-10",
        "1815-12-32",
        "1815-00-10",
        "1815-12-00",
        "-12-10",
        "--13-10",
    ] {
        assert!(
            parse_birthday(bad).is_err(),
            "expected parse_birthday({bad:?}) to fail",
        );
    }
}

#[test]
fn parse_birthday_takes_only_the_documented_widths() {
    for bad in [
        "1815-1-5",
        "+0005-+1-002",
        "+815-12-10",
        "815-12-10",
        "01815-12-10",
        "1815-012-10",
        "1815-12-010",
        "--6-15",
        "--06-5",
        " 1815-12-10",
        "1815-12-10 ",
        "１８１５-12-10",
        "9223372036854775807-01-01",
    ] {
        assert!(parse_birthday(bad).is_err(), "expected parse_birthday({bad:?}) to fail");
    }
    let b = parse_birthday("0005-01-02").unwrap();
    assert_eq!(b, BirthdayComponents { year: 5, month: 1, day: 2 });
    let b = parse_birthday("2024-02-31").unwrap();
    assert_eq!((b.year(), b.month(), b.day()), (2024, 2, 31));
}

#[test]
fn parse_birthday_reads_the_same_date_with_or_without_year() {
    for tail in ["12-10", "01-31", "13-01", "1-5", "12-10x"] {
        let with_year = parse_birthday(&format!("1815-{tail}"));
        let without = parse_birthday(&format!("--{tail}"));
        assert_eq!(with_year.is_ok(), without.is_ok(), "{tail}");
        if let (Ok(a), Ok(b)) = (with_year, without) {
            assert_eq!((a.month(), a.day()), (b.month(), b.day()));
            assert_eq!(a.year(), 1815);
            assert_eq!(b.year(), NS_DATE_COMPONENT_UNDEFINED);
        }
    }
}

#[test]
fn parse_birthday_error_names_the_value() {
    let err = parse_birthday("1815/12/10").unwrap_err();
    assert_eq!(
        err.to_string(),
        "invalid input: birthday must be 'YYYY-MM-DD' or '--MM-DD', got '1815/12/10'"
    );
}

#[test]
fn format_birthday_pads_each_number() {
    let b = BirthdayComponents { year: 5, month: 1, day: 2 };
    assert_eq!(format_birthday(&b), "0005-01-02");
    let b = BirthdayComponents { year: NS_DATE_COMPONENT_UNDEFINED, month: 6, day: 15 };
    assert_eq!(format_birthday(&b), "--06-15");
    let b = BirthdayComponents { year: 12345, month: 11, day: 30 };
    assert_eq!(format_birthday(&b), "12345-11-30");
}

#[test]
fn format_birthday_puts_the_sign_before_the_padding() {
    let b = BirthdayComponents { year: -5, month: 1, day: 2 };
    assert_eq!(format_birthday(&b), "-005-01-02");
    assert_eq!(format!("{:04}", -5i64), "-005");
}

#[test]
fn birthday_text_reads_back_unchanged() {
    for text in ["1815-12-10", "--06-15", "0005-01-02", "0000-02-29", "--01-31", "9999-12-31"] {
        let parsed = parse_birthday(text).unwrap();
        assert_eq!(format_birthday(&parsed), text);
    }
}
