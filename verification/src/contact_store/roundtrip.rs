//! What is written reads back: a birthday or contact type accepted on the
//! way in is shown on the way out as the same text.

use vstd::prelude::*;

use crate::contact_store::fields::{
    birthday_named, contact_kind_named, digits_at, digits_value, is_ascii_digit, month_day_named,
    ContactKind, NS_DATE_COMPONENT_UNDEFINED,
};
use crate::contact_store::fields::BirthdayComponents;
use crate::contact_store::params::{ContactsCreateParams, PostalAddressData};
use crate::contact_store::plans::{scalar_outcome, CreatePlan};
use crate::contact_store::record::{
    birthday_text, contact_type_text, display_name, joined, law_address_line_joins_nonempty_parts,
    nonempty_parts, shows_record, text_or_none, ContactRecord,
};
use crate::models::Contact;
use crate::text::{decimal, digit_char, opt_ref_view, opt_view, views, zero_padded, zeros};

verus! {

/// A digit character is the digit character of its own value.
proof fn lemma_digit_char_of(c: char)
    requires
        is_ascii_digit(c),
    ensures
        digit_char(((c as nat) - 48) as nat) == c,
{
    let v: nat = ((c as nat) - 48) as nat;
    assert(v + 48 == c as nat);
    assert(((v + 48) as u32) == c as u32);
    assert((c as u32) as char == c);
}

/// A string of ASCII digits is its value in decimal, zero-padded to its own
/// length.
proof fn lemma_digits_are_padded_decimal(d: Seq<char>)
    requires
        d.len() >= 1,
        digits_at(d, 0, d.len() as int),
    ensures
        zeros(d.len() - decimal(digits_value(d)).len()) + decimal(digits_value(d)) == d,
    decreases d.len(),
{
    let c = d.last();
    assert(is_ascii_digit(d[d.len() - 1]));
    lemma_digit_char_of(c);
    let e: nat = ((c as nat) - 48) as nat;
    if d.len() == 1 {
        assert(d.drop_last() =~= Seq::<char>::empty());
        assert(digits_value(d.drop_last()) == 0);
        assert(digits_value(d) == e);
        assert(decimal(e) == seq![digit_char(e)]);
        assert(zeros(0) =~= Seq::<char>::empty());
        assert(seq![c] =~= d);
    } else {
        let dp = d.drop_last();
        assert(digits_at(dp, 0, dp.len() as int)) by {
            assert forall|i: int| 0 <= i < dp.len() implies is_ascii_digit(#[trigger] dp[i]) by {
                assert(dp[i] == d[i]);
            }
        }
        lemma_digits_are_padded_decimal(dp);
        let vp = digits_value(dp);
        let v = digits_value(d);
        assert(v == vp * 10 + e);
        assert(dp.push(c) == d);
        if vp == 0 {
            assert(decimal(0) == seq![digit_char(0)]);
            assert(v == e);
            assert(decimal(e) == seq![digit_char(e)]);
            // dp is all zeros: dp == zeros(dp.len())
            assert(zeros(dp.len() as int) == zeros(dp.len() - 1).push('0'));
            assert(digit_char(0) == '0');
            assert(zeros(dp.len() - 1) + seq!['0'] == zeros(dp.len() - 1).push('0'));
            assert(dp == zeros(dp.len() as int));
            assert(zeros(d.len() - 1) + seq![c] == zeros(dp.len() as int).push(c));
        } else {
            assert(v >= 10);
            assert(v / 10 == vp);
            assert(v % 10 == e);
            assert(decimal(v) == decimal(vp).push(digit_char(e)));
            let zs = zeros(dp.len() - decimal(vp).len());
            assert(zs + decimal(vp).push(c) == (zs + decimal(vp)).push(c));
        }
    }
}

/// Two ASCII digits, shown zero-padded to two places, are themselves.
proof fn lemma_two_digits_shown(d: Seq<char>)
    requires
        d.len() == 2,
        digits_at(d, 0, 2),
    ensures
        zero_padded(digits_value(d) as int, 2) == d,
{
    lemma_digits_are_padded_decimal(d);
    assert(Seq::<char>::empty() + zeros(2 - decimal(digits_value(d)).len()) + decimal(
        digits_value(d),
    ) == zeros(2 - decimal(digits_value(d)).len()) + decimal(digits_value(d)));
}

/// Four ASCII digits, shown zero-padded to four places, are themselves.
proof fn lemma_four_digits_shown(d: Seq<char>)
    requires
        d.len() == 4,
        digits_at(d, 0, 4),
    ensures
        zero_padded(digits_value(d) as int, 4) == d,
        digits_value(d) <= 9999,
{
    lemma_digits_are_padded_decimal(d);
    assert(Seq::<char>::empty() + zeros(4 - decimal(digits_value(d)).len()) + decimal(
        digits_value(d),
    ) == zeros(4 - decimal(digits_value(d)).len()) + decimal(digits_value(d)));
    lemma_digits_value_bound(d);
    reveal_with_fuel(pow10, 5);
}

proof fn lemma_digits_value_bound(d: Seq<char>)
    requires
        digits_at(d, 0, d.len() as int),
    ensures
        digits_value(d) < pow10(d.len()),
    decreases d.len(),
{
    if d.len() > 0 {
        let dp = d.drop_last();
        assert(digits_at(dp, 0, dp.len() as int)) by {
            assert forall|i: int| 0 <= i < dp.len() implies is_ascii_digit(#[trigger] dp[i]) by {
                assert(dp[i] == d[i]);
            }
        }
        lemma_digits_value_bound(dp);
        assert(is_ascii_digit(d[d.len() - 1]));
        assert(pow10(d.len()) == 10 * pow10(dp.len()));
    }
}

spec fn pow10(k: nat) -> nat
    decreases k,
{
    if k == 0 {
        1
    } else {
        10 * pow10((k - 1) as nat)
    }
}

/// The `MM-DD` text a month and day were read from is how they are shown.
proof fn lemma_month_day_shown(t: Seq<char>)
    requires
        month_day_named(t) is Some,
    ensures
        zero_padded((month_day_named(t)->0).0, 2) + "-"@ + zero_padded((month_day_named(t)->0).1, 2)
            == t,
{
    reveal_strlit("-");
    let m = t.take(2);
    let d = t.subrange(3, 5);
    assert(digits_at(m, 0, 2)) by {
        assert(m[0] == t[0] && m[1] == t[1]);
    }
    assert(digits_at(d, 0, 2)) by {
        assert(d[0] == t[3] && d[1] == t[4]);
    }
    lemma_two_digits_shown(m);
    lemma_two_digits_shown(d);
    assert(m + "-"@ + d =~= t);
}

/// An accepted birthday is shown as exactly the text it was read from: what
/// a create or update writes from a birthday, a read gives back verbatim.
pub proof fn law_birthday_text_round_trip(s: Seq<char>)
    requires
        birthday_named(s) is Some,
    ensures
        birthday_text(birthday_named(s)->0) == s,
{
    reveal_strlit("-");
    reveal_strlit("--");
    let b = birthday_named(s)->0;
    if s.len() >= 2 && s[0] == '-' && s[1] == '-' {
        lemma_month_day_shown(s.skip(2));
        assert("--"@ + s.skip(2) =~= s);
        assert("--"@ + zero_padded(b.month as int, 2) + "-"@ + zero_padded(b.day as int, 2) == "--"@
            + (zero_padded(b.month as int, 2) + "-"@ + zero_padded(b.day as int, 2)));
    } else {
        let y = s.take(4);
        assert(digits_at(y, 0, 4)) by {
            assert forall|i: int| 0 <= i < 4 implies is_ascii_digit(#[trigger] y[i]) by {
                assert(y[i] == s[i]);
            }
        }
        lemma_four_digits_shown(y);
        assert(b.year != NS_DATE_COMPONENT_UNDEFINED);
        lemma_month_day_shown(s.skip(5));
        assert(y + "-"@ + s.skip(5) =~= s);
        assert(zero_padded(b.year as int, 4) + "-"@ + zero_padded(b.month as int, 2) + "-"@
            + zero_padded(b.day as int, 2) == zero_padded(b.year as int, 4) + "-"@ + (zero_padded(
            b.month as int,
            2,
        ) + "-"@ + zero_padded(b.day as int, 2)));
    }
}

/// A birthday with a four-digit year and the same birthday without a year
/// agree: both are accepted or neither is, with the same month and day, and
/// the year is the four digits' value or not given.
pub proof fn law_year_form_matches_yearless(y: Seq<char>, t: Seq<char>)
    requires
        y.len() == 4,
        digits_at(y, 0, 4),
    ensures
        (birthday_named(y + "-"@ + t) is Some) == (birthday_named("--"@ + t) is Some),
        birthday_named(y + "-"@ + t) matches Some(with_year) ==> {
            let without = birthday_named("--"@ + t)->0;
            &&& with_year.month == without.month
            &&& with_year.day == without.day
            &&& with_year.year == digits_value(y)
            &&& without.year == NS_DATE_COMPONENT_UNDEFINED
        },
{
    reveal_strlit("-");
    reveal_strlit("--");
    let a = y + "-"@ + t;
    let b = "--"@ + t;
    assert(a.skip(5) =~= t);
    assert(b.skip(2) =~= t);
    assert(a.take(4) =~= y);
    assert(is_ascii_digit(y[0]));
    assert(a[0] == y[0]);
    assert(digits_at(a, 0, 4)) by {
        assert forall|i: int| 0 <= i < 4 implies is_ascii_digit(#[trigger] a[i]) by {
            assert(a[i] == y[i]);
        }
    }
    assert(a[4] == '-');
    assert(b[0] == '-' && b[1] == '-');
    lemma_four_digits_shown(y);
}

/// The type name shown for a contact names the same kind of contact.
pub proof fn law_contact_type_round_trip(is_organization: bool)
    ensures
        contact_kind_named(contact_type_text(is_organization)) == Some(
            if is_organization {
                ContactKind::Organization
            } else {
                ContactKind::Person
            },
        ),
{
    reveal_strlit("person");
    reveal_strlit("organization");
    assert("person"@ != "organization"@) by {
        assert("person"@.len() != "organization"@.len());
    }
}

/// The text a create writes into a single-valued field: the given text, or
/// nothing.
pub open spec fn written_text(v: Option<String>) -> Seq<char> {
    match v {
        Some(s) => s@,
        None => Seq::empty(),
    }
}

/// The entries a create writes into a multi-valued field: the given text as
/// the one entry, or none.
pub open spec fn written_entries(v: Option<String>) -> Seq<Seq<char>> {
    match v {
        Some(s) => seq![s@],
        None => Seq::empty(),
    }
}

/// The parts of an address as a create writes them: each given part as
/// given, a missing one blank.
pub open spec fn written_parts(d: PostalAddressData) -> Seq<Seq<char>> {
    seq![
        written_text(d.street),
        written_text(d.city),
        written_text(d.state),
        written_text(d.postal_code),
        written_text(d.country),
    ]
}

/// The address a create of `p` writes: the given one, unless no part of it
/// is given.
pub open spec fn written_address(p: ContactsCreateParams) -> Option<PostalAddressData> {
    match p.postal_address {
        Some(d) => if d.has_no_parts() {
            None
        } else {
            Some(d)
        },
        None => None,
    }
}

/// `rec` holds what a create of `p` wrote, with the contact type `kind` and
/// the birthday `birthday` that the create read from `p`: each name and
/// organization field as given, the email address and URL as the one entry
/// where given, the written address as the one address where there is one.
/// A phone number, which the store may refuse or reformat, is held as at
/// most one entry, and as none where none was given.
pub open spec fn holds_created(
    rec: ContactRecord,
    p: ContactsCreateParams,
    kind: Option<ContactKind>,
    birthday: Option<BirthdayComponents>,
) -> bool {
    &&& rec.is_organization == (kind == Some(ContactKind::Organization))
    &&& rec.name_prefix@ == written_text(p.name_prefix)
    &&& rec.given_name@ == written_text(p.first_name)
    &&& rec.middle_name@ == written_text(p.middle_name)
    &&& rec.family_name@ == written_text(p.last_name)
    &&& rec.name_suffix@ == written_text(p.name_suffix)
    &&& rec.nickname@ == written_text(p.nickname)
    &&& rec.organization_name@ == written_text(p.organization)
    &&& rec.department_name@ == written_text(p.department)
    &&& rec.job_title@ == written_text(p.job_title)
    &&& rec.phonetic_given_name@ == written_text(p.phonetic_given_name)
    &&& rec.phonetic_middle_name@ == written_text(p.phonetic_middle_name)
    &&& rec.phonetic_family_name@ == written_text(p.phonetic_family_name)
    &&& rec.phonetic_organization_name@ == written_text(p.phonetic_organization_name)
    &&& views(rec.emails@) == written_entries(p.email)
    &&& views(rec.urls@) == written_entries(p.url)
    &&& rec.phones@.len() <= 1
    &&& (p.phone is None ==> rec.phones@.len() == 0)
    &&& match written_address(p) {
        Some(d) => rec.postal_addresses@.len() == 1 && rec.postal_addresses@[0].parts()
            == written_parts(d),
        None => rec.postal_addresses@.len() == 0,
    }
    &&& rec.birthday == birthday
}

/// A contact that a create accepted reads back as it was asked for, where
/// the store kept what the create wrote: the contact type and the birthday
/// as the same text (the type `"person"` where none was given), each name
/// as given, a single-valued field given as empty text as absent, the email
/// address and URL as the one entry, no phone number where none was given,
/// the address as its given non-empty parts joined with `", "` (no address
/// where none was written), and no note, which is never read.
pub proof fn law_created_contact_reads_back(p: ContactsCreateParams, rec: ContactRecord, c: Contact)
    requires
        scalar_outcome(opt_view(p.contact_type), opt_view(p.birthday)) matches Ok((kind, birthday))
            && holds_created(rec, p, kind, birthday),
        shows_record(c, rec),
    ensures
        c.id@ == rec.identifier@,
        c.contact_type@ == (match p.contact_type {
            Some(t) => t@,
            None => "person"@,
        }),
        opt_view(c.birthday) == opt_view(p.birthday),
        c.first_name@ == written_text(p.first_name),
        c.last_name@ == written_text(p.last_name),
        c.full_name@ == display_name(
            written_text(p.first_name),
            written_text(p.last_name),
            written_text(p.organization),
        ),
        opt_view(c.name_prefix) == text_or_none(written_text(p.name_prefix)),
        opt_view(c.middle_name) == text_or_none(written_text(p.middle_name)),
        opt_view(c.name_suffix) == text_or_none(written_text(p.name_suffix)),
        opt_view(c.nickname) == text_or_none(written_text(p.nickname)),
        opt_view(c.organization) == text_or_none(written_text(p.organization)),
        opt_view(c.department) == text_or_none(written_text(p.department)),
        opt_view(c.job_title) == text_or_none(written_text(p.job_title)),
        views(c.emails@) == written_entries(p.email),
        views(c.urls@) == written_entries(p.url),
        c.phones@.len() <= 1,
        p.phone is None ==> c.phones@.len() == 0,
        views(c.addresses@) == (match written_address(p) {
            Some(d) => seq![joined(nonempty_parts(written_parts(d)))],
            None => Seq::<Seq<char>>::empty(),
        }),
        c.note is None,
{
    reveal_strlit("person");
    reveal_strlit("organization");
    assert("person"@ != "organization"@) by {
        assert("person"@.len() != "organization"@.len());
    }
    match p.birthday {
        Some(s) => {
            law_birthday_text_round_trip(s@);
        },
        None => {},
    }
    assert(views(c.phones@).len() == views(rec.phones@).len());
    match written_address(p) {
        Some(d) => {
            law_address_line_joins_nonempty_parts(written_parts(d));
            assert(views(c.addresses@) =~= seq![joined(nonempty_parts(written_parts(d)))]);
        },
        None => {
            assert(views(c.addresses@) =~= Seq::<Seq<char>>::empty());
        },
    }
}


/// The text a plan writes into a single-valued field: the planned text, or
/// nothing.
pub open spec fn planned_text(v: Option<&String>) -> Seq<char> {
    match v {
        Some(s) => s@,
        None => Seq::empty(),
    }
}

/// `rec` holds the single-valued text fields exactly as the create plan
/// `plan` writes them, each into the store's field of the same meaning.
pub open spec fn holds_planned_fields(rec: ContactRecord, plan: CreatePlan) -> bool {
    let f = plan.fields.fields;
    &&& rec.name_prefix@ == planned_text(f.name_prefix)
    &&& rec.given_name@ == planned_text(f.first_name)
    &&& rec.middle_name@ == planned_text(f.middle_name)
    &&& rec.family_name@ == planned_text(f.last_name)
    &&& rec.name_suffix@ == planned_text(f.name_suffix)
    &&& rec.nickname@ == planned_text(f.nickname)
    &&& rec.organization_name@ == planned_text(f.organization)
    &&& rec.department_name@ == planned_text(f.department)
    &&& rec.job_title@ == planned_text(f.job_title)
    &&& rec.phonetic_given_name@ == planned_text(f.phonetic_given_name)
    &&& rec.phonetic_middle_name@ == planned_text(f.phonetic_middle_name)
    &&& rec.phonetic_family_name@ == planned_text(f.phonetic_family_name)
    &&& rec.phonetic_organization_name@ == planned_text(f.phonetic_organization_name)
}

/// A contact written from a create plan for `p`, where the plan holds the
/// request's fields as `plan_create` promises, reads back with each field
/// as the request gave it: the first and last name as given, the display
/// name made of them, and the job title, department and the other single
/// fields as given (absent where given empty).
pub proof fn law_planned_create_reads_back(
    p: ContactsCreateParams,
    plan: CreatePlan,
    rec: ContactRecord,
    c: Contact,
)
    requires
        plan.fields.fields.mirrors_create(p),
        holds_planned_fields(rec, plan),
        shows_record(c, rec),
    ensures
        c.first_name@ == written_text(p.first_name),
        c.last_name@ == written_text(p.last_name),
        c.full_name@ == display_name(
            written_text(p.first_name),
            written_text(p.last_name),
            written_text(p.organization),
        ),
        opt_view(c.name_prefix) == text_or_none(written_text(p.name_prefix)),
        opt_view(c.middle_name) == text_or_none(written_text(p.middle_name)),
        opt_view(c.name_suffix) == text_or_none(written_text(p.name_suffix)),
        opt_view(c.nickname) == text_or_none(written_text(p.nickname)),
        opt_view(c.organization) == text_or_none(written_text(p.organization)),
        opt_view(c.department) == text_or_none(written_text(p.department)),
        opt_view(c.job_title) == text_or_none(written_text(p.job_title)),
        opt_view(c.phonetic_given_name) == text_or_none(written_text(p.phonetic_given_name)),
        opt_view(c.phonetic_middle_name) == text_or_none(written_text(p.phonetic_middle_name)),
        opt_view(c.phonetic_family_name) == text_or_none(written_text(p.phonetic_family_name)),
        opt_view(c.phonetic_organization_name) == text_or_none(written_text(p.phonetic_organization_name)),
{
}


/// Exactly two texts name a contact type, `"person"` and `"organization"`,
/// each its own type; a person is shown as `"person"` and an organization
/// as `"organization"`.
pub proof fn law_contact_type_names(s: Seq<char>)
    ensures
        contact_kind_named(s) == Some(ContactKind::Person) <==> s == "person"@,
        contact_kind_named(s) == Some(ContactKind::Organization) <==> s == "organization"@,
        contact_kind_named(s) is None <==> (s != "person"@ && s != "organization"@),
        contact_type_text(false) == "person"@,
        contact_type_text(true) == "organization"@,
{
    reveal_strlit("person");
    reveal_strlit("organization");
    assert("person"@ != "organization"@) by {
        assert("person"@.len() != "organization"@.len());
    }
}

} // verus!
