//! Parsing of the scalar fields that are not free text: the contact type and
//! the birthday.

use vstd::prelude::*;

use crate::error::ContactsError;
use crate::text::{chars_of, push_str, str_equal};

verus! {

/// Whether a contact is a person or an organization.
#[derive(Debug, Clone, Copy, PartialEq, Eq)]
pub enum ContactKind {
    Person,
    Organization,
}

/// The value a date component holds when it is not given.
pub const NS_DATE_COMPONENT_UNDEFINED: i64 = i64::MAX;

/// A birthday as year, month and day; the year is
/// `NS_DATE_COMPONENT_UNDEFINED` where none is given.
#[derive(Debug, Clone, Copy, PartialEq, Eq)]
pub struct BirthdayComponents {
    pub year: i64,
    pub month: i64,
    pub day: i64,
}

impl BirthdayComponents {
    pub fn year(&self) -> (r: i64)
        ensures
            r == self.year,
    {
        self.year
    }

    pub fn month(&self) -> (r: i64)
        ensures
            r == self.month,
    {
        self.month
    }

    pub fn day(&self) -> (r: i64)
        ensures
            r == self.day,
    {
        self.day
    }
}

/// The contact type named by `s`, if it names one.
pub open spec fn contact_kind_named(s: Seq<char>) -> Option<ContactKind> {
    if s == "person"@ {
        Some(ContactKind::Person)
    } else if s == "organization"@ {
        Some(ContactKind::Organization)
    } else {
        None
    }
}

/// The text of the error for a contact type that names none.
pub open spec fn contact_type_error(s: Seq<char>) -> Seq<char> {
    "contact_type must be 'person' or 'organization', got '"@ + s + "'"@
}

/// Accepts exactly `"person"` and `"organization"`.
pub fn parse_contact_type(s: &str) -> (r: Result<ContactKind, ContactsError>)
    ensures
        match contact_kind_named(s@) {
            Some(k) => r == Ok::<ContactKind, ContactsError>(k),
            None => r matches Err(ContactsError::InvalidInput(m)) && m@ == contact_type_error(s@),
        },
{
    if str_equal(s, "person") {
        proof {
            reveal_strlit("person");
        }
        Ok(ContactKind::Person)
    } else if str_equal(s, "organization") {
        Ok(ContactKind::Organization)
    } else {
        let mut m = String::new();
        push_str(&mut m, "contact_type must be 'person' or 'organization', got '");
        push_str(&mut m, s);
        push_str(&mut m, "'");
        Err(ContactsError::InvalidInput(m))
    }
}

pub open spec fn is_ascii_digit(c: char) -> bool {
    '0' <= c && c <= '9'
}

/// The `n` characters of `s` from `at` on are ASCII digits.
pub open spec fn digits_at(s: Seq<char>, at: int, n: int) -> bool {
    &&& 0 <= at
    &&& at + n <= s.len()
    &&& forall|i: int| at <= i < at + n ==> is_ascii_digit(#[trigger] s[i])
}

/// The number that a string of ASCII digits spells in decimal.
pub open spec fn digits_value(d: Seq<char>) -> nat
    decreases d.len(),
{
    if d.len() == 0 {
        0
    } else {
        digits_value(d.drop_last()) * 10 + ((d.last() as nat) - 48) as nat
    }
}

/// The month and day that `t` spells in the form `MM-DD`: two ASCII digits,
/// `'-'`, two ASCII digits, with the month in 1..=12 and the day in 1..=31.
pub open spec fn month_day_named(t: Seq<char>) -> Option<(int, int)> {
    if t.len() == 5 && digits_at(t, 0, 2) && t[2] == '-' && digits_at(t, 3, 2) {
        let month = digits_value(t.take(2)) as int;
        let day = digits_value(t.subrange(3, 5)) as int;
        if 1 <= month <= 12 && 1 <= day <= 31 {
            Some((month, day))
        } else {
            None
        }
    } else {
        None
    }
}

/// The birthday that `s` spells: exactly `YYYY-MM-DD` (four ASCII digits for
/// the year) or `--MM-DD` (no year), the month and day as `month_day_named`
/// reads them. Nothing else is a birthday: no sign, no other width, no
/// surrounding text.
pub open spec fn birthday_named(s: Seq<char>) -> Option<BirthdayComponents> {
    if s.len() >= 2 && s[0] == '-' && s[1] == '-' {
        match month_day_named(s.skip(2)) {
            Some((month, day)) => Some(
                BirthdayComponents {
                    year: NS_DATE_COMPONENT_UNDEFINED,
                    month: month as i64,
                    day: day as i64,
                },
            ),
            None => None,
        }
    } else if digits_at(s, 0, 4) && s.len() >= 5 && s[4] == '-' {
        match month_day_named(s.skip(5)) {
            Some((month, day)) => Some(
                BirthdayComponents {
                    year: digits_value(s.take(4)) as i64,
                    month: month as i64,
                    day: day as i64,
                },
            ),
            None => None,
        }
    } else {
        None
    }
}

/// The text of the error for a birthday that spells none.
pub open spec fn birthday_error(s: Seq<char>) -> Seq<char> {
    "birthday must be 'YYYY-MM-DD' or '--MM-DD', got '"@ + s + "'"@
}

fn is_digit(c: char) -> (r: bool)
    ensures
        r == is_ascii_digit(c),
{
    '0' <= c && c <= '9'
}

/// The value of the digits at `at` and `at + 1`.
fn two_digits(cs: &Vec<char>, at: usize) -> (v: i64)
    requires
        digits_at(cs@, at as int, 2),
    ensures
        v == digits_value(cs@.subrange(at as int, at + 2)),
        0 <= v <= 99,
{
    let len = cs.len();
    assert(at + 1 < len);
    let a = cs[at];
    let b = cs[at + 1];
    assert(is_ascii_digit(cs@[at as int]) && is_ascii_digit(cs@[at + 1]));
    let ghost t = cs@.subrange(at as int, at + 2);
    proof {
        let t1 = t.drop_last();
        assert(t1.drop_last() =~= Seq::<char>::empty());
        assert(t1.last() == a);
        assert(t.last() == b);
        assert(digits_value(t1.drop_last()) == 0);
        assert(digits_value(t1) == (a as nat) - 48);
        assert(digits_value(t) == digits_value(t1) * 10 + ((b as nat) - 48));
    }
    ((a as u32 - 48) as i64) * 10 + ((b as u32 - 48) as i64)
}

/// The value of the four digits at the start of `cs`.
fn four_digits(cs: &Vec<char>) -> (v: i64)
    requires
        digits_at(cs@, 0, 4),
    ensures
        v == digits_value(cs@.take(4)),
{
    let hi = two_digits(cs, 0);
    let lo = two_digits(cs, 2);
    proof {
        lemma_digits_value_split(cs@.take(4), 2);
        assert(cs@.take(4).take(2) == cs@.subrange(0, 2));
        assert(cs@.take(4).skip(2) == cs@.subrange(2, 4));
    }
    hi * 100 + lo
}

/// The value of digits split after `k` of them: the high part times ten to
/// the number of low digits, plus the low part (here for two low digits).
proof fn lemma_digits_value_split(d: Seq<char>, k: int)
    requires
        d.len() == k + 2,
        k >= 0,
    ensures
        digits_value(d) == digits_value(d.take(k)) * 100 + digits_value(d.skip(k)),
{
    let lo = d.skip(k);
    let d1 = d.drop_last();
    let l1 = lo.drop_last();
    assert(d1.drop_last() == d.take(k));
    assert(l1.drop_last() =~= Seq::<char>::empty());
    assert(digits_value(l1.drop_last()) == 0);
    assert(l1.last() == d1.last());
    assert(lo.last() == d.last());
    let e0: nat = ((d1.last() as nat) - 48) as nat;
    let e1: nat = ((d.last() as nat) - 48) as nat;
    assert(digits_value(l1) == e0);
    assert(digits_value(lo) == e0 * 10 + e1);
    assert(digits_value(d1) == digits_value(d.take(k)) * 10 + e0);
    assert(digits_value(d) == digits_value(d1) * 10 + e1);
}

/// The month and day of the text `MM-DD` that starts at `from`.
fn month_day_at(cs: &Vec<char>, from: usize) -> (r: Option<(i64, i64)>)
    requires
        from <= cs@.len(),
    ensures
        match month_day_named(cs@.skip(from as int)) {
            Some((m, d)) => r == Some((m as i64, d as i64)),
            None => r is None,
        },
{
    let ghost t = cs@.skip(from as int);
    if cs.len() - from != 5 {
        return None;
    }
    if !(is_digit(cs[from]) && is_digit(cs[from + 1]) && cs[from + 2] == '-' && is_digit(cs[from + 3])
        && is_digit(cs[from + 4])) {
        proof {
            assert(t[0] == cs@[from as int] && t[1] == cs@[from + 1] && t[2] == cs@[from + 2]);
            assert(t[3] == cs@[from + 3] && t[4] == cs@[from + 4]);
            if digits_at(t, 0, 2) && digits_at(t, 3, 2) {
                assert(is_ascii_digit(t[0]) && is_ascii_digit(t[1]));
                assert(is_ascii_digit(t[3]) && is_ascii_digit(t[4]));
            }
        }
        return None;
    }
    proof {
        assert forall|i: int| from <= i < from + 2 implies is_ascii_digit(#[trigger] cs@[i]) by {
            if i == from {
            } else {
                assert(i == from + 1);
            }
        }
        assert forall|i: int| from + 3 <= i < from + 5 implies is_ascii_digit(#[trigger] cs@[i]) by {
            if i == from + 3 {
            } else {
                assert(i == from + 4);
            }
        }
        assert forall|i: int| 0 <= i < 2 implies is_ascii_digit(#[trigger] t[i]) by {
            assert(t[i] == cs@[from + i]);
        }
        assert forall|i: int| 3 <= i < 5 implies is_ascii_digit(#[trigger] t[i]) by {
            assert(t[i] == cs@[from + i]);
        }
        assert(t.take(2) == cs@.subrange(from as int, from + 2));
        assert(t.subrange(3, 5) == cs@.subrange(from + 3, from + 5));
    }
    let month = two_digits(cs, from);
    let day = two_digits(cs, from + 3);
    if 1 <= month && month <= 12 && 1 <= day && day <= 31 {
        Some((month, day))
    } else {
        None
    }
}

/// Reads a birthday given exactly as `YYYY-MM-DD` (four-digit year) or
/// `--MM-DD` (no year); the month must be 1..=12 and the day 1..=31.
pub fn parse_birthday(s: &str) -> (r: Result<BirthdayComponents, ContactsError>)
    ensures
        match birthday_named(s@) {
            Some(b) => r == Ok::<BirthdayComponents, ContactsError>(b),
            None => r matches Err(ContactsError::InvalidInput(m)) && m@ == birthday_error(s@),
        },
{
    let cs = chars_of(s);
    let n = cs.len();
    let outcome: Option<BirthdayComponents> = if n >= 2 && cs[0] == '-' && cs[1] == '-' {
        match month_day_at(&cs, 2) {
            Some((month, day)) => Some(
                BirthdayComponents { year: NS_DATE_COMPONENT_UNDEFINED, month, day },
            ),
            None => None,
        }
    } else if n >= 5 && is_digit(cs[0]) && is_digit(cs[1]) && is_digit(cs[2]) && is_digit(cs[3])
        && cs[4] == '-' {
        proof {
            assert forall|i: int| 0 <= i < 4 implies is_ascii_digit(#[trigger] cs@[i]) by {
                if i == 0 {
                } else if i == 1 {
                } else if i == 2 {
                } else {
                    assert(i == 3);
                }
            }
        }
        let year = four_digits(&cs);
        match month_day_at(&cs, 5) {
            Some((month, day)) => Some(BirthdayComponents { year, month, day }),
            None => None,
        }
    } else {
        proof {
            if digits_at(cs@, 0, 4) && cs@.len() >= 5 {
                assert(is_ascii_digit(cs@[0]) && is_ascii_digit(cs@[1]));
                assert(is_ascii_digit(cs@[2]) && is_ascii_digit(cs@[3]));
            }
        }
        None
    };
    match outcome {
        Some(b) => Ok(b),
        None => {
            let mut m = String::new();
            push_str(&mut m, "birthday must be 'YYYY-MM-DD' or '--MM-DD', got '");
            push_str(&mut m, s);
            push_str(&mut m, "'");
            Err(ContactsError::InvalidInput(m))
        },
    }
}


/// The number a pair of ASCII digits spells.
pub open spec fn two_digit_number(tens: char, ones: char) -> int {
    (tens as int - 48) * 10 + (ones as int - 48)
}

/// A birthday is read from its digits where they stand: `--MM-DD` (seven
/// characters) or `YYYY-MM-DD` (ten), the month from the two digits after
/// the date's first separator, the day from the last two, the year from the
/// first four digits, or none for `--`. The month is always in 1..=12 and
/// the day in 1..=31; and every text of that shape with such a month and day
/// is read.
pub proof fn law_birthday_reads_its_digits(s: Seq<char>)
    ensures
        birthday_named(s) matches Some(b) ==> {
            &&& s.len() == 7 || s.len() == 10
            &&& s[s.len() - 3] == '-'
            &&& is_ascii_digit(s[s.len() - 5]) && is_ascii_digit(s[s.len() - 4])
            &&& is_ascii_digit(s[s.len() - 2]) && is_ascii_digit(s[s.len() - 1])
            &&& b.month == two_digit_number(s[s.len() - 5], s[s.len() - 4])
            &&& b.day == two_digit_number(s[s.len() - 2], s[s.len() - 1])
            &&& 1 <= b.month <= 12
            &&& 1 <= b.day <= 31
            &&& s.len() == 7 ==> s[0] == '-' && s[1] == '-' && b.year == NS_DATE_COMPONENT_UNDEFINED
            &&& s.len() == 10 ==> {
                &&& s[4] == '-'
                &&& is_ascii_digit(s[0]) && is_ascii_digit(s[1])
                &&& is_ascii_digit(s[2]) && is_ascii_digit(s[3])
                &&& b.year == two_digit_number(s[0], s[1]) * 100 + two_digit_number(s[2], s[3])
            }
        },
        ({
            &&& s.len() == 7 || s.len() == 10
            &&& s[s.len() - 3] == '-'
            &&& is_ascii_digit(s[s.len() - 5]) && is_ascii_digit(s[s.len() - 4])
            &&& is_ascii_digit(s[s.len() - 2]) && is_ascii_digit(s[s.len() - 1])
            &&& 1 <= two_digit_number(s[s.len() - 5], s[s.len() - 4]) <= 12
            &&& 1 <= two_digit_number(s[s.len() - 2], s[s.len() - 1]) <= 31
            &&& s.len() == 7 ==> s[0] == '-' && s[1] == '-'
            &&& s.len() == 10 ==> {
                &&& s[4] == '-'
                &&& is_ascii_digit(s[0]) && is_ascii_digit(s[1])
                &&& is_ascii_digit(s[2]) && is_ascii_digit(s[3])
            }
        }) ==> birthday_named(s) is Some,
{
    reveal_with_fuel(digits_value, 5);
    if s.len() >= 2 && s[0] == '-' && s[1] == '-' {
        lemma_month_day_digits(s.skip(2));
    } else if s.len() >= 5 {
        lemma_month_day_digits(s.skip(5));
        let y = s.take(4);
        assert(y.drop_last() =~= s.take(3));
        assert(s.take(3).drop_last() =~= s.take(2));
        assert(s.take(2).drop_last() =~= s.take(1));
        assert(s.take(1).drop_last() =~= Seq::<char>::empty());
    }
}

/// `month_day_named` reads the two digit pairs of `MM-DD`.
proof fn lemma_month_day_digits(t: Seq<char>)
    ensures
        month_day_named(t) matches Some((m, d)) ==> {
            &&& t.len() == 5
            &&& t[2] == '-'
            &&& is_ascii_digit(t[0]) && is_ascii_digit(t[1])
            &&& is_ascii_digit(t[3]) && is_ascii_digit(t[4])
            &&& m == two_digit_number(t[0], t[1])
            &&& d == two_digit_number(t[3], t[4])
            &&& 1 <= m <= 12
            &&& 1 <= d <= 31
        },
        (t.len() == 5 && t[2] == '-' && is_ascii_digit(t[0]) && is_ascii_digit(t[1])
            && is_ascii_digit(t[3]) && is_ascii_digit(t[4]) && 1 <= two_digit_number(t[0], t[1])
            <= 12 && 1 <= two_digit_number(t[3], t[4]) <= 31) ==> month_day_named(t) is Some,
{
    reveal_with_fuel(digits_value, 3);
    if t.len() == 5 {
        assert(t.take(2).drop_last() =~= t.take(1));
        assert(t.take(1).drop_last() =~= Seq::<char>::empty());
        assert(t.subrange(3, 5).drop_last() =~= t.subrange(3, 4));
        assert(t.subrange(3, 4).drop_last() =~= Seq::<char>::empty());
        if is_ascii_digit(t[0]) && is_ascii_digit(t[1]) && is_ascii_digit(t[3]) && is_ascii_digit(t[4]) {
            assert(digits_at(t, 0, 2));
            assert(digits_at(t, 3, 2));
        }
    }
}

} // verus!
