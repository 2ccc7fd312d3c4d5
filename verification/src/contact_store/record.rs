//! Turning what the store holds for a contact into the client's `Contact`.

use vstd::prelude::*;

use crate::contact_store::fields::{BirthdayComponents, NS_DATE_COMPONENT_UNDEFINED};
use crate::models::Contact;
use crate::text::{opt_view, push_str, push_zero_padded, views, zero_padded};

verus! {

/// The parts of a postal address as the store holds them; a missing part is
/// an empty string.
#[derive(Debug, Clone, Default)]
pub struct PostalFields {
    pub street: String,
    pub city: String,
    pub state: String,
    pub postal_code: String,
    pub country: String,
}

impl PostalFields {
    /// The parts in reading order.
    pub open spec fn parts(&self) -> Seq<Seq<char>> {
        seq![self.street@, self.city@, self.state@, self.postal_code@, self.country@]
    }
}

/// Everything the store holds for one contact, as plain text and numbers.
#[derive(Debug, Clone)]
pub struct ContactRecord {
    pub identifier: String,
    pub is_organization: bool,
    pub name_prefix: String,
    pub given_name: String,
    pub middle_name: String,
    pub family_name: String,
    pub name_suffix: String,
    pub nickname: String,
    pub organization_name: String,
    pub department_name: String,
    pub job_title: String,
    pub phonetic_given_name: String,
    pub phonetic_middle_name: String,
    pub phonetic_family_name: String,
    pub phonetic_organization_name: String,
    pub emails: Vec<String>,
    pub phones: Vec<String>,
    pub urls: Vec<String>,
    pub postal_addresses: Vec<PostalFields>,
    pub birthday: Option<BirthdayComponents>,
}

/// `None` for empty text, the text otherwise.
pub open spec fn text_or_none(s: Seq<char>) -> Option<Seq<char>> {
    if s.len() == 0 {
        None
    } else {
        Some(s)
    }
}

pub fn none_if_empty(s: String) -> (r: Option<String>)
    ensures
        s@.len() == 0 ==> r is None,
        s@.len() > 0 ==> r == Some(s),
{
    if s.as_str().is_empty() {
        None
    } else {
        Some(s)
    }
}

/// The non-empty parts joined with `", "`.
pub open spec fn joined_nonempty(parts: Seq<Seq<char>>) -> Seq<char>
    decreases parts.len(),
{
    if parts.len() == 0 {
        Seq::empty()
    } else {
        let init = joined_nonempty(parts.drop_last());
        let last = parts.last();
        if last.len() == 0 {
            init
        } else if init.len() == 0 {
            last
        } else {
            init + ", "@ + last
        }
    }
}

/// An address's one-line form is empty exactly when every part is empty.
pub proof fn law_address_line_empty_iff_no_parts(parts: Seq<Seq<char>>)
    ensures
        joined_nonempty(parts).len() == 0 <==> forall|i: int| 0 <= i < parts.len() ==> #[trigger] parts[i].len() == 0,
    decreases parts.len(),
{
    if parts.len() > 0 {
        let init = parts.drop_last();
        law_address_line_empty_iff_no_parts(init);
        assert forall|i: int| 0 <= i < init.len() implies init[i] == parts[i] by {}
        if joined_nonempty(parts).len() == 0 {
            assert forall|i: int| 0 <= i < parts.len() implies #[trigger] parts[i].len() == 0 by {
                if i < init.len() {
                    assert(init[i] == parts[i]);
                }
            }
        }
    }
}

/// Texts joined with `", "` between each two.
pub open spec fn joined(parts: Seq<Seq<char>>) -> Seq<char>
    decreases parts.len(),
{
    if parts.len() == 0 {
        Seq::empty()
    } else if parts.len() == 1 {
        parts[0]
    } else {
        joined(parts.drop_last()) + ", "@ + parts.last()
    }
}

/// The parts that hold text, in order.
pub open spec fn nonempty_parts(parts: Seq<Seq<char>>) -> Seq<Seq<char>> {
    parts.filter(|x: Seq<char>| x.len() > 0)
}

/// An address's one-line form is its parts that hold text, in order, joined
/// with `", "`: empty parts leave no trace, not even a separator.
pub proof fn law_address_line_joins_nonempty_parts(parts: Seq<Seq<char>>)
    ensures
        joined_nonempty(parts) == joined(nonempty_parts(parts)),
        joined_nonempty(parts).len() == 0 <==> nonempty_parts(parts).len() == 0,
    decreases parts.len(),
{
    reveal_strlit(", ");
    if parts.len() > 0 {
        let init = parts.drop_last();
        let last = parts.last();
        law_address_line_joins_nonempty_parts(init);
        let q = nonempty_parts(init);
        assert(nonempty_parts(parts) == (if last.len() > 0 { q.push(last) } else { q })) by {
            reveal_with_fuel(Seq::filter, 2);
        }
        if last.len() > 0 {
            if q.len() > 0 {
                assert(q.push(last).drop_last() == q);
                assert(q.push(last).last() == last);
            } else {
                assert(q.push(last).len() == 1);
                assert(q.push(last)[0] == last);
            }
        }
    }
}

/// Adds one more part to a join of non-empty parts.
fn join_part(out: &mut String, part: &str)
    ensures
        final(out)@ == (if part@.len() == 0 {
            old(out)@
        } else if old(out)@.len() == 0 {
            part@
        } else {
            old(out)@ + ", "@ + part@
        }),
{
    if !part.is_empty() {
        if !out.as_str().is_empty() {
            push_str(out, ", ");
        }
        push_str(out, part);
    }
}

proof fn lemma_join_step(p: Seq<Seq<char>>, k: int)
    requires
        0 <= k < p.len(),
    ensures
        joined_nonempty(p.take(k + 1)) == (if p[k].len() == 0 {
            joined_nonempty(p.take(k))
        } else if joined_nonempty(p.take(k)).len() == 0 {
            p[k]
        } else {
            joined_nonempty(p.take(k)) + ", "@ + p[k]
        }),
{
    assert(p.take(k + 1).drop_last() == p.take(k));
}

/// The one-line form of an address: its non-empty parts joined with `", "`.
pub fn format_postal_address(addr: &PostalFields) -> (r: String)
    ensures
        r@ == joined_nonempty(addr.parts()),
{
    let ghost p = addr.parts();
    let mut out = String::new();
    proof {
        assert(p.take(0).len() == 0);
    }
    join_part(&mut out, addr.street.as_str());
    proof {
        lemma_join_step(p, 0);
    }
    join_part(&mut out, addr.city.as_str());
    proof {
        lemma_join_step(p, 1);
    }
    join_part(&mut out, addr.state.as_str());
    proof {
        lemma_join_step(p, 2);
    }
    join_part(&mut out, addr.postal_code.as_str());
    proof {
        lemma_join_step(p, 3);
    }
    join_part(&mut out, addr.country.as_str());
    proof {
        lemma_join_step(p, 4);
        assert(p.take(5) == p);
    }
    out
}

/// The one-line forms of a list of addresses.
pub fn format_postal_addresses(addrs: &Vec<PostalFields>) -> (r: Vec<String>)
    ensures
        r@.len() == addrs@.len(),
        forall|i: int| 0 <= i < addrs@.len() ==> #[trigger] r@[i]@ == joined_nonempty(addrs@[i].parts()),
{
    let mut r: Vec<String> = Vec::new();
    let mut i: usize = 0;
    while i < addrs.len()
        invariant
            i <= addrs@.len(),
            r@.len() == i,
            forall|j: int| 0 <= j < i ==> #[trigger] r@[j]@ == joined_nonempty(addrs@[j].parts()),
        decreases addrs@.len() - i,
    {
        r.push(format_postal_address(&addrs[i]));
        i = i + 1;
    }
    r
}

/// A birthday as text: `YYYY-MM-DD`, or `--MM-DD` where no year is given,
/// each number zero-padded to its width.
pub open spec fn birthday_text(b: BirthdayComponents) -> Seq<char> {
    if b.year == NS_DATE_COMPONENT_UNDEFINED {
        "--"@ + zero_padded(b.month as int, 2) + "-"@ + zero_padded(b.day as int, 2)
    } else {
        zero_padded(b.year as int, 4) + "-"@ + zero_padded(b.month as int, 2) + "-"@
            + zero_padded(b.day as int, 2)
    }
}

pub fn format_birthday(b: &BirthdayComponents) -> (r: String)
    ensures
        r@ == birthday_text(*b),
{
    let mut out = String::new();
    if b.year == NS_DATE_COMPONENT_UNDEFINED {
        push_str(&mut out, "--");
    } else {
        push_zero_padded(&mut out, b.year, 4);
        push_str(&mut out, "-");
    }
    push_zero_padded(&mut out, b.month, 2);
    push_str(&mut out, "-");
    push_zero_padded(&mut out, b.day, 2);
    out
}

/// The name a contact is shown under: first and last name where both are
/// given, whichever one is given otherwise, and the organization where
/// neither is.
pub open spec fn display_name(first: Seq<char>, last: Seq<char>, org: Seq<char>) -> Seq<char> {
    if first.len() > 0 && last.len() > 0 {
        first + " "@ + last
    } else if first.len() > 0 {
        first
    } else if last.len() > 0 {
        last
    } else {
        org
    }
}

fn full_name_of(first: &String, last: &String, org: &String) -> (r: String)
    ensures
        r@ == display_name(first@, last@, org@),
{
    let mut out = String::new();
    if !first.as_str().is_empty() && !last.as_str().is_empty() {
        push_str(&mut out, first.as_str());
        push_str(&mut out, " ");
        push_str(&mut out, last.as_str());
    } else if !first.as_str().is_empty() {
        push_str(&mut out, first.as_str());
    } else if !last.as_str().is_empty() {
        push_str(&mut out, last.as_str());
    } else {
        push_str(&mut out, org.as_str());
    }
    out
}

/// The type name shown for a contact.
pub open spec fn contact_type_text(is_organization: bool) -> Seq<char> {
    if is_organization {
        "organization"@
    } else {
        "person"@
    }
}

/// `c` is the client's view of the stored contact `rec`.
pub open spec fn shows_record(c: Contact, rec: ContactRecord) -> bool {
    &&& c.id@ == rec.identifier@
    &&& c.contact_type@ == contact_type_text(rec.is_organization)
    &&& c.first_name@ == rec.given_name@
    &&& c.last_name@ == rec.family_name@
    &&& c.full_name@ == display_name(rec.given_name@, rec.family_name@, rec.organization_name@)
    &&& opt_view(c.name_prefix) == text_or_none(rec.name_prefix@)
    &&& opt_view(c.middle_name) == text_or_none(rec.middle_name@)
    &&& opt_view(c.name_suffix) == text_or_none(rec.name_suffix@)
    &&& opt_view(c.nickname) == text_or_none(rec.nickname@)
    &&& opt_view(c.phonetic_given_name) == text_or_none(rec.phonetic_given_name@)
    &&& opt_view(c.phonetic_middle_name) == text_or_none(rec.phonetic_middle_name@)
    &&& opt_view(c.phonetic_family_name) == text_or_none(rec.phonetic_family_name@)
    &&& opt_view(c.phonetic_organization_name) == text_or_none(rec.phonetic_organization_name@)
    &&& views(c.emails@) == views(rec.emails@)
    &&& views(c.phones@) == views(rec.phones@)
    &&& views(c.urls@) == views(rec.urls@)
    &&& opt_view(c.organization) == text_or_none(rec.organization_name@)
    &&& opt_view(c.department) == text_or_none(rec.department_name@)
    &&& opt_view(c.job_title) == text_or_none(rec.job_title@)
    &&& c.note is None
    &&& opt_view(c.birthday) == (match rec.birthday {
        Some(b) => Some(birthday_text(b)),
        None => None::<Seq<char>>,
    })
    &&& c.addresses@.len() == rec.postal_addresses@.len()
    &&& forall|i: int|
        0 <= i < rec.postal_addresses@.len() ==> #[trigger] c.addresses@[i]@ == joined_nonempty(
            rec.postal_addresses@[i].parts(),
        )
}

/// The client's view of a stored contact.
///
/// The note is never read: reading it needs an entitlement the process
/// does not hold, so it is always `None` here.
pub fn contact_from_record(rec: ContactRecord) -> (c: Contact)
    ensures
        shows_record(c, rec),
{
    let contact_type = if rec.is_organization {
        crate::text::string_of("organization")
    } else {
        crate::text::string_of("person")
    };
    let full_name = full_name_of(&rec.given_name, &rec.family_name, &rec.organization_name);
    let addresses = format_postal_addresses(&rec.postal_addresses);
    let birthday = match &rec.birthday {
        Some(b) => Some(format_birthday(b)),
        None => None,
    };
    Contact {
        id: rec.identifier,
        contact_type,
        first_name: rec.given_name,
        last_name: rec.family_name,
        full_name,
        name_prefix: none_if_empty(rec.name_prefix),
        middle_name: none_if_empty(rec.middle_name),
        name_suffix: none_if_empty(rec.name_suffix),
        nickname: none_if_empty(rec.nickname),
        phonetic_given_name: none_if_empty(rec.phonetic_given_name),
        phonetic_middle_name: none_if_empty(rec.phonetic_middle_name),
        phonetic_family_name: none_if_empty(rec.phonetic_family_name),
        phonetic_organization_name: none_if_empty(rec.phonetic_organization_name),
        emails: rec.emails,
        phones: rec.phones,
        urls: rec.urls,
        organization: none_if_empty(rec.organization_name),
        department: none_if_empty(rec.department_name),
        job_title: none_if_empty(rec.job_title),
        note: None,
        birthday,
        addresses,
    }
}


/// A contact's display name: the given and family names joined by one
/// space where both are set, whatever the organization; the one that is set
/// where only one is; the organization only where neither name is set.
pub proof fn law_full_name_prefers_the_person(c: Contact, rec: ContactRecord)
    requires
        shows_record(c, rec),
    ensures
        rec.given_name@.len() > 0 && rec.family_name@.len() > 0 ==> c.full_name@ == rec.given_name@
            + " "@ + rec.family_name@,
        rec.given_name@.len() > 0 && rec.family_name@.len() == 0 ==> c.full_name@
            == rec.given_name@,
        rec.given_name@.len() == 0 && rec.family_name@.len() > 0 ==> c.full_name@
            == rec.family_name@,
        rec.given_name@.len() == 0 && rec.family_name@.len() == 0 ==> c.full_name@
            == rec.organization_name@,
        forall|other: Seq<char>|
            rec.given_name@.len() > 0 || rec.family_name@.len() > 0 ==> #[trigger] display_name(
                rec.given_name@,
                rec.family_name@,
                other,
            ) == c.full_name@,
{
}

} // verus!
