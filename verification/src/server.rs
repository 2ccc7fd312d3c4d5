//! What the MCP tools accept: the shape of each tool's input and the checks
//! made on it before the store is asked.

use vstd::prelude::*;

use crate::contact_store::params::{
    ContactsCreateParams, ContactsUpdateParams, EmailOp, PhoneOp, PostalAddressData, PostalOp, UrlOp,
};
use crate::text::{decimal, opt_ref_view, opt_view, push_decimal, push_str, string_of};

verus! {

// Input length caps, in bytes. Oversized strings are refused here rather than
// handed to the contacts framework, whose limits and failure modes vary by
// system version.

/// Cap on each name field: prefix, first, middle, last, suffix, nickname and
/// the phonetic names.
pub const MAX_NAME_LEN: usize = 256;

/// The longest email address a mail path allows.
pub const MAX_EMAIL_LEN: usize = 320;

pub const MAX_PHONE_LEN: usize = 64;

pub const MAX_URL_LEN: usize = 2048;

pub const MAX_ORG_LEN: usize = 256;

pub const MAX_DEPARTMENT_LEN: usize = 256;

pub const MAX_JOB_LEN: usize = 256;

pub const MAX_NOTE_LEN: usize = 4096;

pub const MAX_BIRTHDAY_LEN: usize = 32;

pub const MAX_CONTACT_TYPE_LEN: usize = 32;

/// Cap on each part of a postal address.
pub const MAX_POSTAL_PART_LEN: usize = 512;

pub const MAX_ID_LEN: usize = 256;

pub const MAX_QUERY_LEN: usize = 256;

/// Input for `contacts_list`.
#[derive(Debug, Clone)]
pub struct ContactsListInput {
    /// Maximum number of contacts to return. If omitted, returns all contacts.
    pub limit: Option<usize>,
}

/// Input for `contacts_search`.
#[derive(Debug, Clone)]
pub struct ContactsSearchInput {
    /// Search query to match against contact names.
    pub query: String,
}

/// Input for `contacts_get`.
#[derive(Debug, Clone)]
pub struct ContactsGetInput {
    /// The unique contact identifier.
    pub id: String,
}

/// Input for `contacts_create`.
#[derive(Debug, Clone, Default)]
pub struct ContactsCreateInput {
    /// `"person"` (the default) or `"organization"`.
    pub contact_type: Option<String>,
    pub name_prefix: Option<String>,
    /// First name of the contact.
    pub first_name: Option<String>,
    pub middle_name: Option<String>,
    /// Last name of the contact.
    pub last_name: Option<String>,
    pub name_suffix: Option<String>,
    pub nickname: Option<String>,
    pub phonetic_given_name: Option<String>,
    pub phonetic_middle_name: Option<String>,
    pub phonetic_family_name: Option<String>,
    pub phonetic_organization_name: Option<String>,
    /// Email address (label "work").
    pub email: Option<String>,
    /// Phone number (label "mobile").
    pub phone: Option<String>,
    /// URL (label "homepage").
    pub url: Option<String>,
    /// Organization or company name.
    pub organization: Option<String>,
    pub department: Option<String>,
    /// Job title.
    pub job_title: Option<String>,
    /// A note about the contact.
    pub note: Option<String>,
    /// `YYYY-MM-DD`, or `--MM-DD` without a year.
    pub birthday: Option<String>,
    /// A postal address (label "home"); any subset of its parts.
    pub postal_address: Option<PostalAddressData>,
}

/// Input for `contacts_update`. Omitted fields are left alone. Each
/// `_from`/`_to` pair changes one multi-valued field: `_to` alone adds an
/// entry, `_from` alone removes the entry with that text, both replace it.
#[derive(Debug, Clone, Default)]
pub struct ContactsUpdateInput {
    /// The unique contact identifier.
    pub id: String,
    pub contact_type: Option<String>,
    pub name_prefix: Option<String>,
    /// New first name.
    pub first_name: Option<String>,
    pub middle_name: Option<String>,
    /// New last name.
    pub last_name: Option<String>,
    pub name_suffix: Option<String>,
    pub nickname: Option<String>,
    pub phonetic_given_name: Option<String>,
    pub phonetic_middle_name: Option<String>,
    pub phonetic_family_name: Option<String>,
    pub phonetic_organization_name: Option<String>,
    /// New organization name.
    pub organization: Option<String>,
    pub department: Option<String>,
    /// New job title.
    pub job_title: Option<String>,
    /// New note.
    pub note: Option<String>,
    pub birthday: Option<String>,
    pub phone_from: Option<String>,
    pub phone_to: Option<String>,
    pub email_from: Option<String>,
    pub email_to: Option<String>,
    pub url_from: Option<String>,
    pub url_to: Option<String>,
    /// The one-line form of the address to match, as `Contact.addresses` shows it.
    /// It has no cap: an address stored by other means may be longer than one
    /// made from capped parts.
    pub postal_from: Option<String>,
    pub postal_to: Option<PostalAddressData>,
}

/// Input for `contacts_delete`.
#[derive(Debug, Clone)]
pub struct ContactsDeleteInput {
    /// The unique contact identifier.
    pub id: String,
}

/// Input for `groups_members`.
#[derive(Debug, Clone)]
pub struct GroupsMembersInput {
    /// The group name to look up.
    pub name: String,
}

/// Why a tool's input was refused.
#[derive(Debug, Clone, PartialEq, Eq)]
pub enum ParamError {
    /// A field is longer than its cap; `len` and `max` are in bytes.
    TooLong { field: String, len: usize, max: usize },
    /// A new contact needs a first name, a last name or an organization.
    MissingName,
}

/// The text of the error for a contact created without any name.
pub open spec fn missing_name_message() -> Seq<char> {
    "At least one of first_name, last_name, or organization is required"@
}

impl ParamError {
    /// The human-readable text of the error.
    pub open spec fn message(self) -> Seq<char> {
        match self {
            ParamError::TooLong { field, len, max } => field@ + " too long ("@ + decimal(len as nat)
                + " bytes, max "@ + decimal(max as nat) + ")"@,
            ParamError::MissingName => missing_name_message(),
        }
    }

    /// Renders the error as text.
    pub fn to_string(&self) -> (r: String)
        ensures
            r@ == self.message(),
    {
        let mut out = String::new();
        match self {
            ParamError::TooLong { field, len, max } => {
                push_str(&mut out, field.as_str());
                push_str(&mut out, " too long (");
                push_decimal(&mut out, *len as u64);
                push_str(&mut out, " bytes, max ");
                push_decimal(&mut out, *max as u64);
                push_str(&mut out, ")");
            },
            ParamError::MissingName => {
                push_str(&mut out, "At least one of first_name, last_name, or organization is required");
            },
        }
        out
    }
}

/// The length in bytes of text with these characters, as `str::len` gives it.
pub open spec fn byte_len(s: Seq<char>) -> usize {
    vstd::utf8::encode_utf8(s).len() as usize
}

/// The cap a field breaks, as (field name, length, cap), if it breaks it.
pub open spec fn overlong(field: Seq<char>, value: Option<Seq<char>>, max: usize) -> Option<
    (Seq<char>, usize, usize),
> {
    match value {
        Some(v) => if byte_len(v) > max {
            Some((field, byte_len(v), max))
        } else {
            None
        },
        None => None,
    }
}

/// The first cap broken among checks made in order.
pub open spec fn first_overlong(checks: Seq<Option<(Seq<char>, usize, usize)>>) -> Option<
    (Seq<char>, usize, usize),
>
    decreases checks.len(),
{
    if checks.len() == 0 {
        None
    } else {
        match checks[0] {
            Some(c) => Some(c),
            None => first_overlong(checks.drop_first()),
        }
    }
}

/// `r` refuses with the broken cap `c`.
pub open spec fn refuses_overlong<T>(r: Result<T, ParamError>, c: (Seq<char>, usize, usize)) -> bool {
    r matches Err(ParamError::TooLong { field, len, max }) && field@ == c.0 && len == c.1 && max
        == c.2
}

/// Refuses `value` where it is longer than `max` bytes.
pub fn check_len(field: &str, value: &str, max: usize) -> (r: Result<(), ParamError>)
    ensures
        match overlong(field@, Some(value@), max) {
            Some(c) => refuses_overlong(r, c),
            None => r is Ok,
        },
{
    let len = value.len();
    if len > max {
        return Err(ParamError::TooLong { field: string_of(field), len, max });
    }
    Ok(())
}

/// Refuses `value`, where given, where it is longer than `max` bytes.
pub fn check_opt_len(field: &str, value: Option<&String>, max: usize) -> (r: Result<(), ParamError>)
    ensures
        match overlong(field@, opt_ref_view(value), max) {
            Some(c) => refuses_overlong(r, c),
            None => r is Ok,
        },
{
    if let Some(v) = value {
        check_len(field, v.as_str(), max)?;
    }
    Ok(())
}

/// A part of an optional postal address: 0 street, 1 city, 2 state,
/// 3 postal code, 4 country.
pub open spec fn postal_part(p: Option<PostalAddressData>, k: int) -> Option<Seq<char>> {
    match p {
        Some(d) => opt_view(
            if k == 0 {
                d.street
            } else if k == 1 {
                d.city
            } else if k == 2 {
                d.state
            } else if k == 3 {
                d.postal_code
            } else {
                d.country
            },
        ),
        None => None,
    }
}

fn postal_parts(p: &Option<PostalAddressData>) -> (r: (
    Option<&String>,
    Option<&String>,
    Option<&String>,
    Option<&String>,
    Option<&String>,
))
    ensures
        opt_ref_view(r.0) == postal_part(*p, 0),
        opt_ref_view(r.1) == postal_part(*p, 1),
        opt_ref_view(r.2) == postal_part(*p, 2),
        opt_ref_view(r.3) == postal_part(*p, 3),
        opt_ref_view(r.4) == postal_part(*p, 4),
{
    match p {
        Some(d) => (
            d.street.as_ref(),
            d.city.as_ref(),
            d.state.as_ref(),
            d.postal_code.as_ref(),
            d.country.as_ref(),
        ),
        None => (None, None, None, None, None),
    }
}

/// One length check: a field's name, its value where given, and its cap.
pub struct LenCheck<'a> {
    pub field: &'static str,
    pub value: Option<&'a String>,
    pub max: usize,
}

pub open spec fn len_check_view(c: LenCheck) -> Option<(Seq<char>, usize, usize)> {
    overlong(c.field@, opt_ref_view(c.value), c.max)
}

pub open spec fn len_checks_view(cs: Seq<LenCheck>) -> Seq<Option<(Seq<char>, usize, usize)>> {
    cs.map_values(|c: LenCheck| len_check_view(c))
}

proof fn lemma_first_overlong_skip(checks: Seq<Option<(Seq<char>, usize, usize)>>, i: int)
    requires
        0 <= i <= checks.len(),
        forall|j: int| 0 <= j < i ==> checks[j] is None,
    ensures
        first_overlong(checks) == first_overlong(checks.skip(i)),
    decreases i,
{
    if i > 0 {
        let rest = checks.drop_first();
        assert forall|j: int| 0 <= j < i - 1 implies rest[j] is None by {
            assert(rest[j] == checks[j + 1]);
        }
        lemma_first_overlong_skip(rest, i - 1);
        assert(rest.skip(i - 1) == checks.skip(i));
    } else {
        assert(checks.skip(0) == checks);
    }
}

/// Makes the checks in order and refuses the first value over its cap.
pub fn check_lengths(checks: &Vec<LenCheck>) -> (r: Result<(), ParamError>)
    ensures
        match first_overlong(len_checks_view(checks@)) {
            Some(c) => refuses_overlong(r, c),
            None => r is Ok,
        },
{
    let ghost views = len_checks_view(checks@);
    let mut i: usize = 0;
    while i < checks.len()
        invariant
            i <= checks@.len(),
            views == len_checks_view(checks@),
            forall|j: int| 0 <= j < i ==> views[j] is None,
        decreases checks@.len() - i,
    {
        let c = &checks[i];
        proof {
            assert(views[i as int] == len_check_view(checks@[i as int]));
            lemma_first_overlong_skip(views, i as int);
            assert(views.skip(i as int)[0] == views[i as int]);
        }
        check_opt_len(c.field, c.value, c.max)?;
        i = i + 1;
    }
    proof {
        lemma_first_overlong_skip(views, checks@.len() as int);
        assert(views.skip(checks@.len() as int).len() == 0);
    }
    Ok(())
}

/// The caps a create checks, in the order it checks them.
pub open spec fn create_checks(input: ContactsCreateInput) -> Seq<Option<(Seq<char>, usize, usize)>> {
    seq![
        overlong("contact_type"@, opt_view(input.contact_type), MAX_CONTACT_TYPE_LEN),
        overlong("name_prefix"@, opt_view(input.name_prefix), MAX_NAME_LEN),
        overlong("first_name"@, opt_view(input.first_name), MAX_NAME_LEN),
        overlong("middle_name"@, opt_view(input.middle_name), MAX_NAME_LEN),
        overlong("last_name"@, opt_view(input.last_name), MAX_NAME_LEN),
        overlong("name_suffix"@, opt_view(input.name_suffix), MAX_NAME_LEN),
        overlong("nickname"@, opt_view(input.nickname), MAX_NAME_LEN),
        overlong("phonetic_given_name"@, opt_view(input.phonetic_given_name), MAX_NAME_LEN),
        overlong("phonetic_middle_name"@, opt_view(input.phonetic_middle_name), MAX_NAME_LEN),
        overlong("phonetic_family_name"@, opt_view(input.phonetic_family_name), MAX_NAME_LEN),
        overlong(
            "phonetic_organization_name"@,
            opt_view(input.phonetic_organization_name),
            MAX_NAME_LEN,
        ),
        overlong("email"@, opt_view(input.email), MAX_EMAIL_LEN),
        overlong("phone"@, opt_view(input.phone), MAX_PHONE_LEN),
        overlong("url"@, opt_view(input.url), MAX_URL_LEN),
        overlong("organization"@, opt_view(input.organization), MAX_ORG_LEN),
        overlong("department"@, opt_view(input.department), MAX_DEPARTMENT_LEN),
        overlong("job_title"@, opt_view(input.job_title), MAX_JOB_LEN),
        overlong("note"@, opt_view(input.note), MAX_NOTE_LEN),
        overlong("birthday"@, opt_view(input.birthday), MAX_BIRTHDAY_LEN),
        overlong("postal_address.street"@, postal_part(input.postal_address, 0), MAX_POSTAL_PART_LEN),
        overlong("postal_address.city"@, postal_part(input.postal_address, 1), MAX_POSTAL_PART_LEN),
        overlong("postal_address.state"@, postal_part(input.postal_address, 2), MAX_POSTAL_PART_LEN),
        overlong(
            "postal_address.postal_code"@,
            postal_part(input.postal_address, 3),
            MAX_POSTAL_PART_LEN,
        ),
        overlong("postal_address.country"@, postal_part(input.postal_address, 4), MAX_POSTAL_PART_LEN),
    ]
}

/// The caps an update checks, in the order it checks them.
pub open spec fn update_checks(input: ContactsUpdateInput) -> Seq<Option<(Seq<char>, usize, usize)>> {
    seq![
        overlong("id"@, Some(input.id@), MAX_ID_LEN),
        overlong("contact_type"@, opt_view(input.contact_type), MAX_CONTACT_TYPE_LEN),
        overlong("name_prefix"@, opt_view(input.name_prefix), MAX_NAME_LEN),
        overlong("first_name"@, opt_view(input.first_name), MAX_NAME_LEN),
        overlong("middle_name"@, opt_view(input.middle_name), MAX_NAME_LEN),
        overlong("last_name"@, opt_view(input.last_name), MAX_NAME_LEN),
        overlong("name_suffix"@, opt_view(input.name_suffix), MAX_NAME_LEN),
        overlong("nickname"@, opt_view(input.nickname), MAX_NAME_LEN),
        overlong("phonetic_given_name"@, opt_view(input.phonetic_given_name), MAX_NAME_LEN),
        overlong("phonetic_middle_name"@, opt_view(input.phonetic_middle_name), MAX_NAME_LEN),
        overlong("phonetic_family_name"@, opt_view(input.phonetic_family_name), MAX_NAME_LEN),
        overlong(
            "phonetic_organization_name"@,
            opt_view(input.phonetic_organization_name),
            MAX_NAME_LEN,
        ),
        overlong("organization"@, opt_view(input.organization), MAX_ORG_LEN),
        overlong("department"@, opt_view(input.department), MAX_DEPARTMENT_LEN),
        overlong("job_title"@, opt_view(input.job_title), MAX_JOB_LEN),
        overlong("note"@, opt_view(input.note), MAX_NOTE_LEN),
        overlong("birthday"@, opt_view(input.birthday), MAX_BIRTHDAY_LEN),
        overlong("phone_from"@, opt_view(input.phone_from), MAX_PHONE_LEN),
        overlong("phone_to"@, opt_view(input.phone_to), MAX_PHONE_LEN),
        overlong("email_from"@, opt_view(input.email_from), MAX_EMAIL_LEN),
        overlong("email_to"@, opt_view(input.email_to), MAX_EMAIL_LEN),
        overlong("url_from"@, opt_view(input.url_from), MAX_URL_LEN),
        overlong("url_to"@, opt_view(input.url_to), MAX_URL_LEN),
        overlong("postal_to.street"@, postal_part(input.postal_to, 0), MAX_POSTAL_PART_LEN),
        overlong("postal_to.city"@, postal_part(input.postal_to, 1), MAX_POSTAL_PART_LEN),
        overlong("postal_to.state"@, postal_part(input.postal_to, 2), MAX_POSTAL_PART_LEN),
        overlong("postal_to.postal_code"@, postal_part(input.postal_to, 3), MAX_POSTAL_PART_LEN),
        overlong("postal_to.country"@, postal_part(input.postal_to, 4), MAX_POSTAL_PART_LEN),
    ]
}

/// The phone change a `phone_from`/`phone_to` pair asks for.
pub open spec fn phone_op_of(from: Option<String>, to: Option<String>) -> Option<PhoneOp> {
    match (from, to) {
        (None, None) => None,
        (None, Some(t)) => Some(PhoneOp::Add(t)),
        (Some(f), None) => Some(PhoneOp::Remove(f)),
        (Some(f), Some(t)) => Some(PhoneOp::Replace { from: f, to: t }),
    }
}

pub open spec fn email_op_of(from: Option<String>, to: Option<String>) -> Option<EmailOp> {
    match (from, to) {
        (None, None) => None,
        (None, Some(t)) => Some(EmailOp::Add(t)),
        (Some(f), None) => Some(EmailOp::Remove(f)),
        (Some(f), Some(t)) => Some(EmailOp::Replace { from: f, to: t }),
    }
}

pub open spec fn url_op_of(from: Option<String>, to: Option<String>) -> Option<UrlOp> {
    match (from, to) {
        (None, None) => None,
        (None, Some(t)) => Some(UrlOp::Add(t)),
        (Some(f), None) => Some(UrlOp::Remove(f)),
        (Some(f), Some(t)) => Some(UrlOp::Replace { from: f, to: t }),
    }
}

pub open spec fn postal_op_of(from: Option<String>, to: Option<PostalAddressData>) -> Option<PostalOp> {
    match (from, to) {
        (None, None) => None,
        (None, Some(t)) => Some(PostalOp::Add(t)),
        (Some(f), None) => Some(PostalOp::Remove(f)),
        (Some(f), Some(t)) => Some(PostalOp::Replace { from: f, to: t }),
    }
}

fn phone_op_from(from: Option<String>, to: Option<String>) -> (r: Option<PhoneOp>)
    ensures
        r == phone_op_of(from, to),
{
    match (from, to) {
        (None, None) => None,
        (None, Some(t)) => Some(PhoneOp::Add(t)),
        (Some(f), None) => Some(PhoneOp::Remove(f)),
        (Some(f), Some(t)) => Some(PhoneOp::Replace { from: f, to: t }),
    }
}

fn email_op_from(from: Option<String>, to: Option<String>) -> (r: Option<EmailOp>)
    ensures
        r == email_op_of(from, to),
{
    match (from, to) {
        (None, None) => None,
        (None, Some(t)) => Some(EmailOp::Add(t)),
        (Some(f), None) => Some(EmailOp::Remove(f)),
        (Some(f), Some(t)) => Some(EmailOp::Replace { from: f, to: t }),
    }
}

fn url_op_from(from: Option<String>, to: Option<String>) -> (r: Option<UrlOp>)
    ensures
        r == url_op_of(from, to),
{
    match (from, to) {
        (None, None) => None,
        (None, Some(t)) => Some(UrlOp::Add(t)),
        (Some(f), None) => Some(UrlOp::Remove(f)),
        (Some(f), Some(t)) => Some(UrlOp::Replace { from: f, to: t }),
    }
}

fn postal_op_from(from: Option<String>, to: Option<PostalAddressData>) -> (r: Option<PostalOp>)
    ensures
        r == postal_op_of(from, to),
{
    match (from, to) {
        (None, None) => None,
        (None, Some(t)) => Some(PostalOp::Add(t)),
        (Some(f), None) => Some(PostalOp::Remove(f)),
        (Some(f), Some(t)) => Some(PostalOp::Replace { from: f, to: t }),
    }
}

/// Makes the length checks of a create, in the order of `create_checks`.
fn check_create_lengths(input: &ContactsCreateInput) -> (r: Result<(), ParamError>)
    ensures
        match first_overlong(create_checks(*input)) {
            Some(c) => refuses_overlong(r, c),
            None => r is Ok,
        },
{
    let (street, city, state, postal_code, country) = postal_parts(&input.postal_address);
    let checks: Vec<LenCheck> = vec![
        LenCheck { field: "contact_type", value: input.contact_type.as_ref(), max: MAX_CONTACT_TYPE_LEN },
        LenCheck { field: "name_prefix", value: input.name_prefix.as_ref(), max: MAX_NAME_LEN },
        LenCheck { field: "first_name", value: input.first_name.as_ref(), max: MAX_NAME_LEN },
        LenCheck { field: "middle_name", value: input.middle_name.as_ref(), max: MAX_NAME_LEN },
        LenCheck { field: "last_name", value: input.last_name.as_ref(), max: MAX_NAME_LEN },
        LenCheck { field: "name_suffix", value: input.name_suffix.as_ref(), max: MAX_NAME_LEN },
        LenCheck { field: "nickname", value: input.nickname.as_ref(), max: MAX_NAME_LEN },
        LenCheck { field: "phonetic_given_name", value: input.phonetic_given_name.as_ref(), max: MAX_NAME_LEN },
        LenCheck { field: "phonetic_middle_name", value: input.phonetic_middle_name.as_ref(), max: MAX_NAME_LEN },
        LenCheck { field: "phonetic_family_name", value: input.phonetic_family_name.as_ref(), max: MAX_NAME_LEN },
        LenCheck {
            field: "phonetic_organization_name",
            value: input.phonetic_organization_name.as_ref(),
            max: MAX_NAME_LEN,
        },
        LenCheck { field: "email", value: input.email.as_ref(), max: MAX_EMAIL_LEN },
        LenCheck { field: "phone", value: input.phone.as_ref(), max: MAX_PHONE_LEN },
        LenCheck { field: "url", value: input.url.as_ref(), max: MAX_URL_LEN },
        LenCheck { field: "organization", value: input.organization.as_ref(), max: MAX_ORG_LEN },
        LenCheck { field: "department", value: input.department.as_ref(), max: MAX_DEPARTMENT_LEN },
        LenCheck { field: "job_title", value: input.job_title.as_ref(), max: MAX_JOB_LEN },
        LenCheck { field: "note", value: input.note.as_ref(), max: MAX_NOTE_LEN },
        LenCheck { field: "birthday", value: input.birthday.as_ref(), max: MAX_BIRTHDAY_LEN },
        LenCheck { field: "postal_address.street", value: street, max: MAX_POSTAL_PART_LEN },
        LenCheck { field: "postal_address.city", value: city, max: MAX_POSTAL_PART_LEN },
        LenCheck { field: "postal_address.state", value: state, max: MAX_POSTAL_PART_LEN },
        LenCheck { field: "postal_address.postal_code", value: postal_code, max: MAX_POSTAL_PART_LEN },
        LenCheck { field: "postal_address.country", value: country, max: MAX_POSTAL_PART_LEN },
    ];
    proof {
        assert(len_checks_view(checks@) =~= create_checks(*input));
    }
    check_lengths(&checks)
}

/// Makes the length checks of an update, in the order of `update_checks`.
fn check_update_lengths(input: &ContactsUpdateInput) -> (r: Result<(), ParamError>)
    ensures
        match first_overlong(update_checks(*input)) {
            Some(c) => refuses_overlong(r, c),
            None => r is Ok,
        },
{
    let (street, city, state, postal_code, country) = postal_parts(&input.postal_to);
    let checks: Vec<LenCheck> = vec![
        LenCheck { field: "contact_type", value: input.contact_type.as_ref(), max: MAX_CONTACT_TYPE_LEN },
        LenCheck { field: "name_prefix", value: input.name_prefix.as_ref(), max: MAX_NAME_LEN },
        LenCheck { field: "first_name", value: input.first_name.as_ref(), max: MAX_NAME_LEN },
        LenCheck { field: "middle_name", value: input.middle_name.as_ref(), max: MAX_NAME_LEN },
        LenCheck { field: "last_name", value: input.last_name.as_ref(), max: MAX_NAME_LEN },
        LenCheck { field: "name_suffix", value: input.name_suffix.as_ref(), max: MAX_NAME_LEN },
        LenCheck { field: "nickname", value: input.nickname.as_ref(), max: MAX_NAME_LEN },
        LenCheck { field: "phonetic_given_name", value: input.phonetic_given_name.as_ref(), max: MAX_NAME_LEN },
        LenCheck { field: "phonetic_middle_name", value: input.phonetic_middle_name.as_ref(), max: MAX_NAME_LEN },
        LenCheck { field: "phonetic_family_name", value: input.phonetic_family_name.as_ref(), max: MAX_NAME_LEN },
        LenCheck {
            field: "phonetic_organization_name",
            value: input.phonetic_organization_name.as_ref(),
            max: MAX_NAME_LEN,
        },
        LenCheck { field: "organization", value: input.organization.as_ref(), max: MAX_ORG_LEN },
        LenCheck { field: "department", value: input.department.as_ref(), max: MAX_DEPARTMENT_LEN },
        LenCheck { field: "job_title", value: input.job_title.as_ref(), max: MAX_JOB_LEN },
        LenCheck { field: "note", value: input.note.as_ref(), max: MAX_NOTE_LEN },
        LenCheck { field: "birthday", value: input.birthday.as_ref(), max: MAX_BIRTHDAY_LEN },
        LenCheck { field: "phone_from", value: input.phone_from.as_ref(), max: MAX_PHONE_LEN },
        LenCheck { field: "phone_to", value: input.phone_to.as_ref(), max: MAX_PHONE_LEN },
        LenCheck { field: "email_from", value: input.email_from.as_ref(), max: MAX_EMAIL_LEN },
        LenCheck { field: "email_to", value: input.email_to.as_ref(), max: MAX_EMAIL_LEN },
        LenCheck { field: "url_from", value: input.url_from.as_ref(), max: MAX_URL_LEN },
        LenCheck { field: "url_to", value: input.url_to.as_ref(), max: MAX_URL_LEN },
        LenCheck { field: "postal_to.street", value: street, max: MAX_POSTAL_PART_LEN },
        LenCheck { field: "postal_to.city", value: city, max: MAX_POSTAL_PART_LEN },
        LenCheck { field: "postal_to.state", value: state, max: MAX_POSTAL_PART_LEN },
        LenCheck { field: "postal_to.postal_code", value: postal_code, max: MAX_POSTAL_PART_LEN },
        LenCheck { field: "postal_to.country", value: country, max: MAX_POSTAL_PART_LEN },
    ];
    check_len("id", input.id.as_str(), MAX_ID_LEN)?;
    proof {
        assert(len_checks_view(checks@) =~= update_checks(*input).drop_first());
        assert(first_overlong(update_checks(*input)) == first_overlong(update_checks(*input).drop_first()));
    }
    check_lengths(&checks)
}

/// Checks a create request and turns it into what the store is asked to
/// create: a request without any name is refused first, then the first field
/// over its cap, in the order of `create_checks`.
pub fn validate_create(input: ContactsCreateInput) -> (r: Result<ContactsCreateParams, ParamError>)
    ensures
        input.first_name is None && input.last_name is None && input.organization is None ==> r
            matches Err(ParamError::MissingName),
        !(input.first_name is None && input.last_name is None && input.organization is None) ==> (
        match first_overlong(create_checks(input)) {
            Some(c) => refuses_overlong(r, c),
            None => r matches Ok(p) && {
                &&& p.contact_type == input.contact_type
                &&& p.name_prefix == input.name_prefix
                &&& p.first_name == input.first_name
                &&& p.middle_name == input.middle_name
                &&& p.last_name == input.last_name
                &&& p.name_suffix == input.name_suffix
                &&& p.nickname == input.nickname
                &&& p.phonetic_given_name == input.phonetic_given_name
                &&& p.phonetic_middle_name == input.phonetic_middle_name
                &&& p.phonetic_family_name == input.phonetic_family_name
                &&& p.phonetic_organization_name == input.phonetic_organization_name
                &&& p.email == input.email
                &&& p.phone == input.phone
                &&& p.url == input.url
                &&& p.organization == input.organization
                &&& p.department == input.department
                &&& p.job_title == input.job_title
                &&& p.note == input.note
                &&& p.birthday == input.birthday
                &&& p.postal_address == input.postal_address
            },
        }),
{
    if input.first_name.is_none() && input.last_name.is_none() && input.organization.is_none() {
        return Err(ParamError::MissingName);
    }
    check_create_lengths(&input)?;
    Ok(ContactsCreateParams {
        contact_type: input.contact_type,
        name_prefix: input.name_prefix,
        first_name: input.first_name,
        middle_name: input.middle_name,
        last_name: input.last_name,
        name_suffix: input.name_suffix,
        nickname: input.nickname,
        phonetic_given_name: input.phonetic_given_name,
        phonetic_middle_name: input.phonetic_middle_name,
        phonetic_family_name: input.phonetic_family_name,
        phonetic_organization_name: input.phonetic_organization_name,
        email: input.email,
        phone: input.phone,
        url: input.url,
        organization: input.organization,
        department: input.department,
        job_title: input.job_title,
        note: input.note,
        birthday: input.birthday,
        postal_address: input.postal_address,
    })
}

/// Checks an update request and turns it into what the store is asked to
/// change: the first field over its cap is refused, in the order of
/// `update_checks`; each `_from`/`_to` pair becomes an add, remove or
/// replace.
pub fn validate_update(input: ContactsUpdateInput) -> (r: Result<ContactsUpdateParams, ParamError>)
    ensures
        match first_overlong(update_checks(input)) {
            Some(c) => refuses_overlong(r, c),
            None => r matches Ok(p) && {
                &&& p.id == input.id
                &&& p.contact_type == input.contact_type
                &&& p.name_prefix == input.name_prefix
                &&& p.first_name == input.first_name
                &&& p.middle_name == input.middle_name
                &&& p.last_name == input.last_name
                &&& p.name_suffix == input.name_suffix
                &&& p.nickname == input.nickname
                &&& p.phonetic_given_name == input.phonetic_given_name
                &&& p.phonetic_middle_name == input.phonetic_middle_name
                &&& p.phonetic_family_name == input.phonetic_family_name
                &&& p.phonetic_organization_name == input.phonetic_organization_name
                &&& p.organization == input.organization
                &&& p.department == input.department
                &&& p.job_title == input.job_title
                &&& p.note == input.note
                &&& p.birthday == input.birthday
                &&& p.phone_op == phone_op_of(input.phone_from, input.phone_to)
                &&& p.email_op == email_op_of(input.email_from, input.email_to)
                &&& p.url_op == url_op_of(input.url_from, input.url_to)
                &&& p.postal_op == postal_op_of(input.postal_from, input.postal_to)
            },
        },
{
    check_update_lengths(&input)?;
    Ok(ContactsUpdateParams {
        id: input.id,
        contact_type: input.contact_type,
        name_prefix: input.name_prefix,
        first_name: input.first_name,
        middle_name: input.middle_name,
        last_name: input.last_name,
        name_suffix: input.name_suffix,
        nickname: input.nickname,
        phonetic_given_name: input.phonetic_given_name,
        phonetic_middle_name: input.phonetic_middle_name,
        phonetic_family_name: input.phonetic_family_name,
        phonetic_organization_name: input.phonetic_organization_name,
        organization: input.organization,
        department: input.department,
        job_title: input.job_title,
        note: input.note,
        birthday: input.birthday,
        phone_op: phone_op_from(input.phone_from, input.phone_to),
        email_op: email_op_from(input.email_from, input.email_to),
        url_op: url_op_from(input.url_from, input.url_to),
        postal_op: postal_op_from(input.postal_from, input.postal_to),
    })
}


/// A part of an optional address, where the address and the part are given.
pub open spec fn given_part(
    address: Option<PostalAddressData>,
    part: spec_fn(PostalAddressData) -> Option<String>,
) -> Option<Seq<char>> {
    match address {
        Some(d) => opt_view(part(d)),
        None => None,
    }
}

/// `value`, where given, is at most `cap` bytes long.
pub open spec fn within(value: Option<Seq<char>>, cap: usize) -> bool {
    value matches Some(v) ==> byte_len(v) <= cap
}

/// `c` refuses `value` as the field `field` over the cap `cap`: the value is
/// given, longer than the cap, and `c` names the field, its length and the
/// cap.
pub open spec fn refuses_for(
    c: (Seq<char>, usize, usize),
    field: Seq<char>,
    value: Option<Seq<char>>,
    cap: usize,
) -> bool {
    value matches Some(v) && byte_len(v) > cap && c == (field, byte_len(v), cap)
}

proof fn lemma_first_overlong_found(checks: Seq<Option<(Seq<char>, usize, usize)>>)
    ensures
        first_overlong(checks) is None <==> forall|i: int|
            0 <= i < checks.len() ==> #[trigger] checks[i] is None,
        first_overlong(checks) matches Some(c) ==> exists|i: int|
            0 <= i < checks.len() && #[trigger] checks[i] == Some(c),
    decreases checks.len(),
{
    if checks.len() > 0 {
        let rest = checks.drop_first();
        lemma_first_overlong_found(rest);
        assert forall|i: int| 0 < i < checks.len() implies checks[i] == rest[i - 1] by {}
        if checks[0] is None {
            if first_overlong(rest) is None {
                assert forall|i: int| 0 <= i < checks.len() implies #[trigger] checks[i] is None by {
                    if i > 0 {
                        assert(rest[i - 1] is None);
                    }
                }
            } else {
                let c = first_overlong(rest)->0;
                let j = choose|j: int| 0 <= j < rest.len() && #[trigger] rest[j] == Some(c);
                assert(checks[j + 1] == Some(c));
            }
        }
    }
}

/// A create's fields are refused for length exactly when one of them is
/// over its documented cap in bytes: names 256, email 320, phone 64, URL
/// 2048, organization, department and job title 256, note 4096, birthday
/// 32, contact type 32, each postal part 512; and a refusal names a field
/// that is over its own cap, with its length and that cap.
pub proof fn law_create_caps(input: ContactsCreateInput)
    ensures
        first_overlong(create_checks(input)) is None <==> {
            &&& within(opt_view(input.contact_type), 32)
            &&& within(opt_view(input.name_prefix), 256)
            &&& within(opt_view(input.first_name), 256)
            &&& within(opt_view(input.middle_name), 256)
            &&& within(opt_view(input.last_name), 256)
            &&& within(opt_view(input.name_suffix), 256)
            &&& within(opt_view(input.nickname), 256)
            &&& within(opt_view(input.phonetic_given_name), 256)
            &&& within(opt_view(input.phonetic_middle_name), 256)
            &&& within(opt_view(input.phonetic_family_name), 256)
            &&& within(opt_view(input.phonetic_organization_name), 256)
            &&& within(opt_view(input.email), 320)
            &&& within(opt_view(input.phone), 64)
            &&& within(opt_view(input.url), 2048)
            &&& within(opt_view(input.organization), 256)
            &&& within(opt_view(input.department), 256)
            &&& within(opt_view(input.job_title), 256)
            &&& within(opt_view(input.note), 4096)
            &&& within(opt_view(input.birthday), 32)
            &&& within(given_part(input.postal_address, |d: PostalAddressData| d.street), 512)
            &&& within(given_part(input.postal_address, |d: PostalAddressData| d.city), 512)
            &&& within(given_part(input.postal_address, |d: PostalAddressData| d.state), 512)
            &&& within(given_part(input.postal_address, |d: PostalAddressData| d.postal_code), 512)
            &&& within(given_part(input.postal_address, |d: PostalAddressData| d.country), 512)
        },
        first_overlong(create_checks(input)) matches Some(c) ==> {
            ||| refuses_for(c, "contact_type"@, opt_view(input.contact_type), 32)
            ||| refuses_for(c, "name_prefix"@, opt_view(input.name_prefix), 256)
            ||| refuses_for(c, "first_name"@, opt_view(input.first_name), 256)
            ||| refuses_for(c, "middle_name"@, opt_view(input.middle_name), 256)
            ||| refuses_for(c, "last_name"@, opt_view(input.last_name), 256)
            ||| refuses_for(c, "name_suffix"@, opt_view(input.name_suffix), 256)
            ||| refuses_for(c, "nickname"@, opt_view(input.nickname), 256)
            ||| refuses_for(c, "phonetic_given_name"@, opt_view(input.phonetic_given_name), 256)
            ||| refuses_for(c, "phonetic_middle_name"@, opt_view(input.phonetic_middle_name), 256)
            ||| refuses_for(c, "phonetic_family_name"@, opt_view(input.phonetic_family_name), 256)
            ||| refuses_for(c, "phonetic_organization_name"@, opt_view(input.phonetic_organization_name), 256)
            ||| refuses_for(c, "email"@, opt_view(input.email), 320)
            ||| refuses_for(c, "phone"@, opt_view(input.phone), 64)
            ||| refuses_for(c, "url"@, opt_view(input.url), 2048)
            ||| refuses_for(c, "organization"@, opt_view(input.organization), 256)
            ||| refuses_for(c, "department"@, opt_view(input.department), 256)
            ||| refuses_for(c, "job_title"@, opt_view(input.job_title), 256)
            ||| refuses_for(c, "note"@, opt_view(input.note), 4096)
            ||| refuses_for(c, "birthday"@, opt_view(input.birthday), 32)
            ||| refuses_for(c, "postal_address.street"@, given_part(input.postal_address, |d: PostalAddressData| d.street), 512)
            ||| refuses_for(c, "postal_address.city"@, given_part(input.postal_address, |d: PostalAddressData| d.city), 512)
            ||| refuses_for(c, "postal_address.state"@, given_part(input.postal_address, |d: PostalAddressData| d.state), 512)
            ||| refuses_for(c, "postal_address.postal_code"@, given_part(input.postal_address, |d: PostalAddressData| d.postal_code), 512)
            ||| refuses_for(c, "postal_address.country"@, given_part(input.postal_address, |d: PostalAddressData| d.country), 512)
        },
{
    lemma_first_overlong_found(create_checks(input));
    if let Some(c) = first_overlong(create_checks(input)) {
        let i = choose|i: int| 0 <= i < create_checks(input).len() && create_checks(input)[i] == Some(c);
        assert(i == 0 || i == 1 || i == 2 || i == 3 || i == 4 || i == 5 || i == 6 || i == 7 || i == 8 || i == 9 || i == 10 || i == 11 || i == 12 || i == 13 || i == 14 || i == 15 || i == 16 || i == 17 || i == 18 || i == 19 || i == 20 || i == 21 || i == 22 || i == 23);
    }
}

/// An update's fields are refused for length exactly when one of them is
/// over its documented cap in bytes: the id 256, the single fields as for a
/// create, each `_from`/`_to` text as its field, each part of `postal_to`
/// 512 (the one-line `postal_from` has no cap); and a refusal names a field
/// that is over its own cap, with its length and that cap.
pub proof fn law_update_caps(input: ContactsUpdateInput)
    ensures
        first_overlong(update_checks(input)) is None <==> {
            &&& within(Some(input.id@), 256)
            &&& within(opt_view(input.contact_type), 32)
            &&& within(opt_view(input.name_prefix), 256)
            &&& within(opt_view(input.first_name), 256)
            &&& within(opt_view(input.middle_name), 256)
            &&& within(opt_view(input.last_name), 256)
            &&& within(opt_view(input.name_suffix), 256)
            &&& within(opt_view(input.nickname), 256)
            &&& within(opt_view(input.phonetic_given_name), 256)
            &&& within(opt_view(input.phonetic_middle_name), 256)
            &&& within(opt_view(input.phonetic_family_name), 256)
            &&& within(opt_view(input.phonetic_organization_name), 256)
            &&& within(opt_view(input.organization), 256)
            &&& within(opt_view(input.department), 256)
            &&& within(opt_view(input.job_title), 256)
            &&& within(opt_view(input.note), 4096)
            &&& within(opt_view(input.birthday), 32)
            &&& within(opt_view(input.phone_from), 64)
            &&& within(opt_view(input.phone_to), 64)
            &&& within(opt_view(input.email_from), 320)
            &&& within(opt_view(input.email_to), 320)
            &&& within(opt_view(input.url_from), 2048)
            &&& within(opt_view(input.url_to), 2048)
            &&& within(given_part(input.postal_to, |d: PostalAddressData| d.street), 512)
            &&& within(given_part(input.postal_to, |d: PostalAddressData| d.city), 512)
            &&& within(given_part(input.postal_to, |d: PostalAddressData| d.state), 512)
            &&& within(given_part(input.postal_to, |d: PostalAddressData| d.postal_code), 512)
            &&& within(given_part(input.postal_to, |d: PostalAddressData| d.country), 512)
        },
        first_overlong(update_checks(input)) matches Some(c) ==> {
            ||| refuses_for(c, "id"@, Some(input.id@), 256)
            ||| refuses_for(c, "contact_type"@, opt_view(input.contact_type), 32)
            ||| refuses_for(c, "name_prefix"@, opt_view(input.name_prefix), 256)
            ||| refuses_for(c, "first_name"@, opt_view(input.first_name), 256)
            ||| refuses_for(c, "middle_name"@, opt_view(input.middle_name), 256)
            ||| refuses_for(c, "last_name"@, opt_view(input.last_name), 256)
            ||| refuses_for(c, "name_suffix"@, opt_view(input.name_suffix), 256)
            ||| refuses_for(c, "nickname"@, opt_view(input.nickname), 256)
            ||| refuses_for(c, "phonetic_given_name"@, opt_view(input.phonetic_given_name), 256)
            ||| refuses_for(c, "phonetic_middle_name"@, opt_view(input.phonetic_middle_name), 256)
            ||| refuses_for(c, "phonetic_family_name"@, opt_view(input.phonetic_family_name), 256)
            ||| refuses_for(c, "phonetic_organization_name"@, opt_view(input.phonetic_organization_name), 256)
            ||| refuses_for(c, "organization"@, opt_view(input.organization), 256)
            ||| refuses_for(c, "department"@, opt_view(input.department), 256)
            ||| refuses_for(c, "job_title"@, opt_view(input.job_title), 256)
            ||| refuses_for(c, "note"@, opt_view(input.note), 4096)
            ||| refuses_for(c, "birthday"@, opt_view(input.birthday), 32)
            ||| refuses_for(c, "phone_from"@, opt_view(input.phone_from), 64)
            ||| refuses_for(c, "phone_to"@, opt_view(input.phone_to), 64)
            ||| refuses_for(c, "email_from"@, opt_view(input.email_from), 320)
            ||| refuses_for(c, "email_to"@, opt_view(input.email_to), 320)
            ||| refuses_for(c, "url_from"@, opt_view(input.url_from), 2048)
            ||| refuses_for(c, "url_to"@, opt_view(input.url_to), 2048)
            ||| refuses_for(c, "postal_to.street"@, given_part(input.postal_to, |d: PostalAddressData| d.street), 512)
            ||| refuses_for(c, "postal_to.city"@, given_part(input.postal_to, |d: PostalAddressData| d.city), 512)
            ||| refuses_for(c, "postal_to.state"@, given_part(input.postal_to, |d: PostalAddressData| d.state), 512)
            ||| refuses_for(c, "postal_to.postal_code"@, given_part(input.postal_to, |d: PostalAddressData| d.postal_code), 512)
            ||| refuses_for(c, "postal_to.country"@, given_part(input.postal_to, |d: PostalAddressData| d.country), 512)
        },
{
    lemma_first_overlong_found(update_checks(input));
    if let Some(c) = first_overlong(update_checks(input)) {
        let i = choose|i: int| 0 <= i < update_checks(input).len() && update_checks(input)[i] == Some(c);
        assert(i == 0 || i == 1 || i == 2 || i == 3 || i == 4 || i == 5 || i == 6 || i == 7 || i == 8 || i == 9 || i == 10 || i == 11 || i == 12 || i == 13 || i == 14 || i == 15 || i == 16 || i == 17 || i == 18 || i == 19 || i == 20 || i == 21 || i == 22 || i == 23 || i == 24 || i == 25 || i == 26 || i == 27);
    }
}

} // verus!
