//! What a create or an update writes, decided before anything is written:
//! every field is checked first, so a refused request leaves the store as
//! it was.

use vstd::prelude::*;

use crate::contact_store::edits::{
    email_outcome, entry_views, phone_outcome, plan_email_op, plan_phone_op, plan_postal_op,
    plan_url_op, postal_outcome, url_outcome, Entry, ListEdit, PlannedEdit,
};
use crate::contact_store::fields::{
    birthday_error, birthday_named, contact_kind_named, contact_type_error, parse_birthday,
    parse_contact_type, BirthdayComponents, ContactKind,
};
use crate::contact_store::params::{ContactsCreateParams, ContactsUpdateParams, PostalAddressData};
use crate::contact_store::record::{format_postal_address, joined_nonempty, PostalFields};
use crate::error::ContactsError;
use crate::text::{opt_ref_view, opt_view, views};

verus! {

/// The single-valued fields shared by create and update, borrowed from the
/// caller's request.
pub struct ScalarFields<'a> {
    pub contact_type: Option<&'a String>,
    pub name_prefix: Option<&'a String>,
    pub first_name: Option<&'a String>,
    pub middle_name: Option<&'a String>,
    pub last_name: Option<&'a String>,
    pub name_suffix: Option<&'a String>,
    pub nickname: Option<&'a String>,
    pub phonetic_given_name: Option<&'a String>,
    pub phonetic_middle_name: Option<&'a String>,
    pub phonetic_family_name: Option<&'a String>,
    pub phonetic_organization_name: Option<&'a String>,
    pub organization: Option<&'a String>,
    pub department: Option<&'a String>,
    pub job_title: Option<&'a String>,
    pub note: Option<&'a String>,
    pub birthday: Option<&'a String>,
}

impl<'a> ScalarFields<'a> {
    /// Every field holds what the create request holds.
    pub open spec fn mirrors_create(&self, p: ContactsCreateParams) -> bool {
        &&& opt_ref_view(self.contact_type) == opt_view(p.contact_type)
        &&& opt_ref_view(self.name_prefix) == opt_view(p.name_prefix)
        &&& opt_ref_view(self.first_name) == opt_view(p.first_name)
        &&& opt_ref_view(self.middle_name) == opt_view(p.middle_name)
        &&& opt_ref_view(self.last_name) == opt_view(p.last_name)
        &&& opt_ref_view(self.name_suffix) == opt_view(p.name_suffix)
        &&& opt_ref_view(self.nickname) == opt_view(p.nickname)
        &&& opt_ref_view(self.phonetic_given_name) == opt_view(p.phonetic_given_name)
        &&& opt_ref_view(self.phonetic_middle_name) == opt_view(p.phonetic_middle_name)
        &&& opt_ref_view(self.phonetic_family_name) == opt_view(p.phonetic_family_name)
        &&& opt_ref_view(self.phonetic_organization_name) == opt_view(p.phonetic_organization_name)
        &&& opt_ref_view(self.organization) == opt_view(p.organization)
        &&& opt_ref_view(self.department) == opt_view(p.department)
        &&& opt_ref_view(self.job_title) == opt_view(p.job_title)
        &&& opt_ref_view(self.note) == opt_view(p.note)
        &&& opt_ref_view(self.birthday) == opt_view(p.birthday)
    }

    /// Every field holds what the update request holds.
    pub open spec fn mirrors_update(&self, p: ContactsUpdateParams) -> bool {
        &&& opt_ref_view(self.contact_type) == opt_view(p.contact_type)
        &&& opt_ref_view(self.name_prefix) == opt_view(p.name_prefix)
        &&& opt_ref_view(self.first_name) == opt_view(p.first_name)
        &&& opt_ref_view(self.middle_name) == opt_view(p.middle_name)
        &&& opt_ref_view(self.last_name) == opt_view(p.last_name)
        &&& opt_ref_view(self.name_suffix) == opt_view(p.name_suffix)
        &&& opt_ref_view(self.nickname) == opt_view(p.nickname)
        &&& opt_ref_view(self.phonetic_given_name) == opt_view(p.phonetic_given_name)
        &&& opt_ref_view(self.phonetic_middle_name) == opt_view(p.phonetic_middle_name)
        &&& opt_ref_view(self.phonetic_family_name) == opt_view(p.phonetic_family_name)
        &&& opt_ref_view(self.phonetic_organization_name) == opt_view(p.phonetic_organization_name)
        &&& opt_ref_view(self.organization) == opt_view(p.organization)
        &&& opt_ref_view(self.department) == opt_view(p.department)
        &&& opt_ref_view(self.job_title) == opt_view(p.job_title)
        &&& opt_ref_view(self.note) == opt_view(p.note)
        &&& opt_ref_view(self.birthday) == opt_view(p.birthday)
    }

    pub fn from_create(p: &'a ContactsCreateParams) -> (r: Self)
        ensures
            r.mirrors_create(*p),
            opt_ref_view(r.contact_type) == opt_view(p.contact_type),
            opt_ref_view(r.name_prefix) == opt_view(p.name_prefix),
            opt_ref_view(r.first_name) == opt_view(p.first_name),
            opt_ref_view(r.middle_name) == opt_view(p.middle_name),
            opt_ref_view(r.last_name) == opt_view(p.last_name),
            opt_ref_view(r.name_suffix) == opt_view(p.name_suffix),
            opt_ref_view(r.nickname) == opt_view(p.nickname),
            opt_ref_view(r.phonetic_given_name) == opt_view(p.phonetic_given_name),
            opt_ref_view(r.phonetic_middle_name) == opt_view(p.phonetic_middle_name),
            opt_ref_view(r.phonetic_family_name) == opt_view(p.phonetic_family_name),
            opt_ref_view(r.phonetic_organization_name) == opt_view(p.phonetic_organization_name),
            opt_ref_view(r.organization) == opt_view(p.organization),
            opt_ref_view(r.department) == opt_view(p.department),
            opt_ref_view(r.job_title) == opt_view(p.job_title),
            opt_ref_view(r.note) == opt_view(p.note),
            opt_ref_view(r.birthday) == opt_view(p.birthday),
    {
        ScalarFields {
            contact_type: p.contact_type.as_ref(),
            name_prefix: p.name_prefix.as_ref(),
            first_name: p.first_name.as_ref(),
            middle_name: p.middle_name.as_ref(),
            last_name: p.last_name.as_ref(),
            name_suffix: p.name_suffix.as_ref(),
            nickname: p.nickname.as_ref(),
            phonetic_given_name: p.phonetic_given_name.as_ref(),
            phonetic_middle_name: p.phonetic_middle_name.as_ref(),
            phonetic_family_name: p.phonetic_family_name.as_ref(),
            phonetic_organization_name: p.phonetic_organization_name.as_ref(),
            organization: p.organization.as_ref(),
            department: p.department.as_ref(),
            job_title: p.job_title.as_ref(),
            note: p.note.as_ref(),
            birthday: p.birthday.as_ref(),
        }
    }

    pub fn from_update(p: &'a ContactsUpdateParams) -> (r: Self)
        ensures
            r.mirrors_update(*p),
            opt_ref_view(r.contact_type) == opt_view(p.contact_type),
            opt_ref_view(r.name_prefix) == opt_view(p.name_prefix),
            opt_ref_view(r.first_name) == opt_view(p.first_name),
            opt_ref_view(r.middle_name) == opt_view(p.middle_name),
            opt_ref_view(r.last_name) == opt_view(p.last_name),
            opt_ref_view(r.name_suffix) == opt_view(p.name_suffix),
            opt_ref_view(r.nickname) == opt_view(p.nickname),
            opt_ref_view(r.phonetic_given_name) == opt_view(p.phonetic_given_name),
            opt_ref_view(r.phonetic_middle_name) == opt_view(p.phonetic_middle_name),
            opt_ref_view(r.phonetic_family_name) == opt_view(p.phonetic_family_name),
            opt_ref_view(r.phonetic_organization_name) == opt_view(p.phonetic_organization_name),
            opt_ref_view(r.organization) == opt_view(p.organization),
            opt_ref_view(r.department) == opt_view(p.department),
            opt_ref_view(r.job_title) == opt_view(p.job_title),
            opt_ref_view(r.note) == opt_view(p.note),
            opt_ref_view(r.birthday) == opt_view(p.birthday),
    {
        ScalarFields {
            contact_type: p.contact_type.as_ref(),
            name_prefix: p.name_prefix.as_ref(),
            first_name: p.first_name.as_ref(),
            middle_name: p.middle_name.as_ref(),
            last_name: p.last_name.as_ref(),
            name_suffix: p.name_suffix.as_ref(),
            nickname: p.nickname.as_ref(),
            phonetic_given_name: p.phonetic_given_name.as_ref(),
            phonetic_middle_name: p.phonetic_middle_name.as_ref(),
            phonetic_family_name: p.phonetic_family_name.as_ref(),
            phonetic_organization_name: p.phonetic_organization_name.as_ref(),
            organization: p.organization.as_ref(),
            department: p.department.as_ref(),
            job_title: p.job_title.as_ref(),
            note: p.note.as_ref(),
            birthday: p.birthday.as_ref(),
        }
    }
}

/// The single-valued fields to write: the text fields as given, with the
/// contact type and the birthday read into values.
pub struct ScalarPlan<'a> {
    pub fields: ScalarFields<'a>,
    pub contact_type: Option<ContactKind>,
    pub birthday: Option<BirthdayComponents>,
}

/// The contact type and birthday a request sets, or the text of the error
/// it is refused with: a bad contact type is reported before a bad birthday.
pub open spec fn scalar_outcome(contact_type: Option<Seq<char>>, birthday: Option<Seq<char>>) -> Result<
    (Option<ContactKind>, Option<BirthdayComponents>),
    Seq<char>,
> {
    let kind = match contact_type {
        Some(s) => match contact_kind_named(s) {
            Some(k) => Ok(Some(k)),
            None => Err(contact_type_error(s)),
        },
        None => Ok(None),
    };
    let day = match birthday {
        Some(s) => match birthday_named(s) {
            Some(b) => Ok(Some(b)),
            None => Err(birthday_error(s)),
        },
        None => Ok(None),
    };
    match (kind, day) {
        (Err(m), _) => Err(m),
        (Ok(_), Err(m)) => Err(m),
        (Ok(k), Ok(b)) => Ok((k, b)),
    }
}

/// `r` is the answer `o` describes for the scalar fields `fields`.
pub open spec fn scalar_answer<'a>(
    r: Result<ScalarPlan<'a>, ContactsError>,
    fields: ScalarFields<'a>,
    o: Result<(Option<ContactKind>, Option<BirthdayComponents>), Seq<char>>,
) -> bool {
    match o {
        Ok((k, b)) => r matches Ok(p) && p.fields == fields && p.contact_type == k && p.birthday
            == b,
        Err(m) => r matches Err(ContactsError::InvalidInput(d)) && d@ == m,
    }
}

/// Checks the contact type and the birthday, if given.
pub fn plan_scalar_fields<'a>(fields: ScalarFields<'a>) -> (r: Result<ScalarPlan<'a>, ContactsError>)
    ensures
        scalar_answer(
            r,
            fields,
            scalar_outcome(opt_ref_view(fields.contact_type), opt_ref_view(fields.birthday)),
        ),
{
    let contact_type = match fields.contact_type {
        Some(v) => match parse_contact_type(v.as_str()) {
            Ok(k) => Some(k),
            Err(e) => {
                return Err(e);
            },
        },
        None => None,
    };
    let birthday = match fields.birthday {
        Some(v) => match parse_birthday(v.as_str()) {
            Ok(b) => Some(b),
            Err(e) => {
                return Err(e);
            },
        },
        None => None,
    };
    Ok(ScalarPlan { fields, contact_type, birthday })
}

/// What a create writes: the single-valued fields, and at most one email
/// address, phone number, URL and postal address.
pub struct CreatePlan<'a> {
    pub fields: ScalarPlan<'a>,
    pub email: Option<&'a String>,
    pub phone: Option<&'a String>,
    pub url: Option<&'a String>,
    pub postal_address: Option<&'a PostalAddressData>,
}

/// Decides what creating a contact writes. A postal address with no parts
/// is not written.
pub fn plan_create<'a>(params: &'a ContactsCreateParams) -> (r: Result<CreatePlan<'a>, ContactsError>)
    ensures
        match scalar_outcome(opt_view(params.contact_type), opt_view(params.birthday)) {
            Ok((k, b)) => r matches Ok(plan) && {
                &&& plan.fields.fields.mirrors_create(*params)
                &&& plan.fields.contact_type == k
                &&& plan.fields.birthday == b
                &&& opt_ref_view(plan.email) == opt_view(params.email)
                &&& opt_ref_view(plan.phone) == opt_view(params.phone)
                &&& opt_ref_view(plan.url) == opt_view(params.url)
                &&& plan.postal_address == (match params.postal_address {
                    Some(d) => if d.has_no_parts() {
                        None
                    } else {
                        Some(&d)
                    },
                    None => None::<&PostalAddressData>,
                })
            },
            Err(m) => r matches Err(ContactsError::InvalidInput(d)) && d@ == m,
        },
{
    let fields = ScalarFields::from_create(params);
    let fields = match plan_scalar_fields(fields) {
        Ok(f) => f,
        Err(e) => {
            return Err(e);
        },
    };
    let postal_address = match &params.postal_address {
        Some(d) => if d.is_empty() {
            None
        } else {
            Some(d)
        },
        None => None,
    };
    Ok(CreatePlan {
        fields,
        email: params.email.as_ref(),
        phone: params.phone.as_ref(),
        url: params.url.as_ref(),
        postal_address,
    })
}

/// A stored postal address and its label.
#[derive(Debug, Clone, Default)]
pub struct PostalEntry {
    pub label: Option<String>,
    pub address: PostalFields,
}

/// What a contact holds in its multi-valued fields before an update.
#[derive(Debug, Clone, Default)]
pub struct ExistingValues {
    pub phones: Vec<Entry>,
    pub emails: Vec<Entry>,
    pub urls: Vec<Entry>,
    pub postal_addresses: Vec<PostalEntry>,
}

/// Postal entries as labels and one-line forms.
pub open spec fn address_entries(addrs: Seq<PostalEntry>) -> Seq<(Option<Seq<char>>, Seq<char>)> {
    Seq::new(
        addrs.len(),
        |i: int| (opt_view(addrs[i].label), joined_nonempty(addrs[i].address.parts())),
    )
}

/// Postal entries as entries whose texts are their one-line forms.
pub fn address_lines(addrs: &Vec<PostalEntry>) -> (r: Vec<Entry>)
    ensures
        entry_views(r@) == address_entries(addrs@),
{
    let mut r: Vec<Entry> = Vec::new();
    let mut i: usize = 0;
    while i < addrs.len()
        invariant
            i <= addrs@.len(),
            entry_views(r@) == address_entries(addrs@).take(i as int),
        decreases addrs@.len() - i,
    {
        let label = match &addrs[i].label {
            Some(l) => Some(l.clone()),
            None => None,
        };
        let e = Entry { label, value: format_postal_address(&addrs[i].address) };
        proof {
            assert(entry_views(r@.push(e)) == entry_views(r@).push(
                crate::contact_store::edits::entry_view(e),
            ));
            assert(address_entries(addrs@).take(i + 1) == address_entries(addrs@).take(
                i as int,
            ).push(address_entries(addrs@)[i as int]));
        }
        r.push(e);
        i = i + 1;
    }
    proof {
        assert(address_entries(addrs@).take(addrs@.len() as int) == address_entries(addrs@));
    }
    r
}

/// What an update writes: the single-valued fields, and one planned edit
/// per multi-valued field it changes.
pub struct UpdatePlan<'a> {
    pub fields: ScalarPlan<'a>,
    pub phone: Option<PlannedEdit>,
    pub email: Option<PlannedEdit>,
    pub url: Option<PlannedEdit>,
    pub postal: Option<PlannedEdit>,
}

/// A planned edit as its edit and the view of its label.
pub open spec fn planned_view(p: PlannedEdit) -> (ListEdit, Option<Seq<char>>) {
    (p.edit, opt_view(p.label))
}

/// A step of an update that changes a multi-valued field only if asked.
pub open spec fn optional_step(o: Option<Result<(ListEdit, Option<Seq<char>>), Seq<char>>>) -> Result<
    Option<(ListEdit, Option<Seq<char>>)>,
    Seq<char>,
> {
    match o {
        None => Ok(None),
        Some(Ok(e)) => Ok(Some(e)),
        Some(Err(m)) => Err(m),
    }
}

pub open spec fn opt_planned_view(p: Option<PlannedEdit>) -> Option<(ListEdit, Option<Seq<char>>)> {
    match p {
        Some(e) => Some(planned_view(e)),
        None => None,
    }
}

/// The edits an update makes to phones, emails, URLs and postal addresses,
/// in that order, or the text of the first error.
pub open spec fn list_edits_outcome(
    params: ContactsUpdateParams,
    existing: ExistingValues,
    phone_accepted: bool,
) -> Result<
    (
        Option<(ListEdit, Option<Seq<char>>)>,
        Option<(ListEdit, Option<Seq<char>>)>,
        Option<(ListEdit, Option<Seq<char>>)>,
        Option<(ListEdit, Option<Seq<char>>)>,
    ),
    Seq<char>,
> {
    let id = params.id@;
    let phone = optional_step(
        match params.phone_op {
            Some(op) => Some(phone_outcome(entry_views(existing.phones@), op, id, phone_accepted)),
            None => None,
        },
    );
    let email = optional_step(
        match params.email_op {
            Some(op) => Some(email_outcome(entry_views(existing.emails@), op, id)),
            None => None,
        },
    );
    let url = optional_step(
        match params.url_op {
            Some(op) => Some(url_outcome(entry_views(existing.urls@), op, id)),
            None => None,
        },
    );
    let postal = optional_step(
        match params.postal_op {
            Some(op) => Some(postal_outcome(address_entries(existing.postal_addresses@), op, id)),
            None => None,
        },
    );
    match (phone, email, url, postal) {
        (Err(m), _, _, _) => Err(m),
        (Ok(_), Err(m), _, _) => Err(m),
        (Ok(_), Ok(_), Err(m), _) => Err(m),
        (Ok(_), Ok(_), Ok(_), Err(m)) => Err(m),
        (Ok(a), Ok(b), Ok(c), Ok(d)) => Ok((a, b, c, d)),
    }
}

/// Decides what updating a contact writes, given what it holds now.
/// `phone_accepted` is whether the store accepts the number a phone add or
/// replace writes. The single-valued fields are checked first, then the
/// phone, email, URL and postal-address changes, and the first failure is
/// the answer.
pub fn plan_update<'a>(
    params: &'a ContactsUpdateParams,
    existing: &ExistingValues,
    phone_accepted: bool,
) -> (r: Result<UpdatePlan<'a>, ContactsError>)
    ensures
        match scalar_outcome(opt_view(params.contact_type), opt_view(params.birthday)) {
            Err(m) => r matches Err(ContactsError::InvalidInput(d)) && d@ == m,
            Ok((k, b)) => match list_edits_outcome(*params, *existing, phone_accepted) {
                Err(m) => r matches Err(ContactsError::InvalidInput(d)) && d@ == m,
                Ok((phone, email, url, postal)) => r matches Ok(plan) && {
                    &&& plan.fields.fields.mirrors_update(*params)
                    &&& plan.fields.contact_type == k
                    &&& plan.fields.birthday == b
                    &&& opt_planned_view(plan.phone) == phone
                    &&& opt_planned_view(plan.email) == email
                    &&& opt_planned_view(plan.url) == url
                    &&& opt_planned_view(plan.postal) == postal
                },
            },
        },
{
    let fields = ScalarFields::from_update(params);
    let fields = match plan_scalar_fields(fields) {
        Ok(f) => f,
        Err(e) => {
            return Err(e);
        },
    };
    let id = params.id.as_str();
    let phone = match &params.phone_op {
        Some(op) => match plan_phone_op(&existing.phones, op, id, phone_accepted) {
            Ok(e) => Some(e),
            Err(e) => {
                return Err(e);
            },
        },
        None => None,
    };
    let email = match &params.email_op {
        Some(op) => match plan_email_op(&existing.emails, op, id) {
            Ok(e) => Some(e),
            Err(e) => {
                return Err(e);
            },
        },
        None => None,
    };
    let url = match &params.url_op {
        Some(op) => match plan_url_op(&existing.urls, op, id) {
            Ok(e) => Some(e),
            Err(e) => {
                return Err(e);
            },
        },
        None => None,
    };
    let postal = match &params.postal_op {
        Some(op) => {
            let lines = address_lines(&existing.postal_addresses);
            match plan_postal_op(&lines, op, id) {
                Ok(e) => Some(e),
                Err(e) => {
                    return Err(e);
                },
            }
        },
        None => None,
    };
    Ok(UpdatePlan { fields, phone, email, url, postal })
}


/// The fields a create writes are the request's own, each under its own
/// name: the first name is written as the first name, the job title as the
/// job title, and so on.
pub proof fn law_create_writes_fields_as_named(f: ScalarFields, p: ContactsCreateParams)
    requires
        f.mirrors_create(p),
    ensures
        opt_ref_view(f.contact_type) == opt_view(p.contact_type),
        opt_ref_view(f.name_prefix) == opt_view(p.name_prefix),
        opt_ref_view(f.first_name) == opt_view(p.first_name),
        opt_ref_view(f.middle_name) == opt_view(p.middle_name),
        opt_ref_view(f.last_name) == opt_view(p.last_name),
        opt_ref_view(f.name_suffix) == opt_view(p.name_suffix),
        opt_ref_view(f.nickname) == opt_view(p.nickname),
        opt_ref_view(f.phonetic_given_name) == opt_view(p.phonetic_given_name),
        opt_ref_view(f.phonetic_middle_name) == opt_view(p.phonetic_middle_name),
        opt_ref_view(f.phonetic_family_name) == opt_view(p.phonetic_family_name),
        opt_ref_view(f.phonetic_organization_name) == opt_view(p.phonetic_organization_name),
        opt_ref_view(f.organization) == opt_view(p.organization),
        opt_ref_view(f.department) == opt_view(p.department),
        opt_ref_view(f.job_title) == opt_view(p.job_title),
        opt_ref_view(f.note) == opt_view(p.note),
        opt_ref_view(f.birthday) == opt_view(p.birthday),
{
}

/// The fields an update writes are the request's own, each under its own
/// name; a field the request leaves out is left out.
pub proof fn law_update_writes_fields_as_named(f: ScalarFields, p: ContactsUpdateParams)
    requires
        f.mirrors_update(p),
    ensures
        opt_ref_view(f.contact_type) == opt_view(p.contact_type),
        opt_ref_view(f.name_prefix) == opt_view(p.name_prefix),
        opt_ref_view(f.first_name) == opt_view(p.first_name),
        opt_ref_view(f.middle_name) == opt_view(p.middle_name),
        opt_ref_view(f.last_name) == opt_view(p.last_name),
        opt_ref_view(f.name_suffix) == opt_view(p.name_suffix),
        opt_ref_view(f.nickname) == opt_view(p.nickname),
        opt_ref_view(f.phonetic_given_name) == opt_view(p.phonetic_given_name),
        opt_ref_view(f.phonetic_middle_name) == opt_view(p.phonetic_middle_name),
        opt_ref_view(f.phonetic_family_name) == opt_view(p.phonetic_family_name),
        opt_ref_view(f.phonetic_organization_name) == opt_view(p.phonetic_organization_name),
        opt_ref_view(f.organization) == opt_view(p.organization),
        opt_ref_view(f.department) == opt_view(p.department),
        opt_ref_view(f.job_title) == opt_view(p.job_title),
        opt_ref_view(f.note) == opt_view(p.note),
        opt_ref_view(f.birthday) == opt_view(p.birthday),
{
}

} // verus!
