//! What callers ask the store to write.

use vstd::prelude::*;

verus! {

/// A postal address as given by a caller; absent parts stay blank.
#[derive(Debug, Clone, Default)]
pub struct PostalAddressData {
    pub street: Option<String>,
    pub city: Option<String>,
    pub state: Option<String>,
    pub postal_code: Option<String>,
    pub country: Option<String>,
}

impl PostalAddressData {
    /// No part of the address is given.
    pub open spec fn has_no_parts(&self) -> bool {
        &&& self.street is None
        &&& self.city is None
        &&& self.state is None
        &&& self.postal_code is None
        &&& self.country is None
    }

    pub fn is_empty(&self) -> (r: bool)
        ensures
            r == self.has_no_parts(),
    {
        self.street.is_none() && self.city.is_none() && self.state.is_none()
            && self.postal_code.is_none() && self.country.is_none()
    }

    /// Some part is given and holds text; a part given as empty text counts
    /// as not given.
    pub open spec fn has_text(&self) -> bool {
        ||| self.street matches Some(v) && v@.len() > 0
        ||| self.city matches Some(v) && v@.len() > 0
        ||| self.state matches Some(v) && v@.len() > 0
        ||| self.postal_code matches Some(v) && v@.len() > 0
        ||| self.country matches Some(v) && v@.len() > 0
    }

    pub fn has_any_text(&self) -> (r: bool)
        ensures
            r == self.has_text(),
    {
        part_has_text(&self.street) || part_has_text(&self.city) || part_has_text(&self.state)
            || part_has_text(&self.postal_code) || part_has_text(&self.country)
    }
}

fn part_has_text(part: &Option<String>) -> (r: bool)
    ensures
        r == (part matches Some(v) && v@.len() > 0),
{
    match part {
        Some(v) => !v.as_str().is_empty(),
        None => false,
    }
}

/// The fields of a contact to create. Absent fields are left blank.
#[derive(Debug, Clone, Default)]
pub struct ContactsCreateParams {
    pub contact_type: Option<String>,
    pub name_prefix: Option<String>,
    pub first_name: Option<String>,
    pub middle_name: Option<String>,
    pub last_name: Option<String>,
    pub name_suffix: Option<String>,
    pub nickname: Option<String>,
    pub phonetic_given_name: Option<String>,
    pub phonetic_middle_name: Option<String>,
    pub phonetic_family_name: Option<String>,
    pub phonetic_organization_name: Option<String>,
    pub email: Option<String>,
    pub phone: Option<String>,
    pub url: Option<String>,
    pub organization: Option<String>,
    pub department: Option<String>,
    pub job_title: Option<String>,
    pub note: Option<String>,
    pub birthday: Option<String>,
    pub postal_address: Option<PostalAddressData>,
}

/// The changes to make to an existing contact. Absent fields are left as they are.
#[derive(Debug, Clone, Default)]
pub struct ContactsUpdateParams {
    pub id: String,
    pub contact_type: Option<String>,
    pub name_prefix: Option<String>,
    pub first_name: Option<String>,
    pub middle_name: Option<String>,
    pub last_name: Option<String>,
    pub name_suffix: Option<String>,
    pub nickname: Option<String>,
    pub phonetic_given_name: Option<String>,
    pub phonetic_middle_name: Option<String>,
    pub phonetic_family_name: Option<String>,
    pub phonetic_organization_name: Option<String>,
    pub organization: Option<String>,
    pub department: Option<String>,
    pub job_title: Option<String>,
    pub note: Option<String>,
    pub birthday: Option<String>,
    pub phone_op: Option<PhoneOp>,
    pub email_op: Option<EmailOp>,
    pub url_op: Option<UrlOp>,
    pub postal_op: Option<PostalOp>,
}

/// A change to a contact's phone numbers.
#[derive(Debug, Clone)]
pub enum PhoneOp {
    Add(String),
    Remove(String),
    Replace { from: String, to: String },
}

/// A change to a contact's email addresses.
#[derive(Debug, Clone)]
pub enum EmailOp {
    Add(String),
    Remove(String),
    Replace { from: String, to: String },
}

/// A change to a contact's URLs.
#[derive(Debug, Clone)]
pub enum UrlOp {
    Add(String),
    Remove(String),
    Replace { from: String, to: String },
}

/// A change to a contact's postal addresses. Existing entries are matched by
/// their joined-string form, the form exposed in `Contact.addresses`.
#[derive(Debug, Clone)]
pub enum PostalOp {
    Add(PostalAddressData),
    Remove(String),
    Replace { from: String, to: PostalAddressData },
}

} // verus!
