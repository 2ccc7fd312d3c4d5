//! The records handed to clients.

use vstd::prelude::*;

verus! {

/// A contact as clients see it.
///
/// Optional scalar fields are `None` where the store holds an empty value.
#[derive(Debug, Clone)]
pub struct Contact {
    pub id: String,
    pub contact_type: String,
    pub first_name: String,
    pub last_name: String,
    pub full_name: String,
    pub name_prefix: Option<String>,
    pub middle_name: Option<String>,
    pub name_suffix: Option<String>,
    pub nickname: Option<String>,
    pub phonetic_given_name: Option<String>,
    pub phonetic_middle_name: Option<String>,
    pub phonetic_family_name: Option<String>,
    pub phonetic_organization_name: Option<String>,
    pub emails: Vec<String>,
    pub phones: Vec<String>,
    pub urls: Vec<String>,
    pub organization: Option<String>,
    pub department: Option<String>,
    pub job_title: Option<String>,
    pub note: Option<String>,
    pub birthday: Option<String>,
    pub addresses: Vec<String>,
}

/// A contact group and how many contacts belong to it.
#[derive(Debug, Clone)]
pub struct ContactGroup {
    pub id: String,
    pub name: String,
    pub member_count: usize,
}

} // verus!
