//! The contact properties read from the store.

use vstd::prelude::*;

verus! {

/// The keys to fetch for a contact, in the order they are requested.
pub open spec fn fetch_keys() -> Seq<Seq<char>> {
    seq![
        "identifier"@,
        "contactType"@,
        "namePrefix"@,
        "givenName"@,
        "middleName"@,
        "familyName"@,
        "nameSuffix"@,
        "nickname"@,
        "organizationName"@,
        "departmentName"@,
        "jobTitle"@,
        "phoneticGivenName"@,
        "phoneticMiddleName"@,
        "phoneticFamilyName"@,
        "phoneticOrganizationName"@,
        "emailAddresses"@,
        "phoneNumbers"@,
        "postalAddresses"@,
        "urlAddresses"@,
        "birthday"@,
    ]
}

/// The names of the contact keys to fetch.
///
/// The note is left out: reading it needs an entitlement the process does
/// not hold, and without it the read aborts the process. Writing the note
/// needs no entitlement.
pub fn contact_fetch_key_names() -> (r: Vec<&'static str>)
    ensures
        r@.map_values(|k: &'static str| k@) == fetch_keys(),
{
    let r: Vec<&'static str> = vec![
        "identifier",
        "contactType",
        "namePrefix",
        "givenName",
        "middleName",
        "familyName",
        "nameSuffix",
        "nickname",
        "organizationName",
        "departmentName",
        "jobTitle",
        "phoneticGivenName",
        "phoneticMiddleName",
        "phoneticFamilyName",
        "phoneticOrganizationName",
        "emailAddresses",
        "phoneNumbers",
        "postalAddresses",
        "urlAddresses",
        "birthday",
    ];
    proof {
        assert(r@.map_values(|k: &'static str| k@) =~= fetch_keys());
    }
    r
}

/// The note is never among the keys fetched.
pub proof fn law_note_is_never_fetched()
    ensures
        !fetch_keys().contains("note"@),
{
    reveal_strlit("note");
    reveal_strlit("identifier");
    reveal_strlit("contactType");
    reveal_strlit("namePrefix");
    reveal_strlit("givenName");
    reveal_strlit("middleName");
    reveal_strlit("familyName");
    reveal_strlit("nameSuffix");
    reveal_strlit("nickname");
    reveal_strlit("organizationName");
    reveal_strlit("departmentName");
    reveal_strlit("jobTitle");
    reveal_strlit("phoneticGivenName");
    reveal_strlit("phoneticMiddleName");
    reveal_strlit("phoneticFamilyName");
    reveal_strlit("phoneticOrganizationName");
    reveal_strlit("emailAddresses");
    reveal_strlit("phoneNumbers");
    reveal_strlit("postalAddresses");
    reveal_strlit("urlAddresses");
    reveal_strlit("birthday");
    let keys = fetch_keys();
    assert forall|i: int| 0 <= i < keys.len() implies keys[i] != "note"@ by {
        assert(keys[i].len() != 4 || keys[i][0] != 'n' || keys[i][1] != 'o');
    }
}

} // verus!
