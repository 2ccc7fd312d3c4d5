//! Reading contacts and groups: which keys to fetch, how fetch failures are
//! answered, how many contacts a listing keeps, and which group a name picks.

use vstd::prelude::*;

use crate::contact_store::record::{contact_from_record, shows_record, ContactRecord};
use crate::error::ContactsError;
use crate::models::{Contact, ContactGroup};
use crate::contact_store::edits::{find_first, first_match};
use crate::text::{lowercase, push_str, string_of, to_lowercase, to_uppercase, uppercase, views};

verus! {

/// Why fetching a contact failed: whether the store has no such record, and
/// the store's description of the failure.
#[derive(Debug, Clone)]
pub struct FetchFailure {
    pub not_found: bool,
    pub description: String,
}

/// Whether an error from the store says the record does not exist: its
/// domain is the contacts error domain (where the store names one) and its
/// code is the one for a missing record.
pub fn is_record_not_found(
    contacts_domain: Option<&str>,
    domain: &str,
    code: isize,
    missing_record_code: isize,
) -> (r: bool)
    ensures
        r == match contacts_domain {
            Some(d) => domain@ == d@ && code == missing_record_code,
            None => false,
        },
{
    match contacts_domain {
        Some(d) => crate::text::str_equal(domain, d) && code == missing_record_code,
        None => false,
    }
}

/// The answer to a request for one contact: the contact where it was
/// fetched, nothing where no such record exists, and the store's error
/// otherwise.
pub fn lookup_outcome(fetched: Result<ContactRecord, FetchFailure>) -> (r: Result<
    Option<Contact>,
    ContactsError,
>)
    ensures
        match fetched {
            Ok(rec) => r matches Ok(Some(c)) && shows_record(c, rec),
            Err(f) => if f.not_found {
                r matches Ok(None)
            } else {
                r matches Err(ContactsError::ObjcError(d)) && d@ == f.description@
            },
        },
{
    match fetched {
        Ok(rec) => Ok(Some(contact_from_record(rec))),
        Err(f) => {
            if f.not_found {
                Ok(None)
            } else {
                Err(ContactsError::ObjcError(f.description))
            }
        },
    }
}

/// A contact that must exist before it is changed or deleted: a missing
/// record is reported as such, any other failure as the store's error.
pub fn require_found<R>(id: &str, fetched: Result<R, FetchFailure>) -> (r: Result<R, ContactsError>)
    ensures
        match fetched {
            Ok(x) => r == Ok::<R, ContactsError>(x),
            Err(f) => if f.not_found {
                r matches Err(ContactsError::ContactNotFound(d)) && d@ == id@
            } else {
                r matches Err(ContactsError::ObjcError(d)) && d@ == f.description@
            },
        },
{
    match fetched {
        Ok(x) => Ok(x),
        Err(f) => {
            if f.not_found {
                Err(ContactsError::ContactNotFound(string_of(id)))
            } else {
                Err(ContactsError::ObjcError(f.description))
            }
        },
    }
}

/// The form under which two names match regardless of case: the text
/// mapped to uppercase and then to lowercase, so that letters whose
/// uppercase is several letters (`'ß'` and `"SS"`, `'ﬁ'` and `"FI"`) match
/// too.
pub open spec fn case_folded(s: Seq<char>) -> Seq<char> {
    lowercase(uppercase(s))
}

/// The case-folded forms of a list of names.
pub open spec fn folded_names(names: Seq<String>) -> Seq<Seq<char>> {
    Seq::new(names.len(), |i: int| case_folded(names[i]@))
}

/// The case-folded form of `s`.
pub fn fold_case(s: &str) -> (r: String)
    ensures
        r@ == case_folded(s@),
{
    let upper = to_uppercase(s);
    to_lowercase(upper.as_str())
}

/// The index of the group that a name picks among groups whose names, in
/// case-folded form, are `folded_names`: the first equal to `folded_name`.
/// Where there is none, the group `name` is not found.
pub fn find_group_folded(folded_names: &Vec<String>, folded_name: &str, name: &str) -> (r: Result<
    usize,
    ContactsError,
>)
    ensures
        match first_match(views(folded_names@), folded_name@) {
            Some(i) => r == Ok::<usize, ContactsError>(i as usize),
            None => r matches Err(ContactsError::GroupNotFound(d)) && d@ == name@,
        },
{
    match find_first(folded_names, folded_name) {
        Some(i) => Ok(i),
        None => Err(ContactsError::GroupNotFound(string_of(name))),
    }
}

/// The index of the group that `name` picks: the first whose name matches
/// it regardless of case, that is, whose case-folded form equals that of
/// `name`.
pub fn find_group(names: &Vec<String>, name: &str) -> (r: Result<usize, ContactsError>)
    ensures
        match first_match(folded_names(names@), case_folded(name@)) {
            Some(i) => r == Ok::<usize, ContactsError>(i as usize),
            None => r matches Err(ContactsError::GroupNotFound(d)) && d@ == name@,
        },
{
    let mut folded: Vec<String> = Vec::new();
    let mut i: usize = 0;
    while i < names.len()
        invariant
            i <= names@.len(),
            views(folded@) == folded_names(names@).take(i as int),
        decreases names@.len() - i,
    {
        let f = fold_case(names[i].as_str());
        proof {
            assert(views(folded@.push(f)) == views(folded@).push(f@));
            assert(folded_names(names@).take(i + 1) == folded_names(names@).take(i as int).push(
                case_folded(names@[i as int]@),
            ));
        }
        folded.push(f);
        i = i + 1;
    }
    proof {
        assert(folded_names(names@).take(names@.len() as int) == folded_names(names@));
    }
    let folded_name = fold_case(name);
    find_group_folded(&folded, folded_name.as_str(), name)
}

/// Keeps the contacts a store enumeration hands over, at most a limit of
/// them, and says when to stop.
pub struct ContactCollector {
    contacts: Vec<Contact>,
    limit: usize,
}

/// The contacts a listing with limit `limit` keeps when the store hands over
/// `fed`, one by one: each is kept while fewer than `limit` are kept.
pub open spec fn collected(fed: Seq<Contact>, limit: nat) -> Seq<Contact>
    decreases fed.len(),
{
    if fed.len() == 0 {
        Seq::empty()
    } else {
        let kept = collected(fed.drop_last(), limit);
        if kept.len() < limit {
            kept.push(fed.last())
        } else {
            kept
        }
    }
}

impl ContactCollector {
    /// The contacts kept so far.
    pub closed spec fn kept(&self) -> Seq<Contact> {
        self.contacts@
    }

    /// How many contacts the listing may keep.
    pub closed spec fn limit(&self) -> nat {
        self.limit as nat
    }

    /// A collector that has kept nothing; without a limit it keeps every
    /// contact.
    pub fn new(limit: Option<usize>) -> (c: Self)
        ensures
            c.kept() == Seq::<Contact>::empty(),
            c.limit() == match limit {
                Some(l) => l as nat,
                None => usize::MAX as nat,
            },
    {
        ContactCollector { contacts: Vec::new(), limit: limit.unwrap_or(usize::MAX) }
    }

    /// Takes one more contact from the store, keeping it if fewer than the
    /// limit are kept, and says whether the store should stop: once the
    /// limit is reached.
    pub fn accept(&mut self, contact: Contact) -> (stop: bool)
        ensures
            final(self).kept() == (if old(self).kept().len() < old(self).limit() {
                old(self).kept().push(contact)
            } else {
                old(self).kept()
            }),
            final(self).limit() == old(self).limit(),
            stop == (final(self).kept().len() >= final(self).limit()),
    {
        if self.contacts.len() < self.limit {
            self.contacts.push(contact);
        }
        self.contacts.len() >= self.limit
    }

    /// The answer to the listing once the store is done: the contacts kept
    /// where the enumeration succeeded, the store's error where it reported
    /// one, and a generic failure otherwise.
    pub fn finish(self, succeeded: bool, error: Option<String>) -> (r: Result<
        Vec<Contact>,
        ContactsError,
    >)
        ensures
            succeeded ==> (r matches Ok(v) && v@ == self.kept()),
            !succeeded ==> (match error {
                Some(e) => r matches Err(ContactsError::ObjcError(d)) && d@ == e@,
                None => r matches Err(ContactsError::OperationFailed(d)) && d@
                    == "enumerate contacts failed"@,
            }),
    {
        if succeeded {
            Ok(self.contacts)
        } else {
            match error {
                Some(e) => Err(ContactsError::ObjcError(e)),
                None => {
                    let mut d = String::new();
                    push_str(&mut d, "enumerate contacts failed");
                    Err(ContactsError::OperationFailed(d))
                },
            }
        }
    }
}

/// A listing keeps the first `limit` contacts the store hands over (all of
/// them where there are fewer): never more than the limit, none for a limit
/// of zero.
pub proof fn law_listing_keeps_first_contacts(fed: Seq<Contact>, limit: nat)
    ensures
        collected(fed, limit) == fed.take(if fed.len() < limit { fed.len() as int } else { limit as int }),
        collected(fed, limit).len() <= limit,
    decreases fed.len(),
{
    if fed.len() > 0 {
        law_listing_keeps_first_contacts(fed.drop_last(), limit);
        let n = fed.len() as int;
        if n <= limit {
            assert(fed.drop_last().take(n - 1).push(fed.last()) =~= fed.take(n));
        } else {
            assert(fed.drop_last().take(limit as int) =~= fed.take(limit as int));
        }
    } else {
        assert(fed.take(0) =~= Seq::<Contact>::empty());
    }
}

/// Feeding contacts to a collector one by one keeps exactly what
/// `collected` describes.
pub proof fn law_collector_follows_collected(before: Seq<Contact>, c: Contact, limit: nat, fed: Seq<Contact>)
    requires
        before == collected(fed, limit),
    ensures
        (if before.len() < limit { before.push(c) } else { before }) == collected(fed.push(c), limit),
{
    assert(fed.push(c).drop_last() == fed);
}

/// Counts the members of one group as the store hands them over.
pub struct MemberCounter {
    count: usize,
}

impl MemberCounter {
    /// How many members were counted.
    pub closed spec fn counted(&self) -> nat {
        self.count as nat
    }

    pub fn new() -> (c: Self)
        ensures
            c.counted() == 0,
    {
        MemberCounter { count: 0 }
    }

    /// Counts one more member; the count stops at the largest `usize`.
    pub fn count_one(&mut self)
        ensures
            final(self).counted() == (if old(self).counted() < usize::MAX {
                old(self).counted() + 1
            } else {
                old(self).counted()
            }),
    {
        if self.count < usize::MAX {
            self.count = self.count + 1;
        }
    }

    /// The group as a listing shows it, with the members counted. A group
    /// whose members could not all be enumerated is still listed, with the
    /// members counted before the store failed.
    pub fn finish(self, id: String, name: String) -> (g: ContactGroup)
        ensures
            g.id == id,
            g.name == name,
            g.member_count == self.counted(),
    {
        ContactGroup { id, name, member_count: self.count }
    }
}

} // verus!
