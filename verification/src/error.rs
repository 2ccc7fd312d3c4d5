//! The library's error type.

use vstd::prelude::*;

use crate::text::push_str;

verus! {

/// What can go wrong when talking to the contact store.
#[derive(Debug, Clone, PartialEq, Eq)]
pub enum ContactsError {
    AccessDenied,
    ContactNotFound(String),
    GroupNotFound(String),
    InvalidInput(String),
    OperationFailed(String),
    ObjcError(String),
    ChannelError(String),
}

impl ContactsError {
    /// The human-readable text of this error: a fixed prefix per variant,
    /// followed by the variant's detail.
    pub open spec fn message(self) -> Seq<char> {
        match self {
            ContactsError::AccessDenied => "contacts access denied"@,
            ContactsError::ContactNotFound(d) => "contact not found: "@ + d@,
            ContactsError::GroupNotFound(d) => "group not found: "@ + d@,
            ContactsError::InvalidInput(d) => "invalid input: "@ + d@,
            ContactsError::OperationFailed(d) => "operation failed: "@ + d@,
            ContactsError::ObjcError(d) => "objective-c error: "@ + d@,
            ContactsError::ChannelError(d) => "internal channel error: "@ + d@,
        }
    }

    /// Renders the error as text.
    pub fn to_string(&self) -> (r: String)
        ensures
            r@ == self.message(),
    {
        let mut out = String::new();
        match self {
            ContactsError::AccessDenied => {
                push_str(&mut out, "contacts access denied");
            },
            ContactsError::ContactNotFound(d) => {
                push_str(&mut out, "contact not found: ");
                push_str(&mut out, d.as_str());
            },
            ContactsError::GroupNotFound(d) => {
                push_str(&mut out, "group not found: ");
                push_str(&mut out, d.as_str());
            },
            ContactsError::InvalidInput(d) => {
                push_str(&mut out, "invalid input: ");
                push_str(&mut out, d.as_str());
            },
            ContactsError::OperationFailed(d) => {
                push_str(&mut out, "operation failed: ");
                push_str(&mut out, d.as_str());
            },
            ContactsError::ObjcError(d) => {
                push_str(&mut out, "objective-c error: ");
                push_str(&mut out, d.as_str());
            },
            ContactsError::ChannelError(d) => {
                push_str(&mut out, "internal channel error: ");
                push_str(&mut out, d.as_str());
            },
        }
        out
    }
}

} // verus!
