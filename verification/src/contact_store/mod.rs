//! The contact store's logic: what to read, what to write, and how to
//! answer.

pub mod edits;
pub mod fields;
pub mod params;
pub mod plans;
pub mod reads;
pub mod record;
pub mod roundtrip;

pub use self::fields::{
    parse_birthday, parse_contact_type, BirthdayComponents, ContactKind,
    NS_DATE_COMPONENT_UNDEFINED,
};
pub use self::params::{
    ContactsCreateParams, ContactsUpdateParams, EmailOp, PhoneOp, PostalAddressData, PostalOp,
    UrlOp,
};
pub use self::record::{
    contact_from_record, format_birthday, format_postal_address, none_if_empty, ContactRecord,
    PostalFields,
};
