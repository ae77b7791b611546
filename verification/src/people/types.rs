//! Records of the people domain.

use vstd::prelude::*;

verus! {

/// One contact of the system address book.
#[derive(Debug, Clone)]
pub struct AddressBookContact {
    pub display_name: Option<String>,
    pub emails: Vec<String>,
    pub phones: Vec<String>,
}

/// A way of referring to a person.
#[derive(Debug, Clone)]
pub enum Handle {
    DisplayName(String),
    Email(String),
    IMessage(String),
}

} // verus!
