//! People: contacts read from the system address book and the mapping of
//! handles (names, emails, message ids) to people.

pub mod address_book;
pub mod resolver;
pub mod types;
