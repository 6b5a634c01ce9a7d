//! One-way publishing of a tree of locally written pages to a remote wiki.
//!
//! The library holds the rules of reconciliation: which lookup to send for a
//! desired page, and, given what the lookup reported, whether the page or
//! attachment is created or updated and with which version number. Sending the
//! requests is left to the caller.

pub mod guarantees;
pub mod model;
pub mod publisher;
pub mod reader;
pub mod yml;
