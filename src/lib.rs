//! Assembles the request body for submitting a signed transaction to the
//! public test network, and interprets the receipt that comes back.

pub mod transaction;
pub mod error;
pub mod request;
pub mod receipt;
