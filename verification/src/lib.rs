//! A client facade over a ledger transport: it builds, signs and submits
//! transactions, and reports the signature of what it submitted.

pub mod laws;
pub mod ledger;
pub mod sdk;
pub mod signing;
pub mod thin_client;
