//! A prepaid electricity ledger: an owner authorises users and metering
//! devices, users top up credit, and meters debit what was consumed.

pub mod address;
pub mod laws;
pub mod counter;
pub mod ledger;
pub mod uint;
