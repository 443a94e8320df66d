//! The failure conditions this crate reports.

use vstd::prelude::*;

verus! {

/// Why an operation of this crate failed.
#[derive(Clone, PartialEq, Eq, Debug)]
pub enum Error {
    /// A payload was finished while required fields were still unset; carries
    /// the wire names of every missing field, in protocol order.
    MissingFields(Vec<String>),
    /// The system clock could not be read when a payload was finalized.
    ClockUnavailable,
    /// A wire timestamp could not be decoded; carries the offending text.
    InvalidTimestamp(String),
    /// A failure of the delivery collaborator, passed through unchanged.
    Delivery(String),
}

} // verus!
