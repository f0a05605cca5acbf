//! The ways in which a request for the feed fails. Every one of them fails
//! the request as a whole: there is no partial feed.

use vstd::prelude::*;

verus! {

/// Why no feed could be made.
#[derive(Debug, Clone, Copy, PartialEq, Eq, Structural)]
pub enum CalError {
    /// The provider was not reached, or what it sent was no answer.
    Network,
    /// The answer lacks a member that is needed, or holds a value of another
    /// shape there.
    Protocol,
    /// A reference from one table into another names a row that is not there.
    Resolution,
    /// A time of day cannot be read, or a card marks no weekday.
    Format,
}

} // verus!
