//! The data model of the plain ACARS message family: the pieces that other
//! records share.

use vstd::prelude::*;

verus! {

/// An acknowledgement field, which the wire carries either as a string or as
/// a boolean.
#[derive(Debug, Clone, Eq, PartialEq, Ord, PartialOrd)]
pub enum AckType {
    Text(String),
    Flag(bool),
}

impl Default for AckType {
    /// The default acknowledgement is the empty string.
    fn default() -> (r: Self)
        ensures
            r matches AckType::Text(s) && s@.len() == 0,
    {
        Self::Text(String::new())
    }
}

} // verus!
