//! The data model of the Iridium ACARS message family: plain records that
//! mirror the JSON wire shape one to one.

use vstd::prelude::*;

verus! {

/// The producing application's name and version.
#[derive(Debug, Clone, Eq, PartialEq, Ord, PartialOrd, Default)]
pub struct AppBody {
    pub name: String,
    pub version: String,
}

/// Where a message was received: transport, protocol and station.
#[derive(Debug, Clone, Eq, PartialEq, Ord, PartialOrd, Default)]
pub struct SourceBody {
    pub transport: String,
    pub protocol: String,
    pub station_id: String,
}

/// The ACARS block of an Iridium message.
#[derive(Debug, Clone, Eq, PartialEq, Ord, PartialOrd, Default)]
pub struct AcarsBody {
    pub timestamp: String,
    pub errors: i64,
    pub link_direction: String,
    pub block_end: bool,
    pub mode: String,
    pub tail: String,
    pub label: String,
    pub block_id: String,
    pub ack: String,
    pub text: String,
}

} // verus!
