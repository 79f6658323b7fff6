//! The data model of the Inmarsat-L-band message family: plain records that
//! mirror the JSON wire shape one to one.

use vstd::prelude::*;

verus! {

/// One L-band message, with its optional text, signal-unit and source
/// blocks.
#[derive(Debug, Clone, PartialEq, PartialOrd, Default)]
pub struct ImslMessage {
    pub bi: Option<i64>,
    pub has_text: Option<bool>,
    pub label: Option<String>,
    pub message: Option<String>,
    pub mode: Option<i64>,
    pub more_to_come: Option<bool>,
    pub msg_name: String,
    pub plane_reg: Option<String>,
    pub signal_unit: Option<SignalUnitBody>,
    pub source: Option<SourceBody>,
    pub tak: Option<i64>,
    pub timestamp: Option<i64>,
    pub freq: Option<String>,
}

/// The signal-unit block of an L-band message.
#[derive(Debug, Clone, Eq, PartialEq, Ord, PartialOrd, Default)]
pub struct SignalUnitBody {
    pub aes_id: i64,
    pub ges_id: i64,
    pub message_type: i64,
    pub no_of_bytes_in_last_su: i64,
    pub q_no: i64,
    pub ref_no: i64,
    pub seq_no: i64,
}

/// The source block of an L-band message: the producing application and the
/// receiving station.
#[derive(Debug, Clone, Eq, PartialEq, Ord, PartialOrd, Default)]
pub struct SourceBody {
    pub app: AppBody,
    pub station_id: String,
}

/// The producing application's name and version.
#[derive(Debug, Clone, Eq, PartialEq, Ord, PartialOrd, Default)]
pub struct AppBody {
    pub name: String,
    pub version: String,
}

} // verus!
