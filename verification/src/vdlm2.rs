//! The data model of the VDL Mode 2 message family: plain records that
//! mirror the JSON wire shape one to one.

use vstd::prelude::*;

verus! {

/// A reception timestamp: seconds and microseconds.
#[derive(Debug, Clone, Eq, PartialEq, Ord, PartialOrd, Default)]
pub struct TBlock {
    pub sec: u64,
    pub usec: u64,
}

/// The destination block of an AVLC frame.
#[derive(Debug, Clone, Eq, PartialEq, Ord, PartialOrd, Default)]
pub struct DstBlock {
    pub addr: String,
    pub vehicle_type: String,
}

/// The source block of an AVLC frame.
#[derive(Debug, Clone, Eq, PartialEq, Ord, PartialOrd, Default)]
pub struct SrcBlock {
    pub addr: String,
    pub status: String,
    pub source_type: String,
}

/// A tag group of an automatic-dependent-surveillance contract message.
#[derive(Debug, Clone, Eq, PartialEq, Ord, PartialOrd)]
pub enum AdscTagGroups {
    ReportInterval { interval_secs: u16 },
}

impl Default for AdscTagGroups {
    /// The default tag group reports a zero-second interval.
    fn default() -> (r: Self)
        ensures
            r == (AdscTagGroups::ReportInterval { interval_secs: 0u16 }),
    {
        Self::ReportInterval { interval_secs: 0 }
    }
}

/// A non-compliance notification group.
#[derive(Debug, Clone, Eq, PartialEq, Ord, PartialOrd, Default)]
pub struct NonCompMessageGroup {
    pub noncomp_tag: i64,
    pub noncomp_cause: String,
}

/// A controller-pilot downlink message.
#[derive(Debug, Clone, Eq, PartialEq, Ord, PartialOrd, Default)]
pub struct ATCDownlinkMsg {
    pub header: ATCDownlinkMsgHeader,
    pub atc_downlink_msg_element_id: ATCDownlinkMsgElementID,
}

/// The timestamp of a downlink message.
#[derive(Debug, Clone, Eq, PartialEq, Ord, PartialOrd, Default)]
pub struct ATCDownlinkTimestamp {
    pub hour: u16,
    pub min: u16,
    pub sec: u16,
}

/// The data of a downlink message element.
#[derive(Debug, Clone, Eq, PartialEq, Ord, PartialOrd, Default)]
pub struct ATCDownlinkData {
    pub ver_num: Option<u16>,
}

/// The header of a downlink message.
#[derive(Debug, Clone, Eq, PartialEq, Ord, PartialOrd, Default)]
pub struct ATCDownlinkMsgHeader {
    pub msg_id: u16,
    pub msg_ref: Option<u16>,
    pub timestamp: ATCDownlinkTimestamp,
}

/// One element of a downlink message.
#[derive(Debug, Clone, Eq, PartialEq, Ord, PartialOrd, Default)]
pub struct ATCDownlinkMsgElementID {
    pub choice_label: String,
    pub choice: String,
    pub data: ATCDownlinkData,
}

} // verus!
