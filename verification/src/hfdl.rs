//! The data model of the HFDL message family: plain records that mirror the
//! JSON wire shape one to one.

use vstd::prelude::*;

verus! {

/// A squitter protocol data unit.
#[derive(Debug, Clone, PartialEq, Default)]
pub struct SPDU {
    pub err: bool,
    pub src: SPDUorLPDUSource,
    pub spdu_version: u8,
    pub rls: bool,
    pub iso: bool,
    pub change_note: String,
    pub frame_index: u16,
    pub frame_offset: u8,
    pub min_priority: u8,
    pub systable_version: u8,
    pub gs_status: Vec<SPDUGroundStationStatus>,
}

/// The status of one ground station inside a squitter.
#[derive(Debug, Clone, PartialEq, Default)]
pub struct SPDUGroundStationStatus {
    pub gs: SPDUorLPDUSource,
    pub utc_sync: bool,
    pub freqs: Vec<FreqId>,
}

/// A reception timestamp: seconds and microseconds.
#[derive(Debug, Clone, Eq, PartialEq, Ord, PartialOrd, Default)]
pub struct TBlock {
    pub sec: u64,
    pub usec: u64,
}

/// Why a link protocol data unit was sent.
#[derive(Debug, Clone, Eq, PartialEq, Ord, PartialOrd, Default)]
pub struct LPDUReason {
    pub code: u16,
    pub descr: String,
}

/// A media-independent aircraft messaging block.
#[derive(Debug, Clone, Eq, PartialEq, Ord, PartialOrd, Default)]
pub struct Miam {
    pub single_transfer: MiamSingleTransfer,
}

/// A single-transfer messaging block.
#[derive(Debug, Clone, Eq, PartialEq, Ord, PartialOrd, Default)]
pub struct MiamSingleTransfer {
    pub miam_core: MiamCore,
}

/// The core of a messaging block.
#[derive(Debug, Clone, Eq, PartialEq, Ord, PartialOrd, Default)]
pub struct MiamCore {
    pub version: u8,
    pub pdu_type: u8,
    pub ack: MiamCoreAck,
}

/// The acknowledgement of a messaging-block transfer.
#[derive(Debug, Clone, Eq, PartialEq, Ord, PartialOrd, Default)]
pub struct MiamCoreAck {
    pub pdu_len: u16,
    pub aircraft_id: String,
    pub msg_ack_num: u16,
    pub ack_xfer_result: u8,
}

/// The name of an air-traffic-control unit.
#[derive(Debug, Clone, Eq, PartialEq, Ord, PartialOrd, Default)]
pub struct ATCICAOUnitName {
    pub icao_facility_id: Option<ICAOFacilityId>,
    pub icao_facility_function: String,
}

/// A facility identifier, carried as one of two shapes.
#[derive(Debug, Clone, Eq, PartialEq, Ord, PartialOrd, Default)]
pub struct ICAOFacilityId {
    pub choice: String,
    pub data: ICAOFacilityIdData,
}

/// The name or designation of a facility.
#[derive(Debug, Clone, Eq, PartialEq, Ord, PartialOrd, Default)]
pub struct ICAOFacilityIdData {
    pub icao_facility_name: Option<String>,
    pub icao_facility_designation: Option<String>,
}

/// The unit a frequency value is given in.
#[derive(Debug, Clone, Eq, PartialEq, Ord, PartialOrd, Default)]
pub enum FrequencyLabel {
    #[default]
    MHz,
}

/// The header of a controller-pilot uplink message.
#[derive(Debug, Clone, Eq, PartialEq, Ord, PartialOrd, Default)]
pub struct ATCUplinkHeader {
    pub msg_id: u16,
    pub msg_ref: Option<u16>,
    pub timestamp: Option<UTCTime>,
}

/// An ACARS media advisory: the current link and the links available.
#[derive(Debug, Clone, PartialEq, Default)]
pub struct LPDUAcarsMediaAdvisory {
    pub err: bool,
    pub version: u8,
    pub current_link: LPDUAcarsMediaAdvisoryLink,
    pub links_avail: Vec<LPDUACARSMediaAdivsoryLinksAvailble>,
}

/// The established link of a media advisory.
#[derive(Debug, Clone, Eq, PartialEq, Ord, PartialOrd, Default)]
pub struct LPDUAcarsMediaAdvisoryLink {
    pub code: String,
    pub descr: String,
    pub established: bool,
    pub time: UTCTime,
}

/// One available link of a media advisory.
#[derive(Debug, Clone, Eq, PartialEq, Ord, PartialOrd, Default)]
pub struct LPDUACARSMediaAdivsoryLinksAvailble {
    pub code: String,
    pub descr: String,
}

/// The source or destination of a protocol data unit.
#[derive(Debug, Clone, PartialEq, Default)]
pub struct SPDUorLPDUSource {
    pub source_type: LPDUSrcType,
    pub id: u16,
    pub ac_info: Option<LPDUAircraftInfo>,
}

/// Whether a protocol data unit came from an aircraft or a ground station.
#[derive(Debug, Clone, Eq, PartialEq, Default)]
pub enum LPDUSrcType {
    #[default]
    Aircraft,
    GroundStation,
}

/// The numbered type of a link protocol data unit.
#[derive(Debug, Clone, Eq, PartialEq, Ord, PartialOrd, Default)]
pub struct LPDUType {
    pub name: String,
    pub id: u16,
}

/// The aircraft a protocol data unit speaks of.
#[derive(Debug, Clone, Eq, PartialEq, Ord, PartialOrd, Default)]
pub struct LPDUAircraftInfo {
    pub icao: String,
}

/// Why the aircraft last changed frequency.
#[derive(Debug, Clone, Eq, PartialEq, Ord, PartialOrd, Default)]
pub struct LastFreqChangeCause {
    pub code: u8,
    pub descr: String,
}

/// Protocol-data-unit statistics, by direction and outcome.
#[derive(Debug, Clone, Eq, PartialEq, Ord, PartialOrd, Default)]
pub struct PDUStats {
    pub mpdus_rx_ok_cnt: PDUStatCounts,
    pub mpdus_rx_err_cnt: PDUStatCounts,
    pub mpdus_tx_cnt: PDUStatCounts,
    pub mpdus_delivered_cnt: PDUStatCounts,
    pub spdus_rx_ok_cnt: u16,
    pub spdus_missed_cnt: u16,
}

/// One statistics row, counted per bit rate.
#[derive(Debug, Clone, Eq, PartialEq, Ord, PartialOrd, Default)]
pub struct PDUStatCounts {
    pub three_hundred_bps: u8,
    pub six_hundred_bps: u8,
    pub twelve_hundred_bps: u8,
    pub eighteen_hundred_bps: u8,
}

/// For how long the HFDL function was disabled, by flight leg.
#[derive(Debug, Clone, Eq, PartialEq, Ord, PartialOrd, Default)]
pub struct LPDUHfnPduDisabledCount {
    pub this_leg: u16,
    pub prev_leg: u16,
}

/// How often a frequency search ran, by flight leg.
#[derive(Debug, Clone, Eq, PartialEq, Ord, PartialOrd, Default)]
pub struct LPDUHfnPduCount {
    pub cur_leg: u16,
    pub prev_leg: u16,
}

/// A time of day in hours, minutes and seconds.
#[derive(Debug, Clone, Eq, PartialEq, Ord, PartialOrd, Default)]
pub struct UTCTime {
    pub hour: u8,
    pub min: u8,
    pub sec: u8,
}

/// The frequencies one ground station is listened to or heard on.
#[derive(Debug, Clone, PartialEq, Default)]
pub struct LPDUFreqData {
    pub gs: SPDUorLPDUSource,
    pub listening_on_freqs: Vec<FreqId>,
    pub heard_on_freqs: Vec<FreqId>,
}

/// A frequency, by its table identifier.
#[derive(Debug, Clone, Eq, PartialEq, Ord, PartialOrd, Default)]
pub struct FreqId {
    pub id: u16,
}

} // verus!
