//! The data model for downlink Mode S / ADS-B packets: the Downlink Format
//! envelope, the extended-squitter message (ME) payloads, and every
//! fixed-width field they carry.
//!
//! Every record is immutable once decoded and is a pure function of its input
//! bytes; see `adsb_decode` for the decoder and its contracts.

use vstd::prelude::*;

verus! {

/// Downlink ADS-B packet: the decoded Downlink Format envelope plus the
/// CRC-24 computed over the whole encoded message.
#[derive(Debug, PartialEq, Clone)]
pub struct AdsbRawMessage {
    /// Decoded from the packet's leading 5-bit Downlink Format selector.
    pub df: DF,
    /// Calculated from all bits; doubles as the ICAO address for reply
    /// packets.
    pub crc: u32,
}

/// Downlink Format: the leading 5 bits select the message shape.
#[derive(Debug, PartialEq, Clone)]
pub enum DF {
    /// 17: Extended Squitter — civil aircraft ADS-B message.
    ADSB(Adsb),
    /// 11: All-call reply.
    AllCallReply { capability: Capability, icao: ICAO, p_icao: ICAO },
    /// 0: Short air-air surveillance.
    ShortAirAirSurveillance {
        vs: u8,
        cc: u8,
        unused: u8,
        sl: u8,
        unused1: u8,
        ri: u8,
        unused2: u8,
        altitude: AC13Field,
        parity: ICAO,
    },
    /// 4: Surveillance altitude reply.
    SurveillanceAltitudeReply {
        fs: FlightStatus,
        dr: DownlinkRequest,
        um: UtilityMessage,
        ac: AC13Field,
        ap: ICAO,
    },
    /// 5: Surveillance identity reply.
    SurveillanceIdentityReply {
        fs: FlightStatus,
        dr: DownlinkRequest,
        um: UtilityMessage,
        id: IdentityCode,
        ap: ICAO,
    },
    /// 16: Long air-air surveillance.
    LongAirAir {
        vs: u8,
        spare1: u8,
        sl: u8,
        spare2: u8,
        ri: u8,
        spare3: u8,
        altitude: AC13Field,
        mv: Vec<u8>,
        parity: ICAO,
    },
    /// 18: Extended squitter / supplementary, for transmitters that cannot
    /// be interrogated.
    TisB { cf: ControlField, pi: ICAO },
    /// 19: Extended squitter military application.
    ExtendedQuitterMilitaryApplication { af: u8 },
    /// 20: Comm-B altitude reply.
    CommBAltitudeReply {
        flight_status: FlightStatus,
        dr: DownlinkRequest,
        um: UtilityMessage,
        alt: AC13Field,
        bds: BDS,
        parity: ICAO,
    },
    /// 21: Comm-B identity reply; `id` is the squawk recovered through the
    /// Gillham remap.
    CommBIdentityReply {
        fs: FlightStatus,
        dr: DownlinkRequest,
        um: UtilityMessage,
        id: u32,
        bds: BDS,
        parity: ICAO,
    },
    /// 24..=31: Comm-D extended length message.
    CommDExtendedLengthMessage { spare: u8, ke: KE, nd: u8, md: Vec<u8>, parity: ICAO },
}

/// The body of a Downlink Format 17 extended squitter.
#[derive(Debug, PartialEq, Clone)]
pub struct Adsb {
    /// Transponder capability.
    pub capability: Capability,
    /// ICAO aircraft address.
    pub icao: ICAO,
    /// Message, extended squitter.
    pub me: ME,
    /// Parity / interrogator identifier.
    pub pi: ICAO,
}

/// ICAO address: the Mode S transponder code, three bytes, naturally ordered
/// over the bytes for use as a map key.
#[derive(Debug, PartialEq, Eq, PartialOrd, Ord, Hash, Copy, Clone)]
pub struct ICAO(pub [u8; 3]);

/// ADS-B message: the first 5 bits of the 56-bit ME field are the Type Code
/// that selects the payload shape.
#[derive(Debug, PartialEq, Clone)]
pub enum ME {
    /// TC 9..=18: airborne position with barometric altitude.
    AirbornePositionBaroAltitude(Altitude),
    /// TC 19: airborne velocity.
    AirborneVelocity(AirborneVelocity),
    /// TC 0: no position information.
    NoPosition([u8; 6]),
    /// TC 1..=4: aircraft identification and category.
    AircraftIdentification(Identification),
    /// TC 5..=8: surface position.
    SurfacePosition(SurfacePosition),
    /// TC 20..=22: airborne position with GNSS altitude.
    AirbornePositionGNSSAltitude(Altitude),
    /// TC 23: reserved.
    Reserved0([u8; 6]),
    /// TC 24: reserved for surface system status.
    SurfaceSystemStatus([u8; 6]),
    /// TC 25..=27: reserved.
    Reserved1([u8; 6]),
    /// TC 28: aircraft status.
    AircraftStatus(AircraftStatus),
    /// TC 29: target state and status information.
    TargetStateAndStatusInformation(TargetStateAndStatusInformation),
    /// TC 30: aircraft operational coordination.
    AircraftOperationalCoordination([u8; 6]),
    /// TC 31: aircraft operational status.
    AircraftOperationStatus(OperationStatus),
}

/// Airborne position: altitude plus raw CPR latitude/longitude integers.
/// The CPR integers are captured, never resolved into degrees.
#[derive(Debug, PartialEq, Eq, Copy, Clone, Structural)]
pub struct Altitude {
    pub tc: u8,
    pub ss: SurveillanceStatus,
    pub saf_or_imf: u8,
    /// Altitude in feet; `None` when the field is present but unresolvable.
    pub alt: Option<u16>,
    /// UTC sync or not.
    pub t: bool,
    /// Odd or even CPR frame.
    pub odd_flag: CPRFormat,
    pub lat_cpr: u32,
    pub lon_cpr: u32,
}

/// Aircraft identification: category and callsign.
#[derive(Debug, PartialEq, Eq, Clone)]
pub struct Identification {
    pub tc: TypeCoding,
    pub ca: u8,
    /// N-number / tail number.
    pub cn: String,
}

/// Identification category set, from the 5-bit Type Code 4..=1.
#[derive(Debug, PartialEq, Eq, Copy, Clone, Structural)]
pub enum TypeCoding {
    D,
    C,
    B,
    A,
}

/// Surface position: movement, ground track and raw CPR integers.
#[derive(Debug, PartialEq, Eq, Copy, Clone, Structural)]
pub struct SurfacePosition {
    pub mov: u8,
    pub s: StatusForGroundTrack,
    pub trk: u8,
    pub t: bool,
    pub f: CPRFormat,
    pub lat_cpr: u32,
    pub lon_cpr: u32,
}

/// Airborne velocity, with its sub-type payload and vertical-rate fields.
#[derive(Debug, PartialEq, Eq, Clone, Structural)]
pub struct AirborneVelocity {
    pub st: u8,
    pub nac_v: u8,
    pub sub_type: AirborneVelocitySubType,
    pub vrate_src: VerticalRateSource,
    pub vrate_sign: Sign,
    pub vrate_value: u16,
    pub reverved: u8,
    pub gnss_sign: Sign,
    /// GNSS/barometric altitude difference in feet: `(raw - 1) * 25` when
    /// the raw 7-bit field is above 1, else 0.
    pub gnss_baro_diff: u16,
}

/// Airborne velocity sub-type code field encoding.
#[derive(Debug, PartialEq, Eq, Clone, Structural)]
pub enum AirborneVelocitySubType {
    Reserved0(u32),
    GroundSpeedDecoding(GroundSpeedDecoding),
    AirspeedDecoding(AirspeedDecoding),
    Reserved1(u32),
}

/// Ground-speed decoding: signed east-west and north-south velocity
/// components, each raw 10-bit value with its direction sign.
#[derive(Debug, PartialEq, Eq, Copy, Clone, Structural)]
pub struct GroundSpeedDecoding {
    pub ew_sign: Sign,
    pub ew_vel: u16,
    pub ns_sign: Sign,
    pub ns_vel: u16,
}

/// Airspeed decoding: heading validity flag with raw 10-bit heading, and
/// airspeed validity flag with `raw - 1` airspeed.
///
/// The heading is surfaced as the raw 10-bit integer: no unit scale for it is
/// documented for this sub-type, so none is invented here.
#[derive(Debug, PartialEq, Eq, Copy, Clone, Structural)]
pub struct AirspeedDecoding {
    pub status_heading: u8,
    pub mag_heading: u16,
    pub airspeed_type: u8,
    /// `raw - 1` when the raw 10-bit field is positive, else 0.
    pub airspeed: u16,
}

/// Aircraft status: emergency state and the squawk recovered through the
/// Gillham remap. The remap is unconditional: squawk decoding never fails.
#[derive(Debug, PartialEq, Eq, Copy, Clone, Structural)]
pub struct AircraftStatus {
    pub sub_type: AircraftStatusType,
    pub emergency_state: EmergencyState,
    pub squawk: u32,
}

/// Aircraft status sub-type.
#[derive(Debug, PartialEq, Eq, Copy, Clone, Structural)]
pub enum AircraftStatusType {
    NoInformation,
    EmergencyPriorityStatus,
    ACASRaBroadcast,
    Reserved,
}

/// Emergency / priority state.
#[derive(Debug, PartialEq, Eq, Copy, Clone, Structural)]
pub enum EmergencyState {
    NoEmergency,
    General,
    Lifeguard,
    MinimumFuel,
    NoCommunication,
    UnlawfulInterference,
    DownedAircraft,
    Reserved2,
}

/// Target state and status information.
///
/// The altimeter setting and heading are kept as the raw field integers:
/// `qnh_raw` of 0 means "no setting", any other value stands for
/// `800.0 + (qnh_raw - 1) * 0.8` millibars; `heading_raw` scales as
/// `heading_raw * 180 / 256` degrees. The scaling is presentation, left to
/// the caller, because it is not exact in integers.
#[derive(Debug, PartialEq, Eq, Copy, Clone, Structural)]
pub struct TargetStateAndStatusInformation {
    pub subtype: u8,
    pub is_fms: bool,
    /// MCP altitude in feet: `(raw - 1) * 32` when the raw 12-bit field is
    /// above 1, else 0.
    pub altitude: u32,
    /// Raw 9-bit altimeter-setting field.
    pub qnh_raw: u16,
    pub is_heading: bool,
    /// Raw 9-bit heading field.
    pub heading_raw: u16,
    pub nacp: u8,
    pub nicbaro: u8,
    pub sil: u8,
    pub mode_validity: bool,
    pub autopilot: bool,
    pub vnac: bool,
    pub alt_hold: bool,
    pub imf: bool,
    pub approach: bool,
    pub tcas: bool,
    pub lnav: bool,
}

/// Aircraft operational status sub-shape.
#[derive(Debug, PartialEq, Eq, Copy, Clone)]
pub enum OperationStatus {
    Airborne(OperationStatusAirborne),
    Surface(OperationStatusSurface),
    Reserved(u8, [u8; 5]),
}

/// Aircraft operational status, airborne sub-shape (version 2 only).
#[derive(Debug, PartialEq, Eq, Copy, Clone, Structural)]
pub struct OperationStatusAirborne {
    /// CC: capability class.
    pub capability_class: CapabilityClassAirborne,
    /// OM: operational modes.
    pub operational_mode: OperationalMode,
    pub version_number: ADSBVersion,
    pub nic_supplement_a: u8,
    pub navigational_accuracy_category: u8,
    pub geometric_vertical_accuracy: u8,
    pub source_integrity_level: u8,
    pub barometric_altitude_integrity: u8,
    pub horizontal_reference_direction: u8,
    pub sil_supplement: u8,
}

/// Airborne capability class bitfields; the reserved bits are required to be
/// zero and their check failing fails the whole decode.
#[derive(Debug, PartialEq, Eq, Copy, Clone, Structural)]
pub struct CapabilityClassAirborne {
    pub reserved0: u8,
    /// TCAS operational.
    pub acas: u8,
    /// 1090ES IN.
    pub cdti: u8,
    pub reserved1: u8,
    pub arv: u8,
    pub ts: u8,
    pub tc: u8,
}

/// Aircraft operational status, surface sub-shape (version 2 only).
#[derive(Debug, PartialEq, Eq, Copy, Clone, Structural)]
pub struct OperationStatusSurface {
    /// CC: capability class.
    pub capability_class: CapabilityClassSurface,
    /// CC length/width codes.
    pub lw_codes: u8,
    /// OM: operational modes.
    pub operational_mode: OperationalMode,
    /// The OM bits specific to the surface shape.
    pub gps_antenna_offset: u8,
    pub version_number: ADSBVersion,
    pub nic_supplement_a: u8,
    pub navigational_accuracy_category: u8,
    pub source_integrity_level: u8,
    pub barometric_altitude_integrity: u8,
    pub horizontal_reference_direction: u8,
    pub sil_supplement: u8,
}

/// Surface capability class bitfields.
#[derive(Debug, PartialEq, Eq, Copy, Clone, Structural)]
pub struct CapabilityClassSurface {
    /// Zero in the current version, reserved as an id for later versions.
    pub reserved0: u8,
    /// Position offset applied.
    pub poe: u8,
    /// Aircraft has ADS-B 1090ES receive capability.
    pub es1090: u8,
    /// Class B2 ground vehicle transmitting with less than 70 watts.
    pub b2_low: u8,
    /// Aircraft has ADS-B UAT receive capability.
    pub uat_in: u8,
    /// Navigation accuracy category for velocity.
    pub nac_v: u8,
    /// NIC supplement used on the surface.
    pub nic_supplement_c: u8,
}

/// Operational-mode field, without the trailing 8 bits that differ between
/// the surface and airborne shapes.
#[derive(Debug, PartialEq, Eq, Copy, Clone, Structural)]
pub struct OperationalMode {
    /// Zero in version 2, reserved for other values.
    pub reserved: u8,
    pub tcas_ra_active: bool,
    pub ident_switch_active: bool,
    pub reserved_recv_atc_service: bool,
    pub single_antenna_flag: bool,
    pub system_design_assurance: u8,
}

/// ADS-B version, as defined across the ICAO 9871 appendices.
#[derive(Debug, PartialEq, Eq, Copy, Clone, Structural)]
pub enum ADSBVersion {
    DOC9871AppendixA,
    DOC9871AppendixB,
    DOC9871AppendixC,
}

/// Control field of a Downlink Format 18 message.
#[derive(Debug, PartialEq, Clone)]
pub struct ControlField {
    pub t: ControlFieldType,
    /// AA: address, announced.
    pub aa: ICAO,
    /// ME: message, extended squitter.
    pub me: ME,
}

/// Control field type codes of a Downlink Format 18 message.
#[derive(Debug, PartialEq, Eq, Copy, Clone, Structural)]
#[allow(non_camel_case_types)]
pub enum ControlFieldType {
    /// ADS-B message from a non-transponder device.
    ADSB_ES_NT,
    /// Reserved for ADS-B for ES/NT devices for alternate address space.
    ADSB_ES_NT_ALT,
    /// Fine-format TIS-B message.
    TISB_FINE,
    /// Coarse-format TIS-B message.
    TISB_COARSE,
    /// Coarse-format TIS-B message.
    TISB_MANAGE,
    /// TIS-B message for replay of ADS-B messages, anonymous addresses.
    TISB_ADSB_RELAY,
    /// TIS-B message, same as DF 17.
    TISB_ADSB,
    /// Reserved.
    Reserved,
}

/// Transponder level and additional information.
#[derive(Debug, PartialEq, Eq, Copy, Clone, Structural)]
#[allow(non_camel_case_types)]
pub enum Capability {
    /// Level 1 transponder, airborne or on the ground.
    AG_UNCERTAIN,
    /// Codes 1 to 3: reserved.
    Reserved,
    /// Level 2 or above transponder, on the ground.
    AG_GROUND,
    /// Level 2 or above transponder, airborne.
    AG_AIRBORNE,
    /// Level 2 or above transponder, airborne or on the ground.
    AG_UNCERTAIN2,
    /// DR not 0 or FS in 2..=5, airborne or on the ground.
    AG_UNCERTAIN3,
}

impl Default for Capability {
    /// The default capability is the level 1, airborne-or-ground code.
    fn default() -> (r: Self)
        ensures
            r == Capability::AG_UNCERTAIN,
    {
        Capability::AG_UNCERTAIN
    }
}

/// Airborne / ground and SPI condition.
#[derive(Debug, PartialEq, Eq, Copy, Clone, Structural)]
pub enum FlightStatus {
    NoAlertNoSPIAirborne,
    NoAlertNoSPIOnGround,
    AlertNoSPIAirborne,
    AlertNoSPIOnGround,
    AlertSPIAirborneGround,
    NoAlertSPIAirborneGround,
    Reserved,
    NotAssigned,
}

/// Type of downlink request.
#[derive(Debug, PartialEq, Eq, Copy, Clone, Structural)]
pub enum DownlinkRequest {
    NoRequest,
    RequestSendCommB,
    CommBBroadcastMsg1,
    CommBBroadcastMsg2,
    Unknown,
}

/// Utility message: interrogator identifier subfield and reservation type.
#[derive(Debug, PartialEq, Eq, Copy, Clone, Structural)]
pub struct UtilityMessage {
    pub iis: u8,
    pub ids: UtilityMessageType,
}

/// Utility message reservation type.
#[derive(Debug, PartialEq, Eq, Copy, Clone, Structural)]
pub enum UtilityMessageType {
    NoInformation,
    CommB,
    CommC,
    CommD,
}

/// Uplink / downlink control of an extended length message.
#[derive(Debug, PartialEq, Eq, Copy, Clone, Structural)]
pub enum KE {
    DownlinkELMTx,
    UplinkELMAck,
}

/// Comm-B reply content, keyed by its 8-bit BDS code.
#[derive(Debug, PartialEq, Eq, Clone)]
pub enum BDS {
    /// BDS (0,0): empty response.
    Empty([u8; 6]),
    /// BDS (1,0): data link capability report.
    DataLinkCapability(DataLinkCapability),
    /// BDS (2,0): aircraft identification.
    AircraftIdentification(String),
    /// Any other BDS code, kept uninterpreted.
    Unknown([u8; 6]),
}

/// The data link capability of the Mode S transponder installation.
#[derive(Debug, PartialEq, Eq, Copy, Clone, Structural)]
pub struct DataLinkCapability {
    pub continuation_flag: bool,
    pub overlay_command_capability: bool,
    pub acas: bool,
    pub mode_s_subnetwork_version_number: u8,
    pub transponder_enhanced_protocol_indicator: bool,
    pub mode_s_specific_services_capability: bool,
    pub uplink_elm_average_throughput_capability: u8,
    pub downlink_elm: u8,
    pub aircraft_identification_capability: bool,
    pub squitter_capability_subfield: bool,
    pub surveillance_identifier_code: bool,
    pub common_usage_gicb_capability_report: bool,
    pub reserved_acas: u8,
    pub bit_array: u16,
}

/// 13-bit identity code, regrouped into its four octal digits.
#[derive(Debug, PartialEq, Eq, Copy, Clone, Structural)]
pub struct IdentityCode(pub u16);

/// 13-bit encoded altitude in feet; `None` when the field is present but
/// unresolvable (M bit set, invalid Gillham combination, or a value at or
/// below the quantization floor).
#[derive(Debug, PartialEq, Eq, Copy, Clone, Structural)]
pub struct AC13Field(pub Option<u16>);

/// SPI condition.
#[derive(Debug, PartialEq, Eq, Copy, Clone, Structural)]
pub enum SurveillanceStatus {
    NoCondition,
    PermanentAlert,
    TemporaryAlert,
    SPICondition,
}

impl Default for SurveillanceStatus {
    /// The default surveillance status reports no condition.
    fn default() -> (r: Self)
        ensures
            r == SurveillanceStatus::NoCondition,
    {
        Self::NoCondition
    }
}

/// Even / odd CPR frame flag.
#[derive(Debug, PartialEq, Eq, Copy, Clone, Structural)]
pub enum CPRFormat {
    Even,
    Odd,
}

impl Default for CPRFormat {
    /// The default CPR format flag is even.
    fn default() -> (r: Self)
        ensures
            r == CPRFormat::Even,
    {
        Self::Even
    }
}

/// Positive / negative sign bit.
#[derive(Debug, PartialEq, Eq, Copy, Clone, Structural)]
pub enum Sign {
    Positive,
    Negative,
}

impl Sign {
    /// The signed unit this sign bit stands for: +1 or -1.
    pub fn value(&self) -> (r: i16)
        ensures
            r == self.spec_value(),
    {
        match self {
            Self::Positive => 1,
            Self::Negative => -1,
        }
    }

    /// +1 for the positive sign, -1 for the negative one.
    pub open spec fn spec_value(&self) -> i16 {
        match self {
            Self::Positive => 1i16,
            Self::Negative => -1i16,
        }
    }
}

/// Source of the vertical rate measurement.
#[derive(Debug, PartialEq, Eq, Copy, Clone, Structural)]
pub enum VerticalRateSource {
    BarometricPressureAltitude,
    GeometricAltitude,
}

/// Validity of the ground-track field of a surface position.
#[derive(Debug, PartialEq, Eq, Copy, Clone, Structural)]
pub enum StatusForGroundTrack {
    Invalid,
    Valid,
}

impl AirborneVelocity {
    /// The vertical rate in feet per minute: `(raw - 1) * 64`, signed by the
    /// vertical-rate sign bit; `None` when the raw 9-bit field is zero.
    pub fn vertical_rate(&self) -> (r: Option<i32>)
        ensures
            r == self.spec_vertical_rate(),
    {
        if self.vrate_value >= 1 {
            let magnitude: i32 = (self.vrate_value as i32 - 1) * 64;
            if matches!(self.vrate_sign, Sign::Positive) {
                Some(magnitude)
            } else {
                Some(-magnitude)
            }
        } else {
            None
        }
    }

    /// The signed vertical rate owed for each raw field value.
    pub open spec fn spec_vertical_rate(&self) -> Option<i32> {
        if self.vrate_value >= 1 {
            Some(((self.vrate_value - 1) * 64 * self.vrate_sign.spec_value()) as i32)
        } else {
            None
        }
    }
}


/// The lowercase hex digit for a nibble value.
pub open spec fn spec_hex_char(n: u8) -> char {
    match n {
        0u8 => '0',
        1u8 => '1',
        2u8 => '2',
        3u8 => '3',
        4u8 => '4',
        5u8 => '5',
        6u8 => '6',
        7u8 => '7',
        8u8 => '8',
        9u8 => '9',
        10u8 => 'a',
        11u8 => 'b',
        12u8 => 'c',
        13u8 => 'd',
        14u8 => 'e',
        _ => 'f',
    }
}

/// The nibble value of one hex digit, upper or lower case.
pub open spec fn spec_hex_char_val(c: char) -> Option<u8> {
    if 48 <= c as u32 <= 57 {
        Some((c as u32 - 48) as u8)
    } else if 97 <= c as u32 <= 102 {
        Some((c as u32 - 87) as u8)
    } else if 65 <= c as u32 <= 70 {
        Some((c as u32 - 55) as u8)
    } else {
        None
    }
}

/// The six lowercase hex digits of an ICAO address, high nibble first.
pub open spec fn spec_icao_hex(icao: ICAO) -> Seq<char> {
    seq![
        spec_hex_char(icao.0[0] >> 4),
        spec_hex_char(icao.0[0] & 0xf),
        spec_hex_char(icao.0[1] >> 4),
        spec_hex_char(icao.0[1] & 0xf),
        spec_hex_char(icao.0[2] >> 4),
        spec_hex_char(icao.0[2] & 0xf),
    ]
}

/// The ICAO address spelled by exactly six hex digits, upper or lower case;
/// `None` for any other string.
pub open spec fn spec_icao_from_hex(s: Seq<char>) -> Option<ICAO> {
    if s.len() == 6 && (forall|i: int| 0 <= i < 6 ==> #[trigger] spec_hex_char_val(s[i]) is Some) {
        Some(
            ICAO(
                [
                    ((spec_hex_char_val(s[0]).unwrap() as u8) * 16 + spec_hex_char_val(
                        s[1],
                    ).unwrap()) as u8,
                    ((spec_hex_char_val(s[2]).unwrap() as u8) * 16 + spec_hex_char_val(
                        s[3],
                    ).unwrap()) as u8,
                    ((spec_hex_char_val(s[4]).unwrap() as u8) * 16 + spec_hex_char_val(
                        s[5],
                    ).unwrap()) as u8,
                ],
            ),
        )
    } else {
        None
    }
}

/// The lowercase hex digit for a nibble value.
fn hex_char(n: u8) -> (c: char)
    requires
        n < 16,
    ensures
        c == spec_hex_char(n),
{
    match n {
        0u8 => '0',
        1u8 => '1',
        2u8 => '2',
        3u8 => '3',
        4u8 => '4',
        5u8 => '5',
        6u8 => '6',
        7u8 => '7',
        8u8 => '8',
        9u8 => '9',
        10u8 => 'a',
        11u8 => 'b',
        12u8 => 'c',
        13u8 => 'd',
        14u8 => 'e',
        _ => 'f',
    }
}

/// The nibble value of one hex digit, upper or lower case.
fn hex_char_val(c: char) -> (r: Option<u8>)
    ensures
        r == spec_hex_char_val(c),
{
    let u: u32 = c as u32;
    if 48 <= u && u <= 57 {
        Some((u - 48) as u8)
    } else if 97 <= u && u <= 102 {
        Some((u - 87) as u8)
    } else if 65 <= u && u <= 70 {
        Some((u - 55) as u8)
    } else {
        None
    }
}

impl ICAO {
    /// Renders the address as its six lowercase hex digits, high nibble
    /// first.
    pub fn to_hex_string(&self) -> (r: String)
        ensures
            r@ == spec_icao_hex(*self),
            r@.len() == 6,
    {
        let mut out: String = String::new();
        let b0: u8 = self.0[0];
        let b1: u8 = self.0[1];
        let b2: u8 = self.0[2];
        proof {
            assert(b0 >> 4 < 16 && (b0 & 0xf) < 16 && b1 >> 4 < 16 && (b1 & 0xf) < 16 && b2 >> 4
                < 16 && (b2 & 0xf) < 16) by (bit_vector);
        }
        out.push(hex_char(b0 >> 4));
        out.push(hex_char(b0 & 0xf));
        out.push(hex_char(b1 >> 4));
        out.push(hex_char(b1 & 0xf));
        out.push(hex_char(b2 >> 4));
        out.push(hex_char(b2 & 0xf));
        proof {
            assert(out@ =~= spec_icao_hex(*self));
        }
        out
    }

    /// Parses an address from exactly six hex digits, upper or lower case;
    /// fails on any other string.
    pub fn from_hex_str(s: &str) -> (r: Option<ICAO>)
        ensures
            r == spec_icao_from_hex(s@),
    {
        if s.unicode_len() != 6 {
            return None;
        }
        let d0: Option<u8> = hex_char_val(s.get_char(0));
        let d1: Option<u8> = hex_char_val(s.get_char(1));
        let d2: Option<u8> = hex_char_val(s.get_char(2));
        let d3: Option<u8> = hex_char_val(s.get_char(3));
        let d4: Option<u8> = hex_char_val(s.get_char(4));
        let d5: Option<u8> = hex_char_val(s.get_char(5));
        match (d0, d1, d2, d3, d4, d5) {
            (Some(v0), Some(v1), Some(v2), Some(v3), Some(v4), Some(v5)) => {
                proof {
                    assert forall|i: int| 0 <= i < 6 implies #[trigger] spec_hex_char_val(s@[i])
                        is Some by {}
                }
                Some(ICAO([v0 * 16 + v1, v2 * 16 + v3, v4 * 16 + v5]))
            },
            _ => None,
        }
    }
}

/// A nibble survives the round trip through its lowercase hex digit.
proof fn lemma_hex_char_round_trip(n: u8)
    requires
        n < 16,
    ensures
        spec_hex_char_val(spec_hex_char(n)) == Some(n),
{
}

/// Rendering an ICAO address as hex and parsing the digits back yields the
/// same address: the hex form is loss-free.
pub proof fn lemma_icao_hex_round_trip(icao: ICAO)
    ensures
        spec_icao_from_hex(spec_icao_hex(icao)) == Some(icao),
{
    let s = spec_icao_hex(icao);
    let b0 = icao.0[0];
    let b1 = icao.0[1];
    let b2 = icao.0[2];
    assert(b0 >> 4 < 16 && (b0 & 0xf) < 16 && b1 >> 4 < 16 && (b1 & 0xf) < 16 && b2 >> 4 < 16 && (
    b2 & 0xf) < 16) by (bit_vector);
    lemma_hex_char_round_trip(b0 >> 4);
    lemma_hex_char_round_trip(b0 & 0xf);
    lemma_hex_char_round_trip(b1 >> 4);
    lemma_hex_char_round_trip(b1 & 0xf);
    lemma_hex_char_round_trip(b2 >> 4);
    lemma_hex_char_round_trip(b2 & 0xf);
    assert forall|i: int| 0 <= i < 6 implies #[trigger] spec_hex_char_val(s[i]) is Some by {}
    assert((b0 >> 4) * 16 + (b0 & 0xf) == b0) by (bit_vector);
    assert((b1 >> 4) * 16 + (b1 & 0xf) == b1) by (bit_vector);
    assert((b2 >> 4) * 16 + (b2 & 0xf) == b2) by (bit_vector);
    assert(spec_icao_from_hex(s).unwrap().0 =~= icao.0);
}

} // verus!
