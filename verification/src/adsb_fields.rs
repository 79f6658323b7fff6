//! Bit-field extraction over a Mode S frame: the frame is read once into a
//! single big-endian bit string, and every field is a shift-and-mask of that
//! value at an explicit bit offset, most significant bit first.

use vstd::prelude::*;

use crate::adsb_raw::{
    AC13Field,
    ADSBVersion,
    AircraftStatusType,
    Capability,
    ControlFieldType,
    CPRFormat,
    DownlinkRequest,
    EmergencyState,
    FlightStatus,
    ICAO,
    KE,
    Sign,
    StatusForGroundTrack,
    SurveillanceStatus,
    TypeCoding,
    UtilityMessageType,
    VerticalRateSource,
};
use crate::gillham::{decode_id13_field, mode_a_to_mode_c, spec_decode_id13_field,
    spec_mode_a_to_mode_c};

verus! {

/// Relies on `String::push` from std: appends exactly the given character to
/// the end of the string.
pub assume_specification[ String::push ](s: &mut String, ch: char)
    ensures
        final(s)@ == old(s)@.push(ch),
;

/// The unsigned value of the `width`-bit field at bit offset `pos` (counted
/// from the most significant bit) of a `len`-bit message value.
pub open spec fn spec_bits(v: u128, len: nat, pos: nat, width: nat) -> u32 {
    ((v >> (((len - pos) - width) as u128)) & (((1u128 << (width as u128)) - 1) as u128)) as u32
}

/// Extracts the `width`-bit field at bit offset `pos` of a `len`-bit message
/// value; the result is always below `2^width`.
pub fn bits(v: u128, len: usize, pos: usize, width: usize) -> (r: u32)
    requires
        pos + width <= len,
        len <= 128,
        1 <= width <= 32,
    ensures
        r == spec_bits(v, len as nat, pos as nat, width as nat),
        width < 32 ==> r < (1u32 << (width as u32)),
{
    let shift: u128 = ((len - pos) - width) as u128;
    proof {
        assert((1u128 << (width as u128)) >= 1) by (bit_vector)
            requires
                width <= 32,
        ;
    }
    let mask: u128 = (1u128 << (width as u128)) - 1;
    let x: u128 = (v >> shift) & mask;
    proof {
        assert(x < 0x1_0000_0000u128 && (width < 32 ==> (x as u32) < (1u32 << (width as u32))))
            by (bit_vector)
            requires
                x == (v >> shift) & (((1u128 << (width as u128)) - 1) as u128) && width <= 32,
        ;
    }
    x as u32
}

/// The 56-bit value of a short frame's seven bytes, most significant byte
/// first.
pub open spec fn spec_frame_val56(s: Seq<u8>) -> u128 {
    ((s[0] as u128) << 48) | ((s[1] as u128) << 40) | ((s[2] as u128) << 32) | ((s[3] as u128)
        << 24) | ((s[4] as u128) << 16) | ((s[5] as u128) << 8) | (s[6] as u128)
}

/// Reads a short frame's seven bytes into one 56-bit value.
pub fn frame_val56(frame: &[u8]) -> (v: u128)
    requires
        frame@.len() >= 7,
    ensures
        v == spec_frame_val56(frame@),
{
    ((frame[0] as u128) << 48) | ((frame[1] as u128) << 40) | ((frame[2] as u128) << 32) | ((
    frame[3] as u128) << 24) | ((frame[4] as u128) << 16) | ((frame[5] as u128) << 8) | (frame[6]
        as u128)
}

/// The 112-bit value of a long frame's fourteen bytes, most significant byte
/// first.
pub open spec fn spec_frame_val112(s: Seq<u8>) -> u128 {
    ((s[0] as u128) << 104) | ((s[1] as u128) << 96) | ((s[2] as u128) << 88) | ((s[3] as u128)
        << 80) | ((s[4] as u128) << 72) | ((s[5] as u128) << 64) | ((s[6] as u128) << 56) | ((
    s[7] as u128) << 48) | ((s[8] as u128) << 40) | ((s[9] as u128) << 32) | ((s[10] as u128)
        << 24) | ((s[11] as u128) << 16) | ((s[12] as u128) << 8) | (s[13] as u128)
}

/// Reads a long frame's fourteen bytes into one 112-bit value.
pub fn frame_val112(frame: &[u8]) -> (v: u128)
    requires
        frame@.len() >= 14,
    ensures
        v == spec_frame_val112(frame@),
{
    ((frame[0] as u128) << 104) | ((frame[1] as u128) << 96) | ((frame[2] as u128) << 88) | ((
    frame[3] as u128) << 80) | ((frame[4] as u128) << 72) | ((frame[5] as u128) << 64) | ((
    frame[6] as u128) << 56) | ((frame[7] as u128) << 48) | ((frame[8] as u128) << 40) | ((
    frame[9] as u128) << 32) | ((frame[10] as u128) << 24) | ((frame[11] as u128) << 16) | ((
    frame[12] as u128) << 8) | (frame[13] as u128)
}

/// The byte at bit offset `pos`.
pub open spec fn spec_byte_at(v: u128, len: nat, pos: nat) -> u8 {
    spec_bits(v, len, pos, 8) as u8
}

/// The `count` bytes starting at bit offset `pos`.
pub open spec fn spec_bytes_at(v: u128, len: nat, pos: nat, count: nat) -> Seq<u8> {
    Seq::new(count, |i: int| spec_byte_at(v, len, (pos + 8 * i) as nat))
}

/// Reads the six bytes starting at bit offset `pos`.
pub fn read_bytes6(v: u128, len: usize, pos: usize) -> (r: [u8; 6])
    requires
        pos + 48 <= len <= 128,
    ensures
        r@ =~= spec_bytes_at(v, len as nat, pos as nat, 6),
{
    [
        bits(v, len, pos, 8) as u8,
        bits(v, len, pos + 8, 8) as u8,
        bits(v, len, pos + 16, 8) as u8,
        bits(v, len, pos + 24, 8) as u8,
        bits(v, len, pos + 32, 8) as u8,
        bits(v, len, pos + 40, 8) as u8,
    ]
}

/// Reads `count` bytes starting at bit offset `pos` into a vector.
pub fn read_bytes_vec(v: u128, len: usize, pos: usize, count: usize) -> (r: Vec<u8>)
    requires
        pos + 8 * count <= len <= 128,
    ensures
        r@ =~= spec_bytes_at(v, len as nat, pos as nat, count as nat),
{
    let mut out: Vec<u8> = Vec::new();
    let mut i: usize = 0;
    while i < count
        invariant
            i <= count,
            pos + 8 * count <= len <= 128,
            out@.len() == i,
            forall|j: int|
                0 <= j < i ==> out@[j] == spec_byte_at(v, len as nat, (pos + 8 * j) as nat),
        decreases count - i,
    {
        out.push(bits(v, len, pos + 8 * i, 8) as u8);
        i = i + 1;
    }
    out
}

/// The three-byte ICAO address at bit offset `pos`.
pub open spec fn spec_icao_at(v: u128, len: nat, pos: nat) -> ICAO {
    ICAO(
        [
            spec_byte_at(v, len, pos),
            spec_byte_at(v, len, (pos + 8) as nat),
            spec_byte_at(v, len, (pos + 16) as nat),
        ],
    )
}

/// Reads the three-byte ICAO address at bit offset `pos`.
pub fn read_icao(v: u128, len: usize, pos: usize) -> (r: ICAO)
    requires
        pos + 24 <= len <= 128,
    ensures
        r == spec_icao_at(v, len as nat, pos as nat),
{
    ICAO(
        [bits(v, len, pos, 8) as u8, bits(v, len, pos + 8, 8) as u8, bits(v, len, pos + 16, 8)
            as u8],
    )
}

/// The fixed 64-entry alphabet for 6-bit callsign groups: `#` marks an
/// unassigned code, letters, the space, and digits stand at their group
/// values.
pub const CHAR_LOOKUP: [u8; 64] = [
    35, 65, 66, 67, 68, 69, 70, 71, 72, 73, 74, 75, 76, 77, 78, 79, 80, 81, 82, 83, 84, 85, 86,
    87, 88, 89, 90, 35, 35, 35, 35, 35, 32, 35, 35, 35, 35, 35, 35, 35, 35, 35, 35, 35, 35, 35,
    35, 35, 48, 49, 50, 51, 52, 53, 54, 55, 56, 57, 35, 35, 35, 35, 35, 35,
];

/// The callsign spelled by the first `k` of the seven 6-bit groups starting
/// at bit offset `pos`: each group is mapped through the fixed alphabet, and
/// groups whose value is 32 (the space) are omitted.
pub open spec fn spec_callsign_prefix(v: u128, len: nat, pos: nat, k: nat) -> Seq<char>
    decreases k,
{
    if k == 0 {
        Seq::empty()
    } else {
        let g = spec_bits(v, len, (pos + 6 * (k - 1)) as nat, 6);
        spec_callsign_prefix(v, len, pos, (k - 1) as nat) + (if g != 32 {
            seq![CHAR_LOOKUP@[g as int] as char]
        } else {
            Seq::empty()
        })
    }
}

/// The callsign spelled by the seven 6-bit groups starting at bit offset
/// `pos`.
pub open spec fn spec_callsign(v: u128, len: nat, pos: nat) -> Seq<char> {
    spec_callsign_prefix(v, len, pos, 7)
}

/// Reads the seven consecutive 6-bit callsign groups starting at bit offset
/// `pos`, maps each through the fixed alphabet, and omits the groups whose
/// value is 32.
pub fn read_callsign(v: u128, len: usize, pos: usize) -> (r: String)
    requires
        pos + 42 <= len <= 128,
    ensures
        r@ == spec_callsign(v, len as nat, pos as nat),
{
    let mut cn: String = String::new();
    let mut k: usize = 0;
    while k < 7
        invariant
            k <= 7,
            pos + 42 <= len <= 128,
            cn@ == spec_callsign_prefix(v, len as nat, pos as nat, k as nat),
        decreases 7 - k,
    {
        let g: u32 = bits(v, len, pos + 6 * k, 6);
        proof {
            assert(g < 64) by (bit_vector)
                requires
                    g < (1u32 << 6u32),
            ;
        }
        if g != 32 {
            cn.push(CHAR_LOOKUP[g as usize] as char);
        }
        k = k + 1;
    }
    cn
}

/// The 12-bit airborne-position altitude field. `None` when unresolvable:
/// with the Q bit set, the remaining bits are reassembled into `N` and the
/// altitude is `N * 25 - 1000` feet only when that is positive; without the
/// Q bit, the bits are reassembled into a Gillham code and converted, and
/// the altitude is the 100-foot count times 100 when that fits.
pub open spec fn spec_ac12(num: u32) -> Option<u16> {
    if num & 0x10 != 0 {
        let n = (((num & 0x0fe0) >> 1) | (num & 0x000f)) * 25;
        if n > 1000 {
            Some((n - 1000) as u16)
        } else {
            None
        }
    } else {
        let gillham = spec_decode_id13_field(((num & 0x0fc0) << 1) | (num & 0x003f));
        match spec_mode_a_to_mode_c(gillham) {
            Some(count) => if count * 100 <= 65535 {
                Some((count * 100) as u16)
            } else {
                None
            },
            None => None,
        }
    }
}

/// Decodes the 12-bit airborne-position altitude field to feet.
pub fn decode_ac12(num: u32) -> (r: Option<u16>)
    requires
        num < 0x1000,
    ensures
        r == spec_ac12(num),
{
    if num & 0x10 != 0 {
        proof {
            assert((((num & 0x0fe0) >> 1) | (num & 0x000f)) <= 0x7ff) by (bit_vector);
        }
        let n: u32 = (((num & 0x0fe0) >> 1) | (num & 0x000f)) * 25;
        if n > 1000 {
            if n - 1000 <= 65535 {
                Some((n - 1000) as u16)
            } else {
                None
            }
        } else {
            None
        }
    } else {
        proof {
            assert((((num & 0x0fc0) << 1) | (num & 0x003f)) <= 0x1fff) by (bit_vector);
        }
        let gillham: u32 = decode_id13_field(((num & 0x0fc0) << 1) | (num & 0x003f));
        match mode_a_to_mode_c(gillham) {
            Ok(count) => {
                let feet: u64 = (count as u64) * 100;
                if feet <= 65535 {
                    Some(feet as u16)
                } else {
                    None
                }
            },
            Err(_) => None,
        }
    }
}

/// The 13-bit altitude code field. `None` when unresolvable: the M bit set,
/// a Q-bit value at or below the 1000-foot quantization floor, or a Gillham
/// combination that does not convert.
pub open spec fn spec_ac13(num: u32) -> Option<u16> {
    if num & 0x0040 != 0 {
        None
    } else if num & 0x0010 != 0 {
        let n = (((num & 0x1f80) >> 2) | ((num & 0x0020) >> 1) | (num & 0x000f)) * 25;
        if n > 1000 {
            Some((n - 1000) as u16)
        } else {
            None
        }
    } else {
        match spec_mode_a_to_mode_c(spec_decode_id13_field(num)) {
            Some(count) => if count * 100 <= 65535 {
                Some((count * 100) as u16)
            } else {
                None
            },
            None => None,
        }
    }
}

/// Decodes the 13-bit altitude code field to feet.
pub fn decode_ac13(num: u32) -> (r: AC13Field)
    requires
        num < 0x2000,
    ensures
        r == AC13Field(spec_ac13(num)),
{
    if num & 0x0040 != 0 {
        AC13Field(None)
    } else if num & 0x0010 != 0 {
        proof {
            assert((((num & 0x1f80) >> 2) | ((num & 0x0020) >> 1) | (num & 0x000f)) <= 0x7ff)
                by (bit_vector);
        }
        let n: u32 = (((num & 0x1f80) >> 2) | ((num & 0x0020) >> 1) | (num & 0x000f)) * 25;
        if n > 1000 {
            if n - 1000 <= 65535 {
                AC13Field(Some((n - 1000) as u16))
            } else {
                AC13Field(None)
            }
        } else {
            AC13Field(None)
        }
    } else {
        match mode_a_to_mode_c(decode_id13_field(num)) {
            Ok(count) => {
                let feet: u64 = (count as u64) * 100;
                if feet <= 65535 {
                    AC13Field(Some(feet as u16))
                } else {
                    AC13Field(None)
                }
            },
            Err(_) => AC13Field(None),
        }
    }
}

/// The 13-bit identity code regrouped into its four octal digits A, B, C
/// and D, packed one digit per nibble.
pub open spec fn spec_identity_code(num: u32) -> u16 {
    let c1 = (num & 0x1000) >> 12;
    let a1 = (num & 0x0800) >> 11;
    let c2 = (num & 0x0400) >> 10;
    let a2 = (num & 0x0200) >> 9;
    let c4 = (num & 0x0100) >> 8;
    let a4 = (num & 0x0080) >> 7;
    let b1 = (num & 0x0020) >> 5;
    let d1 = (num & 0x0010) >> 4;
    let b2 = (num & 0x0008) >> 3;
    let d2 = (num & 0x0004) >> 2;
    let b4 = (num & 0x0002) >> 1;
    let d4 = num & 0x0001;
    let a = (a4 << 2) | (a2 << 1) | a1;
    let b = (b4 << 2) | (b2 << 1) | b1;
    let c = (c4 << 2) | (c2 << 1) | c1;
    let d = (d4 << 2) | (d2 << 1) | d1;
    (((a << 12) | (b << 8) | (c << 4) | d) as u16)
}

/// Regroups the 13-bit identity code into its four octal digits.
pub fn decode_identity_code(num: u32) -> (r: u16)
    requires
        num < 0x2000,
    ensures
        r == spec_identity_code(num),
{
    let c1: u32 = (num & 0x1000) >> 12;
    let a1: u32 = (num & 0x0800) >> 11;
    let c2: u32 = (num & 0x0400) >> 10;
    let a2: u32 = (num & 0x0200) >> 9;
    let c4: u32 = (num & 0x0100) >> 8;
    let a4: u32 = (num & 0x0080) >> 7;
    let b1: u32 = (num & 0x0020) >> 5;
    let d1: u32 = (num & 0x0010) >> 4;
    let b2: u32 = (num & 0x0008) >> 3;
    let d2: u32 = (num & 0x0004) >> 2;
    let b4: u32 = (num & 0x0002) >> 1;
    let d4: u32 = num & 0x0001;
    let a: u32 = (a4 << 2) | (a2 << 1) | a1;
    let b: u32 = (b4 << 2) | (b2 << 1) | b1;
    let c: u32 = (c4 << 2) | (c2 << 1) | c1;
    let d: u32 = (d4 << 2) | (d2 << 1) | d1;
    (((a << 12) | (b << 8) | (c << 4) | d) as u16)
}

/// The capability variant encoded by a 3-bit value; 1 to 3 are reserved.
pub open spec fn spec_capability(t: u32) -> Capability {
    match t {
        0u32 => Capability::AG_UNCERTAIN,
        4u32 => Capability::AG_GROUND,
        5u32 => Capability::AG_AIRBORNE,
        6u32 => Capability::AG_UNCERTAIN2,
        7u32 => Capability::AG_UNCERTAIN3,
        _ => Capability::Reserved,
    }
}

/// Maps a 3-bit value to its capability variant.
pub fn capability_from(t: u32) -> (r: Capability)
    ensures
        r == spec_capability(t),
{
    match t {
        0u32 => Capability::AG_UNCERTAIN,
        4u32 => Capability::AG_GROUND,
        5u32 => Capability::AG_AIRBORNE,
        6u32 => Capability::AG_UNCERTAIN2,
        7u32 => Capability::AG_UNCERTAIN3,
        _ => Capability::Reserved,
    }
}

/// The flight status encoded by a 3-bit value.
pub open spec fn spec_flight_status(t: u32) -> FlightStatus {
    match t {
        0u32 => FlightStatus::NoAlertNoSPIAirborne,
        1u32 => FlightStatus::NoAlertNoSPIOnGround,
        2u32 => FlightStatus::AlertNoSPIAirborne,
        3u32 => FlightStatus::AlertNoSPIOnGround,
        4u32 => FlightStatus::AlertSPIAirborneGround,
        5u32 => FlightStatus::NoAlertSPIAirborneGround,
        6u32 => FlightStatus::Reserved,
        _ => FlightStatus::NotAssigned,
    }
}

/// Maps a 3-bit value to its flight status.
pub fn flight_status_from(t: u32) -> (r: FlightStatus)
    ensures
        r == spec_flight_status(t),
{
    match t {
        0u32 => FlightStatus::NoAlertNoSPIAirborne,
        1u32 => FlightStatus::NoAlertNoSPIOnGround,
        2u32 => FlightStatus::AlertNoSPIAirborne,
        3u32 => FlightStatus::AlertNoSPIOnGround,
        4u32 => FlightStatus::AlertSPIAirborneGround,
        5u32 => FlightStatus::NoAlertSPIAirborneGround,
        6u32 => FlightStatus::Reserved,
        _ => FlightStatus::NotAssigned,
    }
}

/// The downlink request encoded by a 5-bit value; codes 0, 1, 4 and 5 are
/// assigned, everything else is `Unknown`.
pub open spec fn spec_downlink_request(t: u32) -> DownlinkRequest {
    match t {
        0u32 => DownlinkRequest::NoRequest,
        1u32 => DownlinkRequest::RequestSendCommB,
        4u32 => DownlinkRequest::CommBBroadcastMsg1,
        5u32 => DownlinkRequest::CommBBroadcastMsg2,
        _ => DownlinkRequest::Unknown,
    }
}

/// Whether the downlink request code is one of the assigned codes, whose
/// five bits count as consumed by the field; an unknown code leaves them
/// unconsumed, so every later field of the message shifts up by five bits.
pub open spec fn spec_downlink_request_known(t: u32) -> bool {
    t == 0 || t == 1 || t == 4 || t == 5
}

/// Maps a 5-bit value to its downlink request.
pub fn downlink_request_from(t: u32) -> (r: DownlinkRequest)
    ensures
        r == spec_downlink_request(t),
        (r is Unknown) == !spec_downlink_request_known(t),
{
    match t {
        0u32 => DownlinkRequest::NoRequest,
        1u32 => DownlinkRequest::RequestSendCommB,
        4u32 => DownlinkRequest::CommBBroadcastMsg1,
        5u32 => DownlinkRequest::CommBBroadcastMsg2,
        _ => DownlinkRequest::Unknown,
    }
}

/// The utility message reservation type encoded by a 2-bit value.
pub open spec fn spec_utility_message_type(t: u32) -> UtilityMessageType {
    match t {
        0u32 => UtilityMessageType::NoInformation,
        1u32 => UtilityMessageType::CommB,
        2u32 => UtilityMessageType::CommC,
        _ => UtilityMessageType::CommD,
    }
}

/// Maps a 2-bit value to its utility message reservation type.
pub fn utility_message_type_from(t: u32) -> (r: UtilityMessageType)
    ensures
        r == spec_utility_message_type(t),
{
    match t {
        0u32 => UtilityMessageType::NoInformation,
        1u32 => UtilityMessageType::CommB,
        2u32 => UtilityMessageType::CommC,
        _ => UtilityMessageType::CommD,
    }
}

/// The emergency state encoded by a 3-bit value.
pub open spec fn spec_emergency_state(t: u32) -> EmergencyState {
    match t {
        0u32 => EmergencyState::NoEmergency,
        1u32 => EmergencyState::General,
        2u32 => EmergencyState::Lifeguard,
        3u32 => EmergencyState::MinimumFuel,
        4u32 => EmergencyState::NoCommunication,
        5u32 => EmergencyState::UnlawfulInterference,
        6u32 => EmergencyState::DownedAircraft,
        _ => EmergencyState::Reserved2,
    }
}

/// Maps a 3-bit value to its emergency state.
pub fn emergency_state_from(t: u32) -> (r: EmergencyState)
    ensures
        r == spec_emergency_state(t),
{
    match t {
        0u32 => EmergencyState::NoEmergency,
        1u32 => EmergencyState::General,
        2u32 => EmergencyState::Lifeguard,
        3u32 => EmergencyState::MinimumFuel,
        4u32 => EmergencyState::NoCommunication,
        5u32 => EmergencyState::UnlawfulInterference,
        6u32 => EmergencyState::DownedAircraft,
        _ => EmergencyState::Reserved2,
    }
}

/// The aircraft status sub-type encoded by a 3-bit value; 3 and above are
/// reserved.
pub open spec fn spec_aircraft_status_type(t: u32) -> AircraftStatusType {
    match t {
        0u32 => AircraftStatusType::NoInformation,
        1u32 => AircraftStatusType::EmergencyPriorityStatus,
        2u32 => AircraftStatusType::ACASRaBroadcast,
        _ => AircraftStatusType::Reserved,
    }
}

/// Maps a 3-bit value to its aircraft status sub-type.
pub fn aircraft_status_type_from(t: u32) -> (r: AircraftStatusType)
    ensures
        r == spec_aircraft_status_type(t),
{
    match t {
        0u32 => AircraftStatusType::NoInformation,
        1u32 => AircraftStatusType::EmergencyPriorityStatus,
        2u32 => AircraftStatusType::ACASRaBroadcast,
        _ => AircraftStatusType::Reserved,
    }
}

/// The control field type encoded by a 3-bit value.
pub open spec fn spec_control_field_type(t: u32) -> ControlFieldType {
    match t {
        0u32 => ControlFieldType::ADSB_ES_NT,
        1u32 => ControlFieldType::ADSB_ES_NT_ALT,
        2u32 => ControlFieldType::TISB_FINE,
        3u32 => ControlFieldType::TISB_COARSE,
        4u32 => ControlFieldType::TISB_MANAGE,
        5u32 => ControlFieldType::TISB_ADSB_RELAY,
        6u32 => ControlFieldType::TISB_ADSB,
        _ => ControlFieldType::Reserved,
    }
}

/// Maps a 3-bit value to its control field type.
pub fn control_field_type_from(t: u32) -> (r: ControlFieldType)
    ensures
        r == spec_control_field_type(t),
{
    match t {
        0u32 => ControlFieldType::ADSB_ES_NT,
        1u32 => ControlFieldType::ADSB_ES_NT_ALT,
        2u32 => ControlFieldType::TISB_FINE,
        3u32 => ControlFieldType::TISB_COARSE,
        4u32 => ControlFieldType::TISB_MANAGE,
        5u32 => ControlFieldType::TISB_ADSB_RELAY,
        6u32 => ControlFieldType::TISB_ADSB,
        _ => ControlFieldType::Reserved,
    }
}

/// The ADS-B version encoded by a 3-bit value; only 0, 1 and 2 are defined,
/// anything else fails the decode.
pub open spec fn spec_adsb_version(t: u32) -> Option<ADSBVersion> {
    match t {
        0u32 => Some(ADSBVersion::DOC9871AppendixA),
        1u32 => Some(ADSBVersion::DOC9871AppendixB),
        2u32 => Some(ADSBVersion::DOC9871AppendixC),
        _ => None,
    }
}

/// Maps a 3-bit value to its ADS-B version, when one is defined for it.
pub fn adsb_version_from(t: u32) -> (r: Option<ADSBVersion>)
    ensures
        r == spec_adsb_version(t),
{
    match t {
        0u32 => Some(ADSBVersion::DOC9871AppendixA),
        1u32 => Some(ADSBVersion::DOC9871AppendixB),
        2u32 => Some(ADSBVersion::DOC9871AppendixC),
        _ => None,
    }
}

/// The identification category encoded by the 5-bit Type Codes 1 to 4.
pub open spec fn spec_type_coding(t: u32) -> TypeCoding {
    match t {
        1u32 => TypeCoding::D,
        2u32 => TypeCoding::C,
        3u32 => TypeCoding::B,
        _ => TypeCoding::A,
    }
}

/// Maps a Type Code in 1 to 4 to its identification category.
pub fn type_coding_from(t: u32) -> (r: TypeCoding)
    ensures
        r == spec_type_coding(t),
{
    match t {
        1u32 => TypeCoding::D,
        2u32 => TypeCoding::C,
        3u32 => TypeCoding::B,
        _ => TypeCoding::A,
    }
}

/// The CPR format flag encoded by one bit.
pub open spec fn spec_cpr_format(t: u32) -> CPRFormat {
    if t == 0 {
        CPRFormat::Even
    } else {
        CPRFormat::Odd
    }
}

/// Maps one bit to its CPR format flag.
pub fn cpr_format_from(t: u32) -> (r: CPRFormat)
    ensures
        r == spec_cpr_format(t),
{
    if t == 0 {
        CPRFormat::Even
    } else {
        CPRFormat::Odd
    }
}

/// The sign encoded by one bit: 0 positive, 1 negative.
pub open spec fn spec_sign(t: u32) -> Sign {
    if t == 0 {
        Sign::Positive
    } else {
        Sign::Negative
    }
}

/// Maps one bit to its sign.
pub fn sign_from(t: u32) -> (r: Sign)
    ensures
        r == spec_sign(t),
{
    if t == 0 {
        Sign::Positive
    } else {
        Sign::Negative
    }
}

/// The vertical rate source encoded by one bit.
pub open spec fn spec_vertical_rate_source(t: u32) -> VerticalRateSource {
    if t == 0 {
        VerticalRateSource::BarometricPressureAltitude
    } else {
        VerticalRateSource::GeometricAltitude
    }
}

/// Maps one bit to its vertical rate source.
pub fn vertical_rate_source_from(t: u32) -> (r: VerticalRateSource)
    ensures
        r == spec_vertical_rate_source(t),
{
    if t == 0 {
        VerticalRateSource::BarometricPressureAltitude
    } else {
        VerticalRateSource::GeometricAltitude
    }
}

/// The ground-track validity encoded by one bit.
pub open spec fn spec_ground_track_status(t: u32) -> StatusForGroundTrack {
    if t == 0 {
        StatusForGroundTrack::Invalid
    } else {
        StatusForGroundTrack::Valid
    }
}

/// Maps one bit to its ground-track validity.
pub fn ground_track_status_from(t: u32) -> (r: StatusForGroundTrack)
    ensures
        r == spec_ground_track_status(t),
{
    if t == 0 {
        StatusForGroundTrack::Invalid
    } else {
        StatusForGroundTrack::Valid
    }
}

/// The extended-length-message control encoded by one bit.
pub open spec fn spec_ke(t: u32) -> KE {
    if t == 0 {
        KE::DownlinkELMTx
    } else {
        KE::UplinkELMAck
    }
}

/// Maps one bit to its extended-length-message control.
pub fn ke_from(t: u32) -> (r: KE)
    ensures
        r == spec_ke(t),
{
    if t == 0 {
        KE::DownlinkELMTx
    } else {
        KE::UplinkELMAck
    }
}

/// The surveillance status encoded by a 2-bit value.
pub open spec fn spec_surveillance_status(t: u32) -> SurveillanceStatus {
    match t {
        0u32 => SurveillanceStatus::NoCondition,
        1u32 => SurveillanceStatus::PermanentAlert,
        2u32 => SurveillanceStatus::TemporaryAlert,
        _ => SurveillanceStatus::SPICondition,
    }
}

/// Maps a 2-bit value to its surveillance status.
pub fn surveillance_status_from(t: u32) -> (r: SurveillanceStatus)
    ensures
        r == spec_surveillance_status(t),
{
    match t {
        0u32 => SurveillanceStatus::NoCondition,
        1u32 => SurveillanceStatus::PermanentAlert,
        2u32 => SurveillanceStatus::TemporaryAlert,
        _ => SurveillanceStatus::SPICondition,
    }
}

} // verus!
