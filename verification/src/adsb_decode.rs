//! The Mode S envelope decoder: dispatches a 7- or 14-byte frame by its
//! leading 5-bit Downlink Format selector into one of the known message
//! shapes, decodes every fixed-width field at its explicit bit offset, and
//! computes the CRC-24 over the encoded message.
//!
//! Every contract below speaks over the frame's single big-endian bit-string
//! value: each field of the result equals a named shift-and-mask of that
//! value, so the decoded record is pinned down bit for bit.

use vstd::prelude::*;

use crate::adsb_fields::{adsb_version_from, aircraft_status_type_from, bits, capability_from,
    control_field_type_from, cpr_format_from, decode_ac12, decode_ac13, decode_identity_code,
    downlink_request_from, emergency_state_from, flight_status_from, frame_val112, frame_val56,
    ground_track_status_from, ke_from, read_bytes6, read_bytes_vec, read_callsign, read_icao,
    sign_from, spec_ac12, spec_ac13, spec_adsb_version, spec_aircraft_status_type,
    spec_bits, spec_bytes_at, spec_callsign, spec_capability, spec_control_field_type,
    spec_cpr_format, spec_downlink_request, spec_downlink_request_known, spec_emergency_state,
    spec_flight_status, spec_frame_val112, spec_frame_val56, spec_ground_track_status,
    spec_icao_at, spec_identity_code, spec_ke, spec_sign, spec_surveillance_status,
    spec_type_coding, spec_utility_message_type, spec_vertical_rate_source,
    surveillance_status_from, type_coding_from, utility_message_type_from,
    vertical_rate_source_from};
use crate::adsb_raw::{AC13Field, ADSBVersion, AdsbRawMessage, Adsb, AircraftStatus, IdentityCode,
    AircraftStatusType, AirborneVelocity, AirborneVelocitySubType, AirspeedDecoding, Altitude,
    BDS, Capability, CapabilityClassAirborne, CapabilityClassSurface, ControlField,
    ControlFieldType, CPRFormat, DataLinkCapability, DF, DownlinkRequest, EmergencyState,
    FlightStatus, GroundSpeedDecoding, ICAO, Identification, KE, ME, OperationStatus,
    OperationStatusAirborne, OperationStatusSurface, OperationalMode, Sign, StatusForGroundTrack,
    SurfacePosition, SurveillanceStatus, TargetStateAndStatusInformation, TypeCoding,
    UtilityMessage, UtilityMessageType, VerticalRateSource};
use crate::crc::{modes_checksum, spec_checksum, spec_checksum_computable};
use crate::gillham::spec_decode_id13_field;
use crate::gillham::decode_id13_field;

verus! {

/// A frame that cannot be decoded; fatal to that single frame only.
#[derive(Debug, Clone, Copy, PartialEq, Eq, Structural)]
pub enum EnvelopeError {
    /// The leading 5-bit Downlink Format selector does not match any known
    /// message shape, so the bit width needed to locate the CRC cannot be
    /// determined safely.
    UnknownDownlinkFormat { df: u8 },
    /// The frame is shorter than the byte length its Downlink Format
    /// selector demands.
    Incomplete,
    /// An operational-status payload carries an ADS-B version above 2, for
    /// which no shape is defined.
    UnknownAdsbVersion { value: u8 },
    /// An operational-status payload has a reserved field whose bits are
    /// required to be zero set to something else.
    ReservedBitsSet,
}

/// Concrete values of the shifted field-width bounds that the decoder needs.
proof fn lemma_width_bounds()
    by (bit_vector)
    ensures
        (1u32 << 3u32) == 8,
        (1u32 << 5u32) == 32,
        (1u32 << 7u32) == 0x80,
        (1u32 << 8u32) == 0x100,
        (1u32 << 10u32) == 0x400,
        (1u32 << 12u32) == 0x1000,
        (1u32 << 13u32) == 0x2000,
{
}

/// The airborne-position payload whose 56 bits start at offset `mb`.
pub open spec fn spec_altitude(v: u128, mb: nat) -> Altitude {
    Altitude {
        tc: spec_bits(v, 112, mb, 5) as u8,
        ss: spec_surveillance_status(spec_bits(v, 112, (mb + 5) as nat, 2)),
        saf_or_imf: spec_bits(v, 112, (mb + 7) as nat, 1) as u8,
        alt: spec_ac12(spec_bits(v, 112, (mb + 8) as nat, 12)),
        t: spec_bits(v, 112, (mb + 20) as nat, 1) == 1,
        odd_flag: spec_cpr_format(spec_bits(v, 112, (mb + 21) as nat, 1)),
        lat_cpr: spec_bits(v, 112, (mb + 22) as nat, 17),
        lon_cpr: spec_bits(v, 112, (mb + 39) as nat, 17),
    }
}

/// The surface-position payload starting at offset `mb`.
pub open spec fn spec_surface_position(v: u128, mb: nat) -> SurfacePosition {
    SurfacePosition {
        mov: spec_bits(v, 112, mb, 7) as u8,
        s: spec_ground_track_status(spec_bits(v, 112, (mb + 7) as nat, 1)),
        trk: spec_bits(v, 112, (mb + 8) as nat, 7) as u8,
        t: spec_bits(v, 112, (mb + 15) as nat, 1) == 1,
        f: spec_cpr_format(spec_bits(v, 112, (mb + 16) as nat, 1)),
        lat_cpr: spec_bits(v, 112, (mb + 17) as nat, 17),
        lon_cpr: spec_bits(v, 112, (mb + 34) as nat, 17),
    }
}

/// The airspeed owed for a raw 10-bit value: `raw - 1`, floored at 0.
pub open spec fn spec_airspeed_value(x: u32) -> u16 {
    if x > 0 {
        (x - 1) as u16
    } else {
        0u16
    }
}

/// The GNSS/barometric difference owed for a raw 7-bit value:
/// `(raw - 1) * 25` feet when the raw value is above 1, else 0.
pub open spec fn spec_gnss_baro_diff(x: u32) -> u16 {
    if x > 1 {
        ((x - 1) * 25) as u16
    } else {
        0u16
    }
}

/// The 22-bit reserved velocity payload, assembled from its three
/// byte-groups lowest group first (the one field of this shape that the wire
/// carries in little-endian group order).
pub open spec fn spec_reserved_velocity(v: u128, mb: nat) -> u32 {
    spec_bits(v, 112, (mb + 13) as nat, 8) | (spec_bits(v, 112, (mb + 21) as nat, 8) << 8) | (
    spec_bits(v, 112, (mb + 29) as nat, 6) << 16)
}

/// The velocity sub-type payload selected by the 3-bit sub-type code.
pub open spec fn spec_av_subtype(v: u128, mb: nat) -> AirborneVelocitySubType {
    let st = spec_bits(v, 112, (mb + 5) as nat, 3);
    if st == 0 {
        AirborneVelocitySubType::Reserved0(spec_reserved_velocity(v, mb))
    } else if st <= 2 {
        AirborneVelocitySubType::GroundSpeedDecoding(
            GroundSpeedDecoding {
                ew_sign: spec_sign(spec_bits(v, 112, (mb + 13) as nat, 1)),
                ew_vel: spec_bits(v, 112, (mb + 14) as nat, 10) as u16,
                ns_sign: spec_sign(spec_bits(v, 112, (mb + 24) as nat, 1)),
                ns_vel: spec_bits(v, 112, (mb + 25) as nat, 10) as u16,
            },
        )
    } else if st <= 4 {
        AirborneVelocitySubType::AirspeedDecoding(
            AirspeedDecoding {
                status_heading: spec_bits(v, 112, (mb + 13) as nat, 1) as u8,
                mag_heading: spec_bits(v, 112, (mb + 14) as nat, 10) as u16,
                airspeed_type: spec_bits(v, 112, (mb + 24) as nat, 1) as u8,
                airspeed: spec_airspeed_value(spec_bits(v, 112, (mb + 25) as nat, 10)),
            },
        )
    } else {
        AirborneVelocitySubType::Reserved1(spec_reserved_velocity(v, mb))
    }
}

/// The airborne-velocity payload starting at offset `mb`.
pub open spec fn spec_airborne_velocity(v: u128, mb: nat) -> AirborneVelocity {
    AirborneVelocity {
        st: spec_bits(v, 112, (mb + 5) as nat, 3) as u8,
        nac_v: spec_bits(v, 112, (mb + 8) as nat, 5) as u8,
        sub_type: spec_av_subtype(v, mb),
        vrate_src: spec_vertical_rate_source(spec_bits(v, 112, (mb + 35) as nat, 1)),
        vrate_sign: spec_sign(spec_bits(v, 112, (mb + 36) as nat, 1)),
        vrate_value: spec_bits(v, 112, (mb + 37) as nat, 9) as u16,
        reverved: spec_bits(v, 112, (mb + 46) as nat, 2) as u8,
        gnss_sign: spec_sign(spec_bits(v, 112, (mb + 48) as nat, 1)),
        gnss_baro_diff: spec_gnss_baro_diff(spec_bits(v, 112, (mb + 49) as nat, 7)),
    }
}

/// The aircraft-status payload starting at offset `mb`. A reserved sub-type
/// code leaves its three bits unconsumed, so the later fields shift up.
pub open spec fn spec_aircraft_status(v: u128, mb: nat) -> AircraftStatus {
    let st = spec_bits(v, 112, (mb + 5) as nat, 3);
    if st <= 2 {
        AircraftStatus {
            sub_type: spec_aircraft_status_type(st),
            emergency_state: spec_emergency_state(spec_bits(v, 112, (mb + 8) as nat, 3)),
            squawk: spec_decode_id13_field(spec_bits(v, 112, (mb + 11) as nat, 13)),
        }
    } else {
        AircraftStatus {
            sub_type: AircraftStatusType::Reserved,
            emergency_state: spec_emergency_state(spec_bits(v, 112, (mb + 5) as nat, 3)),
            squawk: spec_decode_id13_field(spec_bits(v, 112, (mb + 8) as nat, 13)),
        }
    }
}

/// The MCP altitude owed for a raw 12-bit value: `(raw - 1) * 32` feet when
/// the raw value is above 1, else 0.
pub open spec fn spec_tss_altitude(x: u32) -> u32 {
    if x > 1 {
        ((x - 1) * 32) as u32
    } else {
        0u32
    }
}

/// The target-state-and-status payload starting at offset `mb`.
pub open spec fn spec_target_state(v: u128, mb: nat) -> TargetStateAndStatusInformation {
    TargetStateAndStatusInformation {
        subtype: spec_bits(v, 112, (mb + 5) as nat, 2) as u8,
        is_fms: spec_bits(v, 112, (mb + 7) as nat, 1) == 1,
        altitude: spec_tss_altitude(spec_bits(v, 112, (mb + 8) as nat, 12)),
        qnh_raw: spec_bits(v, 112, (mb + 20) as nat, 9) as u16,
        is_heading: spec_bits(v, 112, (mb + 29) as nat, 1) == 1,
        heading_raw: spec_bits(v, 112, (mb + 30) as nat, 9) as u16,
        nacp: spec_bits(v, 112, (mb + 39) as nat, 4) as u8,
        nicbaro: spec_bits(v, 112, (mb + 43) as nat, 1) as u8,
        sil: spec_bits(v, 112, (mb + 44) as nat, 2) as u8,
        mode_validity: spec_bits(v, 112, (mb + 46) as nat, 1) == 1,
        autopilot: spec_bits(v, 112, (mb + 47) as nat, 1) == 1,
        vnac: spec_bits(v, 112, (mb + 48) as nat, 1) == 1,
        alt_hold: spec_bits(v, 112, (mb + 49) as nat, 1) == 1,
        imf: spec_bits(v, 112, (mb + 50) as nat, 1) == 1,
        approach: spec_bits(v, 112, (mb + 51) as nat, 1) == 1,
        tcas: spec_bits(v, 112, (mb + 52) as nat, 1) == 1,
        lnav: spec_bits(v, 112, (mb + 53) as nat, 1) == 1,
    }
}

/// The operational-mode field whose 8 bits start at offset `p`.
pub open spec fn spec_operational_mode(v: u128, p: nat) -> OperationalMode {
    OperationalMode {
        reserved: spec_bits(v, 112, p, 2) as u8,
        tcas_ra_active: spec_bits(v, 112, (p + 2) as nat, 1) == 1,
        ident_switch_active: spec_bits(v, 112, (p + 3) as nat, 1) == 1,
        reserved_recv_atc_service: spec_bits(v, 112, (p + 4) as nat, 1) == 1,
        single_antenna_flag: spec_bits(v, 112, (p + 5) as nat, 1) == 1,
        system_design_assurance: spec_bits(v, 112, (p + 6) as nat, 2) as u8,
    }
}

/// The airborne operational-status payload whose fields start at offset `a`
/// (just past the sub-type code).
pub open spec fn spec_op_airborne(v: u128, a: nat) -> OperationStatusAirborne {
    OperationStatusAirborne {
        capability_class: CapabilityClassAirborne {
            reserved0: spec_bits(v, 112, a, 2) as u8,
            acas: spec_bits(v, 112, (a + 2) as nat, 1) as u8,
            cdti: spec_bits(v, 112, (a + 3) as nat, 1) as u8,
            reserved1: spec_bits(v, 112, (a + 4) as nat, 2) as u8,
            arv: spec_bits(v, 112, (a + 6) as nat, 1) as u8,
            ts: spec_bits(v, 112, (a + 7) as nat, 1) as u8,
            tc: spec_bits(v, 112, (a + 8) as nat, 2) as u8,
        },
        operational_mode: spec_operational_mode(v, (a + 16) as nat),
        version_number: spec_adsb_version(spec_bits(v, 112, (a + 32) as nat, 3)).unwrap(),
        nic_supplement_a: spec_bits(v, 112, (a + 35) as nat, 1) as u8,
        navigational_accuracy_category: spec_bits(v, 112, (a + 36) as nat, 4) as u8,
        geometric_vertical_accuracy: spec_bits(v, 112, (a + 40) as nat, 2) as u8,
        source_integrity_level: spec_bits(v, 112, (a + 42) as nat, 2) as u8,
        barometric_altitude_integrity: spec_bits(v, 112, (a + 44) as nat, 1) as u8,
        horizontal_reference_direction: spec_bits(v, 112, (a + 45) as nat, 1) as u8,
        sil_supplement: spec_bits(v, 112, (a + 46) as nat, 1) as u8,
    }
}

/// The surface operational-status payload whose fields start at offset `a`.
pub open spec fn spec_op_surface(v: u128, a: nat) -> OperationStatusSurface {
    OperationStatusSurface {
        capability_class: CapabilityClassSurface {
            reserved0: spec_bits(v, 112, a, 2) as u8,
            poe: spec_bits(v, 112, (a + 2) as nat, 1) as u8,
            es1090: spec_bits(v, 112, (a + 3) as nat, 1) as u8,
            b2_low: spec_bits(v, 112, (a + 6) as nat, 1) as u8,
            uat_in: spec_bits(v, 112, (a + 7) as nat, 1) as u8,
            nac_v: spec_bits(v, 112, (a + 8) as nat, 3) as u8,
            nic_supplement_c: spec_bits(v, 112, (a + 11) as nat, 1) as u8,
        },
        lw_codes: spec_bits(v, 112, (a + 12) as nat, 4) as u8,
        operational_mode: spec_operational_mode(v, (a + 16) as nat),
        gps_antenna_offset: spec_bits(v, 112, (a + 24) as nat, 8) as u8,
        version_number: spec_adsb_version(spec_bits(v, 112, (a + 32) as nat, 3)).unwrap(),
        nic_supplement_a: spec_bits(v, 112, (a + 35) as nat, 1) as u8,
        navigational_accuracy_category: spec_bits(v, 112, (a + 36) as nat, 4) as u8,
        source_integrity_level: spec_bits(v, 112, (a + 42) as nat, 2) as u8,
        barometric_altitude_integrity: spec_bits(v, 112, (a + 44) as nat, 1) as u8,
        horizontal_reference_direction: spec_bits(v, 112, (a + 45) as nat, 1) as u8,
        sil_supplement: spec_bits(v, 112, (a + 46) as nat, 1) as u8,
    }
}

/// What stops an operational-status decode, if anything: a non-zero reserved
/// capability-class or operational-mode field, checked in field order, then
/// an undefined ADS-B version.
pub open spec fn spec_me_error(v: u128, mb: nat) -> Option<EnvelopeError> {
    let t = spec_bits(v, 112, mb, 5);
    if t == 31 {
        let ot = spec_bits(v, 112, (mb + 5) as nat, 3);
        let a = (mb + 8) as nat;
        if ot == 0 {
            if spec_bits(v, 112, a, 2) != 0 || spec_bits(v, 112, (a + 4) as nat, 2) != 0
                || spec_bits(v, 112, (a + 16) as nat, 2) != 0 {
                Some(EnvelopeError::ReservedBitsSet)
            } else if spec_adsb_version(spec_bits(v, 112, (a + 32) as nat, 3)) is None {
                Some(
                    EnvelopeError::UnknownAdsbVersion {
                        value: spec_bits(v, 112, (a + 32) as nat, 3) as u8,
                    },
                )
            } else {
                None
            }
        } else if ot == 1 {
            if spec_bits(v, 112, a, 2) != 0 || spec_bits(v, 112, (a + 16) as nat, 2) != 0 {
                Some(EnvelopeError::ReservedBitsSet)
            } else if spec_adsb_version(spec_bits(v, 112, (a + 32) as nat, 3)) is None {
                Some(
                    EnvelopeError::UnknownAdsbVersion {
                        value: spec_bits(v, 112, (a + 32) as nat, 3) as u8,
                    },
                )
            } else {
                None
            }
        } else {
            None
        }
    } else {
        None
    }
}

/// The bit offset just past the ME payload starting at `mb`: payloads
/// selected by a consuming Type Code start 5 bits further in than the
/// catch-all shapes, and two shapes have a sub-code with the same behaviour.
pub open spec fn spec_me_end(v: u128, mb: nat) -> nat {
    let t = spec_bits(v, 112, mb, 5);
    if t == 0 {
        (mb + 53) as nat
    } else if t <= 4 {
        (mb + 50) as nat
    } else if t <= 8 {
        (mb + 51) as nat
    } else if t <= 22 {
        (mb + 56) as nat
    } else if t == 23 {
        (mb + 53) as nat
    } else if t <= 27 {
        (mb + 48) as nat
    } else if t == 28 {
        if spec_bits(v, 112, (mb + 5) as nat, 3) <= 2 {
            (mb + 24) as nat
        } else {
            (mb + 21) as nat
        }
    } else if t == 29 {
        (mb + 56) as nat
    } else if t == 30 {
        (mb + 53) as nat
    } else {
        if spec_bits(v, 112, (mb + 5) as nat, 3) <= 1 {
            (mb + 56) as nat
        } else {
            (mb + 50) as nat
        }
    }
}

/// Whether `me` is exactly the ME payload encoded at offset `mb`: its
/// variant is the one the 5-bit Type Code selects, and every field equals
/// its bit-field extraction.
pub open spec fn spec_me_matches(v: u128, mb: nat, me: ME) -> bool {
    let t = spec_bits(v, 112, mb, 5);
    if t == 0 {
        me matches ME::NoPosition(b) && b@ == spec_bytes_at(v, 112, (mb + 5) as nat, 6)
    } else if t <= 4 {
        me matches ME::AircraftIdentification(id) && id.tc == spec_type_coding(t) && id.ca
            == spec_bits(v, 112, (mb + 5) as nat, 3) as u8 && id.cn@ == spec_callsign(
            v,
            112,
            (mb + 8) as nat,
        )
    } else if t <= 8 {
        me matches ME::SurfacePosition(sp) && sp == spec_surface_position(v, mb)
    } else if t <= 18 {
        me matches ME::AirbornePositionBaroAltitude(alt) && alt == spec_altitude(v, mb)
    } else if t == 19 {
        me matches ME::AirborneVelocity(av) && av == spec_airborne_velocity(v, mb)
    } else if t <= 22 {
        me matches ME::AirbornePositionGNSSAltitude(alt) && alt == spec_altitude(v, mb)
    } else if t == 23 {
        me matches ME::Reserved0(b) && b@ == spec_bytes_at(v, 112, (mb + 5) as nat, 6)
    } else if t == 24 {
        me matches ME::SurfaceSystemStatus(b) && b@ == spec_bytes_at(v, 112, mb, 6)
    } else if t <= 27 {
        me matches ME::Reserved1(b) && b@ == spec_bytes_at(v, 112, mb, 6)
    } else if t == 28 {
        me matches ME::AircraftStatus(st) && st == spec_aircraft_status(v, mb)
    } else if t == 29 {
        me matches ME::TargetStateAndStatusInformation(ts) && ts == spec_target_state(v, mb)
    } else if t == 30 {
        me matches ME::AircraftOperationalCoordination(b) && b@ == spec_bytes_at(
            v,
            112,
            (mb + 5) as nat,
            6,
        )
    } else {
        me matches ME::AircraftOperationStatus(os) && spec_op_status_matches(v, mb, os)
    }
}

/// Whether `os` is exactly the operational-status payload encoded at offset
/// `mb` (of the whole ME, sub-type code included).
pub open spec fn spec_op_status_matches(v: u128, mb: nat, os: OperationStatus) -> bool {
    let ot = spec_bits(v, 112, (mb + 5) as nat, 3);
    if ot == 0 {
        os matches OperationStatus::Airborne(oa) && oa == spec_op_airborne(v, (mb + 8) as nat)
    } else if ot == 1 {
        os matches OperationStatus::Surface(s) && s == spec_op_surface(v, (mb + 8) as nat)
    } else {
        os matches OperationStatus::Reserved(x, b) && x == spec_bits(v, 112, (mb + 5) as nat, 5)
            as u8 && b@ == spec_bytes_at(v, 112, (mb + 10) as nat, 5)
    }
}

/// Decodes the surface-position payload at offset `mb`.
fn decode_surface_position(v: u128, mb: usize) -> (sp: SurfacePosition)
    requires
        mb + 56 <= 112,
    ensures
        sp == spec_surface_position(v, mb as nat),
{
    SurfacePosition {
        mov: bits(v, 112, mb, 7) as u8,
        s: ground_track_status_from(bits(v, 112, mb + 7, 1)),
        trk: bits(v, 112, mb + 8, 7) as u8,
        t: bits(v, 112, mb + 15, 1) == 1,
        f: cpr_format_from(bits(v, 112, mb + 16, 1)),
        lat_cpr: bits(v, 112, mb + 17, 17),
        lon_cpr: bits(v, 112, mb + 34, 17),
    }
}

/// Decodes the airborne-position payload at offset `mb`.
fn decode_altitude(v: u128, mb: usize) -> (alt: Altitude)
    requires
        mb + 56 <= 112,
    ensures
        alt == spec_altitude(v, mb as nat),
{
    proof {
        lemma_width_bounds();
    }
    Altitude {
        tc: bits(v, 112, mb, 5) as u8,
        ss: surveillance_status_from(bits(v, 112, mb + 5, 2)),
        saf_or_imf: bits(v, 112, mb + 7, 1) as u8,
        alt: decode_ac12(bits(v, 112, mb + 8, 12)),
        t: bits(v, 112, mb + 20, 1) == 1,
        odd_flag: cpr_format_from(bits(v, 112, mb + 21, 1)),
        lat_cpr: bits(v, 112, mb + 22, 17),
        lon_cpr: bits(v, 112, mb + 39, 17),
    }
}

/// Decodes the airborne-velocity payload at offset `mb`.
fn decode_airborne_velocity(v: u128, mb: usize) -> (av: AirborneVelocity)
    requires
        mb + 56 <= 112,
    ensures
        av == spec_airborne_velocity(v, mb as nat),
{
    proof {
        lemma_width_bounds();
    }
    let st: u32 = bits(v, 112, mb + 5, 3);
    let sub_type: AirborneVelocitySubType = if st == 0 {
        AirborneVelocitySubType::Reserved0(
            bits(v, 112, mb + 13, 8) | (bits(v, 112, mb + 21, 8) << 8) | (bits(
                v,
                112,
                mb + 29,
                6,
            ) << 16),
        )
    } else if st <= 2 {
        AirborneVelocitySubType::GroundSpeedDecoding(
            GroundSpeedDecoding {
                ew_sign: sign_from(bits(v, 112, mb + 13, 1)),
                ew_vel: bits(v, 112, mb + 14, 10) as u16,
                ns_sign: sign_from(bits(v, 112, mb + 24, 1)),
                ns_vel: bits(v, 112, mb + 25, 10) as u16,
            },
        )
    } else if st <= 4 {
        let raw_airspeed: u32 = bits(v, 112, mb + 25, 10);
        AirborneVelocitySubType::AirspeedDecoding(
            AirspeedDecoding {
                status_heading: bits(v, 112, mb + 13, 1) as u8,
                mag_heading: bits(v, 112, mb + 14, 10) as u16,
                airspeed_type: bits(v, 112, mb + 24, 1) as u8,
                airspeed: if raw_airspeed > 0 {
                    (raw_airspeed - 1) as u16
                } else {
                    0
                },
            },
        )
    } else {
        AirborneVelocitySubType::Reserved1(
            bits(v, 112, mb + 13, 8) | (bits(v, 112, mb + 21, 8) << 8) | (bits(
                v,
                112,
                mb + 29,
                6,
            ) << 16),
        )
    };
    let raw_diff: u32 = bits(v, 112, mb + 49, 7);
    AirborneVelocity {
        st: st as u8,
        nac_v: bits(v, 112, mb + 8, 5) as u8,
        sub_type,
        vrate_src: vertical_rate_source_from(bits(v, 112, mb + 35, 1)),
        vrate_sign: sign_from(bits(v, 112, mb + 36, 1)),
        vrate_value: bits(v, 112, mb + 37, 9) as u16,
        reverved: bits(v, 112, mb + 46, 2) as u8,
        gnss_sign: sign_from(bits(v, 112, mb + 48, 1)),
        gnss_baro_diff: if raw_diff > 1 {
            ((raw_diff - 1) * 25) as u16
        } else {
            0
        },
    }
}

/// Decodes the aircraft-status payload at offset `mb`.
fn decode_aircraft_status(v: u128, mb: usize) -> (st: AircraftStatus)
    requires
        mb + 56 <= 112,
    ensures
        st == spec_aircraft_status(v, mb as nat),
{
    proof {
        lemma_width_bounds();
    }
    let st3: u32 = bits(v, 112, mb + 5, 3);
    if st3 <= 2 {
        AircraftStatus {
            sub_type: aircraft_status_type_from(st3),
            emergency_state: emergency_state_from(bits(v, 112, mb + 8, 3)),
            squawk: decode_id13_field(bits(v, 112, mb + 11, 13)),
        }
    } else {
        AircraftStatus {
            sub_type: AircraftStatusType::Reserved,
            emergency_state: emergency_state_from(bits(v, 112, mb + 5, 3)),
            squawk: decode_id13_field(bits(v, 112, mb + 8, 13)),
        }
    }
}

/// Decodes the target-state-and-status payload at offset `mb`.
fn decode_target_state(v: u128, mb: usize) -> (ts: TargetStateAndStatusInformation)
    requires
        mb + 56 <= 112,
    ensures
        ts == spec_target_state(v, mb as nat),
{
    proof {
        lemma_width_bounds();
    }
    let raw_alt: u32 = bits(v, 112, mb + 8, 12);
    TargetStateAndStatusInformation {
        subtype: bits(v, 112, mb + 5, 2) as u8,
        is_fms: bits(v, 112, mb + 7, 1) == 1,
        altitude: if raw_alt > 1 {
            (raw_alt - 1) * 32
        } else {
            0
        },
        qnh_raw: bits(v, 112, mb + 20, 9) as u16,
        is_heading: bits(v, 112, mb + 29, 1) == 1,
        heading_raw: bits(v, 112, mb + 30, 9) as u16,
        nacp: bits(v, 112, mb + 39, 4) as u8,
        nicbaro: bits(v, 112, mb + 43, 1) as u8,
        sil: bits(v, 112, mb + 44, 2) as u8,
        mode_validity: bits(v, 112, mb + 46, 1) == 1,
        autopilot: bits(v, 112, mb + 47, 1) == 1,
        vnac: bits(v, 112, mb + 48, 1) == 1,
        alt_hold: bits(v, 112, mb + 49, 1) == 1,
        imf: bits(v, 112, mb + 50, 1) == 1,
        approach: bits(v, 112, mb + 51, 1) == 1,
        tcas: bits(v, 112, mb + 52, 1) == 1,
        lnav: bits(v, 112, mb + 53, 1) == 1,
    }
}

/// Decodes the operational-mode field at offset `p`.
fn decode_operational_mode(v: u128, p: usize) -> (om: OperationalMode)
    requires
        p + 8 <= 112,
    ensures
        om == spec_operational_mode(v, p as nat),
{
    OperationalMode {
        reserved: bits(v, 112, p, 2) as u8,
        tcas_ra_active: bits(v, 112, p + 2, 1) == 1,
        ident_switch_active: bits(v, 112, p + 3, 1) == 1,
        reserved_recv_atc_service: bits(v, 112, p + 4, 1) == 1,
        single_antenna_flag: bits(v, 112, p + 5, 1) == 1,
        system_design_assurance: bits(v, 112, p + 6, 2) as u8,
    }
}

/// Decodes the operational-status payload at offset `mb`; the only ME shape
/// whose decode can fail.
fn decode_op_status(v: u128, mb: usize) -> (r: Result<OperationStatus, EnvelopeError>)
    requires
        mb + 56 <= 112,
        spec_bits(v, 112, mb as nat, 5) == 31,
    ensures
        r is Err <==> spec_me_error(v, mb as nat) is Some,
        r matches Err(e) ==> Some(e) == spec_me_error(v, mb as nat),
        r matches Ok(os) ==> spec_op_status_matches(v, mb as nat, os),
{
    let ot: u32 = bits(v, 112, mb + 5, 3);
    if ot == 0 {
        let a: usize = mb + 8;
        if bits(v, 112, a, 2) != 0 || bits(v, 112, a + 4, 2) != 0 || bits(v, 112, a + 16, 2)
            != 0 {
            return Err(EnvelopeError::ReservedBitsSet);
        }
        let version = match adsb_version_from(bits(v, 112, a + 32, 3)) {
            Some(version) => version,
            None => {
                return Err(
                    EnvelopeError::UnknownAdsbVersion { value: bits(v, 112, a + 32, 3) as u8 },
                );
            },
        };
        let oa = OperationStatusAirborne {
            capability_class: CapabilityClassAirborne {
                reserved0: bits(v, 112, a, 2) as u8,
                acas: bits(v, 112, a + 2, 1) as u8,
                cdti: bits(v, 112, a + 3, 1) as u8,
                reserved1: bits(v, 112, a + 4, 2) as u8,
                arv: bits(v, 112, a + 6, 1) as u8,
                ts: bits(v, 112, a + 7, 1) as u8,
                tc: bits(v, 112, a + 8, 2) as u8,
            },
            operational_mode: decode_operational_mode(v, a + 16),
            version_number: version,
            nic_supplement_a: bits(v, 112, a + 35, 1) as u8,
            navigational_accuracy_category: bits(v, 112, a + 36, 4) as u8,
            geometric_vertical_accuracy: bits(v, 112, a + 40, 2) as u8,
            source_integrity_level: bits(v, 112, a + 42, 2) as u8,
            barometric_altitude_integrity: bits(v, 112, a + 44, 1) as u8,
            horizontal_reference_direction: bits(v, 112, a + 45, 1) as u8,
            sil_supplement: bits(v, 112, a + 46, 1) as u8,
        };
        Ok(OperationStatus::Airborne(oa))
    } else if ot == 1 {
        let a: usize = mb + 8;
        if bits(v, 112, a, 2) != 0 || bits(v, 112, a + 16, 2) != 0 {
            return Err(EnvelopeError::ReservedBitsSet);
        }
        let version = match adsb_version_from(bits(v, 112, a + 32, 3)) {
            Some(version) => version,
            None => {
                return Err(
                    EnvelopeError::UnknownAdsbVersion { value: bits(v, 112, a + 32, 3) as u8 },
                );
            },
        };
        let os = OperationStatusSurface {
            capability_class: CapabilityClassSurface {
                reserved0: bits(v, 112, a, 2) as u8,
                poe: bits(v, 112, a + 2, 1) as u8,
                es1090: bits(v, 112, a + 3, 1) as u8,
                b2_low: bits(v, 112, a + 6, 1) as u8,
                uat_in: bits(v, 112, a + 7, 1) as u8,
                nac_v: bits(v, 112, a + 8, 3) as u8,
                nic_supplement_c: bits(v, 112, a + 11, 1) as u8,
            },
            lw_codes: bits(v, 112, a + 12, 4) as u8,
            operational_mode: decode_operational_mode(v, a + 16),
            gps_antenna_offset: bits(v, 112, a + 24, 8) as u8,
            version_number: version,
            nic_supplement_a: bits(v, 112, a + 35, 1) as u8,
            navigational_accuracy_category: bits(v, 112, a + 36, 4) as u8,
            source_integrity_level: bits(v, 112, a + 42, 2) as u8,
            barometric_altitude_integrity: bits(v, 112, a + 44, 1) as u8,
            horizontal_reference_direction: bits(v, 112, a + 45, 1) as u8,
            sil_supplement: bits(v, 112, a + 46, 1) as u8,
        };
        Ok(OperationStatus::Surface(os))
    } else {
        let body: [u8; 5] = [
            bits(v, 112, mb + 10, 8) as u8,
            bits(v, 112, mb + 18, 8) as u8,
            bits(v, 112, mb + 26, 8) as u8,
            bits(v, 112, mb + 34, 8) as u8,
            bits(v, 112, mb + 42, 8) as u8,
        ];
        proof {
            assert(body@ =~= spec_bytes_at(v, 112, (mb + 10) as nat, 5));
        }
        Ok(OperationStatus::Reserved(bits(v, 112, mb + 5, 5) as u8, body))
    }
}

/// Decodes the 56-bit ME payload starting at bit offset `mb` of a long
/// frame, returning the payload and the bit offset just past it.
///
/// Fails exactly on the operational-status shapes whose reserved bits are
/// set or whose ADS-B version is undefined.
pub fn decode_me(v: u128, mb: usize) -> (r: Result<(ME, usize), EnvelopeError>)
    requires
        mb == 29 || mb == 32,
    ensures
        r is Err <==> spec_me_error(v, mb as nat) is Some,
        r matches Err(e) ==> Some(e) == spec_me_error(v, mb as nat),
        r matches Ok(p) ==> spec_me_matches(v, mb as nat, p.0) && p.1 == spec_me_end(v, mb as nat)
            && p.1 <= 88,
{
    proof {
        lemma_width_bounds();
    }
    let t: u32 = bits(v, 112, mb, 5);
    if t == 0 {
        Ok((ME::NoPosition(read_bytes6(v, 112, mb + 5)), mb + 53))
    } else if t <= 4 {
        let id = Identification {
            tc: type_coding_from(t),
            ca: bits(v, 112, mb + 5, 3) as u8,
            cn: read_callsign(v, 112, mb + 8),
        };
        Ok((ME::AircraftIdentification(id), mb + 50))
    } else if t <= 8 {
        Ok((ME::SurfacePosition(decode_surface_position(v, mb)), mb + 51))
    } else if t == 19 {
        Ok((ME::AirborneVelocity(decode_airborne_velocity(v, mb)), mb + 56))
    } else if t <= 18 {
        Ok((ME::AirbornePositionBaroAltitude(decode_altitude(v, mb)), mb + 56))
    } else if t <= 22 {
        Ok((ME::AirbornePositionGNSSAltitude(decode_altitude(v, mb)), mb + 56))
    } else if t == 23 {
        Ok((ME::Reserved0(read_bytes6(v, 112, mb + 5)), mb + 53))
    } else if t == 24 {
        Ok((ME::SurfaceSystemStatus(read_bytes6(v, 112, mb)), mb + 48))
    } else if t <= 27 {
        Ok((ME::Reserved1(read_bytes6(v, 112, mb)), mb + 48))
    } else if t == 28 {
        let end: usize = if bits(v, 112, mb + 5, 3) <= 2 {
            mb + 24
        } else {
            mb + 21
        };
        Ok((ME::AircraftStatus(decode_aircraft_status(v, mb)), end))
    } else if t == 29 {
        Ok((ME::TargetStateAndStatusInformation(decode_target_state(v, mb)), mb + 56))
    } else if t == 30 {
        Ok((ME::AircraftOperationalCoordination(read_bytes6(v, 112, mb + 5)), mb + 53))
    } else {
        let end: usize = if bits(v, 112, mb + 5, 3) <= 1 {
            mb + 56
        } else {
            mb + 50
        };
        match decode_op_status(v, mb) {
            Ok(os) => Ok((ME::AircraftOperationStatus(os), end)),
            Err(e) => Err(e),
        }
    }
}

/// The data-link-capability report whose 48 bits start at offset `d`; its
/// trailing 16-bit array is carried in little-endian byte order.
pub open spec fn spec_dlc(v: u128, d: nat) -> DataLinkCapability {
    DataLinkCapability {
        continuation_flag: spec_bits(v, 112, d, 1) == 1,
        overlay_command_capability: spec_bits(v, 112, (d + 6) as nat, 1) == 1,
        acas: spec_bits(v, 112, (d + 7) as nat, 1) == 1,
        mode_s_subnetwork_version_number: spec_bits(v, 112, (d + 8) as nat, 7) as u8,
        transponder_enhanced_protocol_indicator: spec_bits(v, 112, (d + 15) as nat, 1) == 1,
        mode_s_specific_services_capability: spec_bits(v, 112, (d + 16) as nat, 1) == 1,
        uplink_elm_average_throughput_capability: spec_bits(v, 112, (d + 17) as nat, 3) as u8,
        downlink_elm: spec_bits(v, 112, (d + 20) as nat, 4) as u8,
        aircraft_identification_capability: spec_bits(v, 112, (d + 24) as nat, 1) == 1,
        squitter_capability_subfield: spec_bits(v, 112, (d + 25) as nat, 1) == 1,
        surveillance_identifier_code: spec_bits(v, 112, (d + 26) as nat, 1) == 1,
        common_usage_gicb_capability_report: spec_bits(v, 112, (d + 27) as nat, 1) == 1,
        reserved_acas: spec_bits(v, 112, (d + 28) as nat, 4) as u8,
        bit_array: (spec_bits(v, 112, (d + 32) as nat, 8) | (spec_bits(v, 112, (d + 40) as nat, 8)
            << 8)) as u16,
    }
}

/// The bit offset just past the Comm-B message field starting at `b`: the
/// known BDS codes consume their 8-bit tag, the identification shape reads
/// only seven 6-bit groups after it, and an unknown code leaves the tag
/// unconsumed.
pub open spec fn spec_bds_end(v: u128, b: nat) -> nat {
    let bt = spec_bits(v, 112, b, 8);
    if bt == 0x00 || bt == 0x10 {
        (b + 56) as nat
    } else if bt == 0x20 {
        (b + 50) as nat
    } else {
        (b + 48) as nat
    }
}

/// Whether `bds` is exactly the Comm-B message field encoded at offset `b`.
pub open spec fn spec_bds_matches(v: u128, b: nat, bds: BDS) -> bool {
    let bt = spec_bits(v, 112, b, 8);
    if bt == 0x00 {
        bds matches BDS::Empty(body) && body@ == spec_bytes_at(v, 112, (b + 8) as nat, 6)
    } else if bt == 0x10 {
        bds matches BDS::DataLinkCapability(d) && d == spec_dlc(v, (b + 8) as nat)
    } else if bt == 0x20 {
        bds matches BDS::AircraftIdentification(s) && s@ == spec_callsign(v, 112, (b + 8) as nat)
    } else {
        bds matches BDS::Unknown(body) && body@ == spec_bytes_at(v, 112, b, 6)
    }
}

/// Decodes the Comm-B message field starting at offset `b`, returning it and
/// the bit offset just past it.
fn decode_bds(v: u128, b: usize) -> (r: (BDS, usize))
    requires
        b == 27 || b == 32,
    ensures
        spec_bds_matches(v, b as nat, r.0),
        r.1 == spec_bds_end(v, b as nat),
        r.1 <= 88,
{
    let bt: u32 = bits(v, 112, b, 8);
    if bt == 0x00 {
        (BDS::Empty(read_bytes6(v, 112, b + 8)), b + 56)
    } else if bt == 0x10 {
        let d: usize = b + 8;
        let dlc = DataLinkCapability {
            continuation_flag: bits(v, 112, d, 1) == 1,
            overlay_command_capability: bits(v, 112, d + 6, 1) == 1,
            acas: bits(v, 112, d + 7, 1) == 1,
            mode_s_subnetwork_version_number: bits(v, 112, d + 8, 7) as u8,
            transponder_enhanced_protocol_indicator: bits(v, 112, d + 15, 1) == 1,
            mode_s_specific_services_capability: bits(v, 112, d + 16, 1) == 1,
            uplink_elm_average_throughput_capability: bits(v, 112, d + 17, 3) as u8,
            downlink_elm: bits(v, 112, d + 20, 4) as u8,
            aircraft_identification_capability: bits(v, 112, d + 24, 1) == 1,
            squitter_capability_subfield: bits(v, 112, d + 25, 1) == 1,
            surveillance_identifier_code: bits(v, 112, d + 26, 1) == 1,
            common_usage_gicb_capability_report: bits(v, 112, d + 27, 1) == 1,
            reserved_acas: bits(v, 112, d + 28, 4) as u8,
            bit_array: (bits(v, 112, d + 32, 8) | (bits(v, 112, d + 40, 8) << 8)) as u16,
        };
        (BDS::DataLinkCapability(dlc), b + 56)
    } else if bt == 0x20 {
        (BDS::AircraftIdentification(read_callsign(v, 112, b + 8)), b + 50)
    } else {
        (BDS::Unknown(read_bytes6(v, 112, b)), b + 48)
    }
}

/// The frame's leading 5-bit Downlink Format selector.
pub open spec fn spec_df_tag(frame: Seq<u8>) -> u32 {
    (frame[0] >> 3) as u32
}

/// Whether the selector matches a known message shape.
pub open spec fn spec_df_known(t: u32) -> bool {
    t == 0 || t == 4 || t == 5 || t == 11 || (16 <= t && t <= 21) || (24 <= t && t <= 31)
}

/// The encoded byte length that the selector demands: 14 bytes for selectors
/// with their high bit set (every extended format, Comm-D included), 7
/// otherwise.
pub open spec fn spec_df_len_bytes(t: u32) -> nat {
    if t & 0x10 != 0 {
        14
    } else {
        7
    }
}

/// The bit offset of the field after the downlink-request code: 13 when the
/// code is an assigned one (which consumes its five bits), else 8.
pub open spec fn spec_header_base(v: u128, len: nat) -> nat {
    if spec_downlink_request_known(spec_bits(v, len, 8, 5)) {
        13
    } else {
        8
    }
}

/// The bit offset of a Downlink Format 17 body's ICAO address: a reserved
/// capability code leaves its three bits unconsumed, so the address and
/// everything after it shift up by three bits.
pub open spec fn spec_cap_base(v: u128) -> nat {
    let cap = spec_bits(v, 112, 5, 3);
    if 1 <= cap <= 3 {
        5
    } else {
        8
    }
}

/// What stops the decode of `frame`, if anything, checked in decode order:
/// an empty buffer, an unknown Downlink Format selector, a buffer shorter
/// than the selector demands, and then whatever stops the ME payload of an
/// extended squitter.
pub open spec fn spec_envelope_error(frame: Seq<u8>) -> Option<EnvelopeError> {
    if frame.len() == 0 {
        Some(EnvelopeError::Incomplete)
    } else {
        let t = spec_df_tag(frame);
        if !spec_df_known(t) {
            Some(EnvelopeError::UnknownDownlinkFormat { df: t as u8 })
        } else if frame.len() < spec_df_len_bytes(t) {
            Some(EnvelopeError::Incomplete)
        } else if t == 17 {
            let v = spec_frame_val112(frame);
            spec_me_error(v, (spec_cap_base(v) + 24) as nat)
        } else if t == 18 {
            spec_me_error(spec_frame_val112(frame), 32)
        } else {
            None
        }
    }
}

/// Whether `df` is exactly the Downlink Format body encoded in `frame`:
/// its variant is the one the selector picks, and every field equals its
/// bit-field extraction from the frame's bit-string value.
pub open spec fn spec_df_ok(frame: Seq<u8>, df: DF) -> bool {
    let t = spec_df_tag(frame);
    if t == 0 {
        let v = spec_frame_val56(frame);
        &&& df matches DF::ShortAirAirSurveillance {
            vs,
            cc,
            unused,
            sl,
            unused1,
            ri,
            unused2,
            altitude,
            parity,
        }
        &&& vs == spec_bits(v, 56, 5, 1) as u8
        &&& cc == spec_bits(v, 56, 6, 1) as u8
        &&& unused == spec_bits(v, 56, 7, 1) as u8
        &&& sl == spec_bits(v, 56, 8, 3) as u8
        &&& unused1 == spec_bits(v, 56, 11, 2) as u8
        &&& ri == spec_bits(v, 56, 13, 4) as u8
        &&& unused2 == spec_bits(v, 56, 17, 2) as u8
        &&& altitude == AC13Field(spec_ac13(spec_bits(v, 56, 19, 13)))
        &&& parity == spec_icao_at(v, 56, 32)
    } else if t == 4 {
        let v = spec_frame_val56(frame);
        let u = spec_header_base(v, 56);
        &&& df matches DF::SurveillanceAltitudeReply { fs, dr, um, ac, ap }
        &&& fs == spec_flight_status(spec_bits(v, 56, 5, 3))
        &&& dr == spec_downlink_request(spec_bits(v, 56, 8, 5))
        &&& um == UtilityMessage {
            iis: spec_bits(v, 56, u, 4) as u8,
            ids: spec_utility_message_type(spec_bits(v, 56, (u + 4) as nat, 2)),
        }
        &&& ac == AC13Field(spec_ac13(spec_bits(v, 56, (u + 6) as nat, 13)))
        &&& ap == spec_icao_at(v, 56, (u + 19) as nat)
    } else if t == 5 {
        let v = spec_frame_val56(frame);
        let u = spec_header_base(v, 56);
        &&& df matches DF::SurveillanceIdentityReply { fs, dr, um, id, ap }
        &&& fs == spec_flight_status(spec_bits(v, 56, 5, 3))
        &&& dr == spec_downlink_request(spec_bits(v, 56, 8, 5))
        &&& um == UtilityMessage {
            iis: spec_bits(v, 56, u, 4) as u8,
            ids: spec_utility_message_type(spec_bits(v, 56, (u + 4) as nat, 2)),
        }
        &&& id == IdentityCode(spec_identity_code(spec_bits(v, 56, (u + 6) as nat, 13)))
        &&& ap == spec_icao_at(v, 56, (u + 19) as nat)
    } else if t == 11 {
        let v = spec_frame_val56(frame);
        let cap = spec_bits(v, 56, 5, 3);
        let cb: nat = if 1 <= cap <= 3 {
            5
        } else {
            8
        };
        &&& df matches DF::AllCallReply { capability, icao, p_icao }
        &&& capability == spec_capability(cap)
        &&& icao == spec_icao_at(v, 56, cb)
        &&& p_icao == spec_icao_at(v, 56, (cb + 24) as nat)
    } else if t == 16 {
        let v = spec_frame_val112(frame);
        &&& df matches DF::LongAirAir { vs, spare1, sl, spare2, ri, spare3, altitude, mv, parity }
        &&& vs == spec_bits(v, 112, 5, 1) as u8
        &&& spare1 == spec_bits(v, 112, 6, 2) as u8
        &&& sl == spec_bits(v, 112, 8, 3) as u8
        &&& spare2 == spec_bits(v, 112, 11, 2) as u8
        &&& ri == spec_bits(v, 112, 13, 4) as u8
        &&& spare3 == spec_bits(v, 112, 17, 2) as u8
        &&& altitude == AC13Field(spec_ac13(spec_bits(v, 112, 19, 13)))
        &&& mv@ == spec_bytes_at(v, 112, 32, 7)
        &&& parity == spec_icao_at(v, 112, 88)
    } else if t == 17 {
        let v = spec_frame_val112(frame);
        let cb = spec_cap_base(v);
        let mb = (cb + 24) as nat;
        &&& df matches DF::ADSB(a)
        &&& a.capability == spec_capability(spec_bits(v, 112, 5, 3))
        &&& a.icao == spec_icao_at(v, 112, cb)
        &&& spec_me_matches(v, mb, a.me)
        &&& a.pi == spec_icao_at(v, 112, spec_me_end(v, mb))
    } else if t == 18 {
        let v = spec_frame_val112(frame);
        &&& df matches DF::TisB { cf, pi }
        &&& cf.t == spec_control_field_type(spec_bits(v, 112, 5, 3))
        &&& cf.aa == spec_icao_at(v, 112, 8)
        &&& spec_me_matches(v, 32, cf.me)
        &&& pi == spec_icao_at(v, 112, spec_me_end(v, 32))
    } else if t == 19 {
        let v = spec_frame_val112(frame);
        &&& df matches DF::ExtendedQuitterMilitaryApplication { af }
        &&& af == spec_bits(v, 112, 5, 3) as u8
    } else if t == 20 {
        let v = spec_frame_val112(frame);
        let u = spec_header_base(v, 112);
        let b = (u + 19) as nat;
        &&& df matches DF::CommBAltitudeReply { flight_status, dr, um, alt, bds, parity }
        &&& flight_status == spec_flight_status(spec_bits(v, 112, 5, 3))
        &&& dr == spec_downlink_request(spec_bits(v, 112, 8, 5))
        &&& um == UtilityMessage {
            iis: spec_bits(v, 112, u, 4) as u8,
            ids: spec_utility_message_type(spec_bits(v, 112, (u + 4) as nat, 2)),
        }
        &&& alt == AC13Field(spec_ac13(spec_bits(v, 112, (u + 6) as nat, 13)))
        &&& spec_bds_matches(v, b, bds)
        &&& parity == spec_icao_at(v, 112, spec_bds_end(v, b))
    } else if t == 21 {
        let v = spec_frame_val112(frame);
        let u = spec_header_base(v, 112);
        let b = (u + 19) as nat;
        &&& df matches DF::CommBIdentityReply { fs, dr, um, id, bds, parity }
        &&& fs == spec_flight_status(spec_bits(v, 112, 5, 3))
        &&& dr == spec_downlink_request(spec_bits(v, 112, 8, 5))
        &&& um == UtilityMessage {
            iis: spec_bits(v, 112, u, 4) as u8,
            ids: spec_utility_message_type(spec_bits(v, 112, (u + 4) as nat, 2)),
        }
        &&& id == spec_decode_id13_field(spec_bits(v, 112, (u + 6) as nat, 13))
        &&& spec_bds_matches(v, b, bds)
        &&& parity == spec_icao_at(v, 112, spec_bds_end(v, b))
    } else {
        let v = spec_frame_val112(frame);
        &&& df matches DF::CommDExtendedLengthMessage { spare, ke, nd, md, parity }
        &&& spare == spec_bits(v, 112, 0, 1) as u8
        &&& ke == spec_ke(spec_bits(v, 112, 1, 1))
        &&& nd == spec_bits(v, 112, 2, 4) as u8
        &&& md@ == spec_bytes_at(v, 112, 6, 10)
        &&& parity == spec_icao_at(v, 112, 86)
    }
}

/// Whether `m` is exactly the decoded record owed for `frame`: its CRC is
/// the Mode S checksum over the frame at the selector's bit length, and its
/// body is the bit-exact Downlink Format decode.
pub open spec fn spec_envelope_ok(frame: Seq<u8>, m: AdsbRawMessage) -> bool {
    let t = spec_df_tag(frame);
    &&& m.crc == spec_checksum(frame, 8 * spec_df_len_bytes(t))
    &&& spec_df_ok(frame, m.df)
}

/// Decodes the surveillance-header fields that Downlink Formats 4, 5, 20 and
/// 21 share, returning the utility message and the offset just past it.
fn decode_um(v: u128, len: usize, u: usize) -> (um: UtilityMessage)
    requires
        len == 56 || len == 112,
        u == 8 || u == 13,
    ensures
        um == (UtilityMessage {
            iis: spec_bits(v, len as nat, u as nat, 4) as u8,
            ids: spec_utility_message_type(spec_bits(v, len as nat, (u + 4) as nat, 2)),
        }),
{
    UtilityMessage {
        iis: bits(v, len, u, 4) as u8,
        ids: utility_message_type_from(bits(v, len, u + 4, 2)),
    }
}

/// Decodes a 7- or 14-byte Mode S frame into its envelope: the Downlink
/// Format body selected by the frame's leading 5 bits, plus the CRC-24 over
/// the whole encoded message at that selector's bit length.
///
/// Total on all inputs, it either returns the bit-exact decoded record or a
/// typed error: `UnknownDownlinkFormat` when the selector matches no shape,
/// `Incomplete` when the frame is shorter than the selector demands, and the
/// operational-status failures of `decode_me`. Bytes past the demanded
/// length are ignored.
#[verifier::rlimit(60)]
pub fn decode_envelope(frame: &[u8]) -> (r: Result<AdsbRawMessage, EnvelopeError>)
    ensures
        r is Err <==> spec_envelope_error(frame@) is Some,
        r matches Err(e) ==> Some(e) == spec_envelope_error(frame@),
        r matches Ok(m) ==> spec_envelope_ok(frame@, m),
{
    proof {
        lemma_width_bounds();
    }
    if frame.len() == 0 {
        return Err(EnvelopeError::Incomplete);
    }
    let b0: u8 = frame[0];
    let t: u32 = (b0 >> 3) as u32;
    proof {
        assert(t < 32 && ((t & 0x10) != 0) == (t >= 16)) by (bit_vector)
            requires
                t == (b0 >> 3) as u32,
        ;
    }
    if !(t == 0 || t == 4 || t == 5 || t == 11 || (16 <= t && t <= 21) || (24 <= t && t <= 31)) {
        return Err(EnvelopeError::UnknownDownlinkFormat { df: t as u8 });
    }
    let nbytes: usize = if t & 0x10 != 0 {
        14
    } else {
        7
    };
    if frame.len() < nbytes {
        return Err(EnvelopeError::Incomplete);
    }
    let crc: u32 = match modes_checksum(frame, nbytes * 8) {
        Ok(crc) => crc,
        Err(_) => {
            proof {
                assert(false);
            }
            0
        },
    };

    let df: DF = if t == 0 {
        let v: u128 = frame_val56(frame);
        DF::ShortAirAirSurveillance {
            vs: bits(v, 56, 5, 1) as u8,
            cc: bits(v, 56, 6, 1) as u8,
            unused: bits(v, 56, 7, 1) as u8,
            sl: bits(v, 56, 8, 3) as u8,
            unused1: bits(v, 56, 11, 2) as u8,
            ri: bits(v, 56, 13, 4) as u8,
            unused2: bits(v, 56, 17, 2) as u8,
            altitude: decode_ac13(bits(v, 56, 19, 13)),
            parity: read_icao(v, 56, 32),
        }
    } else if t == 4 || t == 5 {
        let v: u128 = frame_val56(frame);
        let fs = flight_status_from(bits(v, 56, 5, 3));
        let dr = downlink_request_from(bits(v, 56, 8, 5));
        let u: usize = if matches!(dr, DownlinkRequest::Unknown) {
            8
        } else {
            13
        };
        let um = decode_um(v, 56, u);
        if t == 4 {
            DF::SurveillanceAltitudeReply {
                fs,
                dr,
                um,
                ac: decode_ac13(bits(v, 56, u + 6, 13)),
                ap: read_icao(v, 56, u + 19),
            }
        } else {
            DF::SurveillanceIdentityReply {
                fs,
                dr,
                um,
                id: IdentityCode(decode_identity_code(bits(v, 56, u + 6, 13))),
                ap: read_icao(v, 56, u + 19),
            }
        }
    } else if t == 11 {
        let v: u128 = frame_val56(frame);
        let cap: u32 = bits(v, 56, 5, 3);
        let cb: usize = if 1 <= cap && cap <= 3 {
            5
        } else {
            8
        };
        DF::AllCallReply {
            capability: capability_from(cap),
            icao: read_icao(v, 56, cb),
            p_icao: read_icao(v, 56, cb + 24),
        }
    } else if t == 16 {
        let v: u128 = frame_val112(frame);
        DF::LongAirAir {
            vs: bits(v, 112, 5, 1) as u8,
            spare1: bits(v, 112, 6, 2) as u8,
            sl: bits(v, 112, 8, 3) as u8,
            spare2: bits(v, 112, 11, 2) as u8,
            ri: bits(v, 112, 13, 4) as u8,
            spare3: bits(v, 112, 17, 2) as u8,
            altitude: decode_ac13(bits(v, 112, 19, 13)),
            mv: read_bytes_vec(v, 112, 32, 7),
            parity: read_icao(v, 112, 88),
        }
    } else if t == 17 {
        let v: u128 = frame_val112(frame);
        let cap: u32 = bits(v, 112, 5, 3);
        let cb: usize = if 1 <= cap && cap <= 3 {
            5
        } else {
            8
        };
        match decode_me(v, cb + 24) {
            Ok((me, me_end)) => DF::ADSB(
                Adsb {
                    capability: capability_from(cap),
                    icao: read_icao(v, 112, cb),
                    me,
                    pi: read_icao(v, 112, me_end),
                },
            ),
            Err(e) => {
                return Err(e);
            },
        }
    } else if t == 18 {
        let v: u128 = frame_val112(frame);
        match decode_me(v, 32) {
            Ok((me, me_end)) => DF::TisB {
                cf: ControlField {
                    t: control_field_type_from(bits(v, 112, 5, 3)),
                    aa: read_icao(v, 112, 8),
                    me,
                },
                pi: read_icao(v, 112, me_end),
            },
            Err(e) => {
                return Err(e);
            },
        }
    } else if t == 19 {
        let v: u128 = frame_val112(frame);
        DF::ExtendedQuitterMilitaryApplication { af: bits(v, 112, 5, 3) as u8 }
    } else if t == 20 || t == 21 {
        let v: u128 = frame_val112(frame);
        let fs = flight_status_from(bits(v, 112, 5, 3));
        let dr = downlink_request_from(bits(v, 112, 8, 5));
        let u: usize = if matches!(dr, DownlinkRequest::Unknown) {
            8
        } else {
            13
        };
        let um = decode_um(v, 112, u);
        let (bds, bds_end) = decode_bds(v, u + 19);
        if t == 20 {
            DF::CommBAltitudeReply {
                flight_status: fs,
                dr,
                um,
                alt: decode_ac13(bits(v, 112, u + 6, 13)),
                bds,
                parity: read_icao(v, 112, bds_end),
            }
        } else {
            DF::CommBIdentityReply {
                fs,
                dr,
                um,
                id: decode_id13_field(bits(v, 112, u + 6, 13)),
                bds,
                parity: read_icao(v, 112, bds_end),
            }
        }
    } else {
        let v: u128 = frame_val112(frame);
        DF::CommDExtendedLengthMessage {
            spare: bits(v, 112, 0, 1) as u8,
            ke: ke_from(bits(v, 112, 1, 1)),
            nd: bits(v, 112, 2, 4) as u8,
            md: read_bytes_vec(v, 112, 6, 10),
            parity: read_icao(v, 112, 86),
        }
    };

    Ok(AdsbRawMessage { df, crc })
}

} // verus!
