use acars_vdlm2_parser::adsb_decode::decode_envelope;
use acars_vdlm2_parser::adsb_raw::{AC13Field, AircraftStatusType, Capability, CPRFormat,
    DownlinkRequest, EmergencyState, FlightStatus, ICAO, IdentityCode, KE, ME, StatusForGroundTrack,
    UtilityMessageType, BDS, DF};

#[test]
fn decode_surveillance_identity_reply() {
    let frame = hex::decode("2A0ABAAA112233").unwrap();
    let message = decode_envelope(&frame).unwrap();
    assert_eq!(message.crc, 0x5efafb);
    match message.df {
        DF::SurveillanceIdentityReply { fs, dr, um, id, ap } => {
            assert_eq!(fs, FlightStatus::AlertNoSPIAirborne);
            assert_eq!(dr, DownlinkRequest::RequestSendCommB);
            assert_eq!(um.iis, 5);
            assert_eq!(um.ids, UtilityMessageType::CommB);
            assert_eq!(id, IdentityCode(0x7710));
            assert_eq!(ap, ICAO([0x11, 0x22, 0x33]));
        },
        other => panic!("wrong shape: {other:?}"),
    }
}

#[test]
fn decode_identity_reply_with_unknown_downlink_request() {
    // An unassigned downlink-request code leaves its five bits unconsumed,
    // so every later field shifts up by five bits.
    let frame = hex::decode("28100000000000").unwrap();
    let message = decode_envelope(&frame).unwrap();
    assert_eq!(message.crc, 0xfd3cde);
    match message.df {
        DF::SurveillanceIdentityReply { fs, dr, um, id, ap } => {
            assert_eq!(fs, FlightStatus::NoAlertNoSPIAirborne);
            assert_eq!(dr, DownlinkRequest::Unknown);
            assert_eq!(um.iis, 1);
            assert_eq!(um.ids, UtilityMessageType::NoInformation);
            assert_eq!(id, IdentityCode(0));
            assert_eq!(ap, ICAO([0, 0, 0]));
        },
        other => panic!("wrong shape: {other:?}"),
    }
}

#[test]
fn decode_tisb_surface_position() {
    let frame = hex::decode("92AABBCC35C98C0E5A8620000000").unwrap();
    let message = decode_envelope(&frame).unwrap();
    assert_eq!(message.crc, 0x248789);
    let (cf, pi) = match message.df {
        DF::TisB { cf, pi } => (cf, pi),
        other => panic!("wrong shape: {other:?}"),
    };
    assert_eq!(cf.aa, ICAO([0xaa, 0xbb, 0xcc]));
    assert_eq!(pi, ICAO([0, 0, 0]));
    let sp = match cf.me {
        ME::SurfacePosition(sp) => sp,
        other => panic!("wrong payload: {other:?}"),
    };
    // The 5-bit Type Code is not consumed for this shape, so the movement
    // field overlaps it.
    assert_eq!(sp.mov, 26);
    assert_eq!(sp.s, StatusForGroundTrack::Valid);
    assert_eq!(sp.trk, 100);
    assert!(sp.t);
    assert_eq!(sp.f, CPRFormat::Odd);
    assert_eq!(sp.lat_cpr, 12345);
    assert_eq!(sp.lon_cpr, 54321);
}

#[test]
fn decode_long_air_air_surveillance() {
    let frame = hex::decode("8461191001020304050607DDEEFF").unwrap();
    let message = decode_envelope(&frame).unwrap();
    assert_eq!(message.crc, 0x4b2cd7);
    match message.df {
        DF::LongAirAir { vs, spare1, sl, spare2, ri, spare3, altitude, mv, parity } => {
            assert_eq!(vs, 1);
            assert_eq!(spare1, 0);
            assert_eq!(sl, 3);
            assert_eq!(spare2, 0);
            assert_eq!(ri, 2);
            assert_eq!(spare3, 0);
            assert_eq!(altitude, AC13Field(Some(39000)));
            assert_eq!(mv, vec![1, 2, 3, 4, 5, 6, 7]);
            assert_eq!(parity, ICAO([0xdd, 0xee, 0xff]));
        },
        other => panic!("wrong shape: {other:?}"),
    }
}

#[test]
fn decode_comm_b_altitude_reply_with_callsign() {
    let frame = hex::decode("A1013910200420F1CB3800000000").unwrap();
    let message = decode_envelope(&frame).unwrap();
    assert_eq!(message.crc, 0xbdb483);
    match message.df {
        DF::CommBAltitudeReply { flight_status, dr, um, alt, bds, parity } => {
            assert_eq!(flight_status, FlightStatus::NoAlertNoSPIOnGround);
            assert_eq!(dr, DownlinkRequest::NoRequest);
            assert_eq!(um.iis, 2);
            assert_eq!(um.ids, UtilityMessageType::CommB);
            assert_eq!(alt, AC13Field(Some(39000)));
            assert_eq!(bds, BDS::AircraftIdentification("ABC123".to_string()));
            assert_eq!(parity, ICAO([0, 0, 0]));
        },
        other => panic!("wrong shape: {other:?}"),
    }
}

#[test]
fn decode_comm_b_identity_reply_with_unknown_bds() {
    let frame = hex::decode("A800015555000000000000000000").unwrap();
    let message = decode_envelope(&frame).unwrap();
    assert_eq!(message.crc, 0x781b27);
    match message.df {
        DF::CommBIdentityReply { fs, dr, um, id, bds, parity } => {
            assert_eq!(fs, FlightStatus::NoAlertNoSPIAirborne);
            assert_eq!(dr, DownlinkRequest::NoRequest);
            assert_eq!(um.iis, 0);
            assert_eq!(um.ids, UtilityMessageType::NoInformation);
            assert_eq!(id, 0x47);
            // An unknown BDS code leaves its tag unconsumed, so the first
            // byte of the kept body is the tag itself.
            assert_eq!(bds, BDS::Unknown([0x55, 0, 0, 0, 0, 0]));
            assert_eq!(parity, ICAO([0, 0, 0]));
        },
        other => panic!("wrong shape: {other:?}"),
    }
}

#[test]
fn decode_comm_d_extended_length_message() {
    // Comm-D selectors do not consume their bits, so the fields start at the
    // very first bit of the frame.
    let frame = hex::decode("C004080C1014181C20242B2BF804").unwrap();
    let message = decode_envelope(&frame).unwrap();
    assert_eq!(message.crc, 0xe0c126);
    match message.df {
        DF::CommDExtendedLengthMessage { spare, ke, nd, md, parity } => {
            assert_eq!(spare, 1);
            assert_eq!(ke, KE::UplinkELMAck);
            assert_eq!(nd, 0);
            assert_eq!(md, vec![1, 2, 3, 4, 5, 6, 7, 8, 9, 10]);
            assert_eq!(parity, ICAO([0xca, 0xfe, 0x01]));
        },
        other => panic!("wrong shape: {other:?}"),
    }
}

#[test]
fn decode_aircraft_status_squawk() {
    let frame = hex::decode("8C777777E14D0500000000000000").unwrap();
    let message = decode_envelope(&frame).unwrap();
    assert_eq!(message.crc, 0xa0040f);
    let adsb = match message.df {
        DF::ADSB(adsb) => adsb,
        other => panic!("wrong shape: {other:?}"),
    };
    assert_eq!(adsb.capability, Capability::AG_GROUND);
    assert_eq!(adsb.icao, ICAO([0x77, 0x77, 0x77]));
    let status = match adsb.me {
        ME::AircraftStatus(status) => status,
        other => panic!("wrong payload: {other:?}"),
    };
    assert_eq!(status.sub_type, AircraftStatusType::EmergencyPriorityStatus);
    assert_eq!(status.emergency_state, EmergencyState::Lifeguard);
    // The squawk goes through the Gillham remap unconditionally and never
    // fails.
    assert_eq!(status.squawk, 0x1066);
}

#[test]
fn decode_target_state_and_status() {
    let frame = hex::decode("8D123456EA3E96ACC93908000000").unwrap();
    let message = decode_envelope(&frame).unwrap();
    assert_eq!(message.crc, 0x379510);
    let adsb = match message.df {
        DF::ADSB(adsb) => adsb,
        other => panic!("wrong shape: {other:?}"),
    };
    let ts = match adsb.me {
        ME::TargetStateAndStatusInformation(ts) => ts,
        other => panic!("wrong payload: {other:?}"),
    };
    assert_eq!(ts.subtype, 1);
    assert!(!ts.is_fms);
    assert_eq!(ts.altitude, 32000);
    assert_eq!(ts.qnh_raw, 213);
    assert!(ts.is_heading);
    assert_eq!(ts.heading_raw, 100);
    assert_eq!(ts.nacp, 9);
    assert_eq!(ts.nicbaro, 1);
    assert_eq!(ts.sil, 2);
    assert!(ts.autopilot);
    assert!(ts.tcas);
    assert!(!ts.mode_validity);
    assert!(!ts.vnac);
    assert!(!ts.alt_hold);
    assert!(!ts.imf);
    assert!(!ts.approach);
    assert!(!ts.lnav);
}

#[test]
fn decode_reserved_capability_shifts_body() {
    // A reserved capability code (1 to 3) leaves its three bits unconsumed,
    // so the address and everything after it shift up by three bits.
    let frame = hex::decode("89D5E6F004488CD11559AAF37BC0").unwrap();
    let message = decode_envelope(&frame).unwrap();
    assert_eq!(message.crc, 0x1010de);
    let adsb = match message.df {
        DF::ADSB(adsb) => adsb,
        other => panic!("wrong shape: {other:?}"),
    };
    assert_eq!(adsb.capability, Capability::Reserved);
    assert_eq!(adsb.icao, ICAO([0x3a, 0xbc, 0xde]));
    assert_eq!(adsb.me, ME::NoPosition([0x11, 0x22, 0x33, 0x44, 0x55, 0x66]));
    assert_eq!(adsb.pi, ICAO([0xab, 0xcd, 0xef]));
}

#[test]
fn decode_military_application() {
    let mut frame = vec![0u8; 14];
    frame[0] = 0x9B; // selector 19, af = 3
    let message = decode_envelope(&frame).unwrap();
    match message.df {
        DF::ExtendedQuitterMilitaryApplication { af } => assert_eq!(af, 3),
        other => panic!("wrong shape: {other:?}"),
    }
}

#[test]
fn decode_data_link_capability() {
    let frame = hex::decode("A0000040108232590A34120BADB1").unwrap();
    let message = decode_envelope(&frame).unwrap();
    assert_eq!(message.crc, 0x3925e6);
    match message.df {
        DF::CommBAltitudeReply { alt, bds, parity, .. } => {
            // The M bit marks the altitude unresolvable.
            assert_eq!(alt, AC13Field(None));
            let dlc = match bds {
                BDS::DataLinkCapability(dlc) => dlc,
                other => panic!("wrong message field: {other:?}"),
            };
            assert!(dlc.continuation_flag);
            assert!(dlc.overlay_command_capability);
            assert!(!dlc.acas);
            assert_eq!(dlc.mode_s_subnetwork_version_number, 25);
            assert_eq!(dlc.uplink_elm_average_throughput_capability, 5);
            assert_eq!(dlc.downlink_elm, 9);
            assert_eq!(dlc.reserved_acas, 0xa);
            // The trailing array is carried low byte first.
            assert_eq!(dlc.bit_array, 0x1234);
            assert_eq!(parity, ICAO([0x0b, 0xad, 0xb1]));
        },
        other => panic!("wrong shape: {other:?}"),
    }
}

#[test]
fn decode_reserved_velocity_subtype() {
    let frame = hex::decode("8811111198055E6DE00000000000").unwrap();
    let message = decode_envelope(&frame).unwrap();
    assert_eq!(message.crc, 0xb26371);
    let adsb = match message.df {
        DF::ADSB(adsb) => adsb,
        other => panic!("wrong shape: {other:?}"),
    };
    let av = match adsb.me {
        ME::AirborneVelocity(av) => av,
        other => panic!("wrong payload: {other:?}"),
    };
    assert_eq!(av.st, 0);
    // The reserved payload is assembled from its byte groups low group
    // first.
    assert_eq!(
        av.sub_type,
        acars_vdlm2_parser::adsb_raw::AirborneVelocitySubType::Reserved0(0x2fcdab)
    );
}
