use acars_vdlm2_parser::adsb_decode::{decode_envelope, EnvelopeError};
use acars_vdlm2_parser::adsb_raw::{AC13Field, AdsbRawMessage, AirborneVelocitySubType, Capability,
    CPRFormat, DownlinkRequest, FlightStatus, GroundSpeedDecoding, ICAO, ME, OperationStatus,
    Sign, SurveillanceStatus, TypeCoding, UtilityMessageType, VerticalRateSource, DF};

#[test]
fn decode_all_call_reply() {
    let frame = hex::decode("5DABE65A2FBFAF").unwrap();
    let message = decode_envelope(&frame).unwrap();
    assert_eq!(message.crc, 0x2);
    match message.df {
        DF::AllCallReply { capability, icao, p_icao } => {
            assert_eq!(capability, Capability::AG_AIRBORNE);
            assert_eq!(icao, ICAO([0xab, 0xe6, 0x5a]));
            assert_eq!(p_icao, ICAO([0x2f, 0xbf, 0xaf]));
        },
        other => panic!("wrong shape: {other:?}"),
    }
}

#[test]
fn decode_airborne_velocity() {
    let frame = hex::decode("8DA1A3CC9909B814F004127F1107").unwrap();
    let message = decode_envelope(&frame).unwrap();
    assert_eq!(message.crc, 0);
    let adsb = match message.df {
        DF::ADSB(adsb) => adsb,
        other => panic!("wrong shape: {other:?}"),
    };
    assert_eq!(adsb.capability, Capability::AG_AIRBORNE);
    assert_eq!(adsb.icao, ICAO([0xa1, 0xa3, 0xcc]));
    assert_eq!(adsb.pi, ICAO([0x7f, 0x11, 0x07]));
    let av = match adsb.me {
        ME::AirborneVelocity(av) => av,
        other => panic!("wrong payload: {other:?}"),
    };
    assert_eq!(av.st, 1);
    assert_eq!(av.nac_v, 1);
    assert_eq!(
        av.sub_type,
        AirborneVelocitySubType::GroundSpeedDecoding(GroundSpeedDecoding {
            ew_sign: Sign::Positive,
            ew_vel: 440,
            ns_sign: Sign::Positive,
            ns_vel: 167,
        })
    );
    assert_eq!(av.vrate_src, VerticalRateSource::GeometricAltitude);
    assert_eq!(av.vrate_sign, Sign::Positive);
    assert_eq!(av.vrate_value, 1);
    assert_eq!(av.gnss_sign, Sign::Positive);
    assert_eq!(av.gnss_baro_diff, 425);
    assert_eq!(av.vertical_rate(), Some(0));
}

#[test]
fn decode_airborne_position() {
    let frame = hex::decode("8D40621D58C382D690C8AC2863A7").unwrap();
    let message = decode_envelope(&frame).unwrap();
    assert_eq!(message.crc, 0);
    let adsb = match message.df {
        DF::ADSB(adsb) => adsb,
        other => panic!("wrong shape: {other:?}"),
    };
    assert_eq!(adsb.icao, ICAO([0x40, 0x62, 0x1d]));
    let altitude = match adsb.me {
        ME::AirbornePositionBaroAltitude(altitude) => altitude,
        other => panic!("wrong payload: {other:?}"),
    };
    assert_eq!(altitude.tc, 11);
    assert_eq!(altitude.ss, SurveillanceStatus::NoCondition);
    assert_eq!(altitude.alt, Some(38000));
    assert_eq!(altitude.odd_flag, CPRFormat::Even);
    assert_eq!(altitude.lat_cpr, 93000);
    assert_eq!(altitude.lon_cpr, 51372);
}

#[test]
fn decode_aircraft_identification_callsign() {
    // A 14-byte frame whose ME encodes the callsign "KL1234" in six 6-bit
    // groups followed by one space group, which is omitted.
    let frame = hex::decode("8D4840D6202CCC72CF4800000000").unwrap();
    let message = decode_envelope(&frame).unwrap();
    assert_eq!(message.crc, 0x1c4870);
    let adsb = match message.df {
        DF::ADSB(adsb) => adsb,
        other => panic!("wrong shape: {other:?}"),
    };
    assert_eq!(adsb.icao, ICAO([0x48, 0x40, 0xd6]));
    let id = match adsb.me {
        ME::AircraftIdentification(id) => id,
        other => panic!("wrong payload: {other:?}"),
    };
    assert_eq!(id.tc, TypeCoding::A);
    assert_eq!(id.ca, 0);
    assert_eq!(id.cn, "KL1234");
}

#[test]
fn decode_surveillance_altitude_reply() {
    let frame = hex::decode("20001910BC45E9").unwrap();
    let message = decode_envelope(&frame).unwrap();
    assert_eq!(message.crc, 0xa27aee);
    match message.df {
        DF::SurveillanceAltitudeReply { fs, dr, um, ac, ap } => {
            assert_eq!(fs, FlightStatus::NoAlertNoSPIAirborne);
            assert_eq!(dr, DownlinkRequest::NoRequest);
            assert_eq!(um.iis, 0);
            assert_eq!(um.ids, UtilityMessageType::NoInformation);
            assert_eq!(ac, AC13Field(Some(39000)));
            assert_eq!(ap, ICAO([0xbc, 0x45, 0xe9]));
        },
        other => panic!("wrong shape: {other:?}"),
    }
}

#[test]
fn decode_unknown_downlink_format() {
    // The selector 1 matches no known shape.
    let frame = hex::decode("08ABE65A2FBFAF").unwrap();
    assert_eq!(
        decode_envelope(&frame),
        Err(EnvelopeError::UnknownDownlinkFormat { df: 1 })
    );
}

#[test]
fn decode_incomplete_frame() {
    assert_eq!(decode_envelope(&[]), Err(EnvelopeError::Incomplete));
    // An extended squitter needs 14 bytes.
    let frame = hex::decode("8DA1A3CC9909B8").unwrap();
    assert_eq!(decode_envelope(&frame), Err(EnvelopeError::Incomplete));
}

#[test]
fn decode_operational_status_reserved_bits() {
    let frame = hex::decode("8D4840D6F8C00000000000000000").unwrap();
    assert_eq!(decode_envelope(&frame), Err(EnvelopeError::ReservedBitsSet));
}

#[test]
fn decode_operational_status_unknown_version() {
    let frame = hex::decode("8D4840D6F800000000A000000000").unwrap();
    assert_eq!(
        decode_envelope(&frame),
        Err(EnvelopeError::UnknownAdsbVersion { value: 5 })
    );
}

#[test]
fn decode_operational_status_airborne() {
    let frame = hex::decode("8D4840D6F8200000004A00000000").unwrap();
    let message = decode_envelope(&frame).unwrap();
    assert_eq!(message.crc, 0x6d4121);
    let adsb = match message.df {
        DF::ADSB(adsb) => adsb,
        other => panic!("wrong shape: {other:?}"),
    };
    let os = match adsb.me {
        ME::AircraftOperationStatus(OperationStatus::Airborne(os)) => os,
        other => panic!("wrong payload: {other:?}"),
    };
    assert_eq!(os.capability_class.acas, 1);
    assert_eq!(os.navigational_accuracy_category, 10);
}

#[test]
fn decode_never_panics_on_every_selector() {
    // Every 7- and 14-byte frame decodes to Ok or a typed error; sweep each
    // possible leading selector over both lengths.
    for first in 0..=255u8 {
        let short = [first, 1, 2, 3, 4, 5, 6];
        let long = [first, 1, 2, 3, 4, 5, 6, 7, 8, 9, 10, 11, 12, 13];
        let _ = decode_envelope(&short);
        let _ = decode_envelope(&long);
    }
}

#[test]
fn decode_extracted_stream() {
    // The full pipeline: raw byte stream, frame extraction, envelope decode.
    let stream = b"*5DABE65A2FBFAF;\n*8DA1A3CC9909B814F004127F1107;\n";
    let frames = acars_vdlm2_parser::frames::format_adsb_raw_frames_from_bytes(stream);
    assert_eq!(frames.len(), 2);
    let first = decode_envelope(&frames[0]).unwrap();
    assert!(matches!(first.df, DF::AllCallReply { .. }));
    let second = decode_envelope(&frames[1]).unwrap();
    match second.df {
        DF::ADSB(adsb) => assert!(matches!(adsb.me, ME::AirborneVelocity(_))),
        other => panic!("wrong shape: {other:?}"),
    }
}
