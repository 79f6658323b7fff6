use acars_vdlm2_parser::acars::AckType;
use acars_vdlm2_parser::adsb_raw::{Capability, CPRFormat, SurveillanceStatus};
use acars_vdlm2_parser::hfdl::{FreqId, LPDUSrcType, SPDUGroundStationStatus, SPDUorLPDUSource};
use acars_vdlm2_parser::imsl::ImslMessage;
use acars_vdlm2_parser::irdm::AcarsBody;
use acars_vdlm2_parser::vdlm2::AdscTagGroups;

#[test]
fn default_values() {
    assert_eq!(AckType::default(), AckType::Text(String::new()));
    assert_eq!(
        AdscTagGroups::default(),
        AdscTagGroups::ReportInterval { interval_secs: 0 }
    );
    assert_eq!(Capability::default(), Capability::AG_UNCERTAIN);
    assert_eq!(SurveillanceStatus::default(), SurveillanceStatus::NoCondition);
    assert_eq!(CPRFormat::default(), CPRFormat::Even);
    assert_eq!(LPDUSrcType::default(), LPDUSrcType::Aircraft);
}

#[test]
fn hfdl_records_construct_and_compare() {
    let gs = SPDUGroundStationStatus {
        gs: SPDUorLPDUSource {
            source_type: LPDUSrcType::GroundStation,
            id: 7,
            ac_info: None,
        },
        utc_sync: true,
        freqs: vec![FreqId { id: 3 }, FreqId { id: 4 }],
    };
    assert_eq!(gs.freqs.len(), 2);
    assert_eq!(gs.gs.id, 7);
    assert_ne!(gs, SPDUGroundStationStatus::default());
}

#[test]
fn imsl_and_irdm_records_construct() {
    let message = ImslMessage {
        msg_name: "test".to_string(),
        timestamp: Some(12),
        ..ImslMessage::default()
    };
    assert_eq!(message.msg_name, "test");
    assert_eq!(message.timestamp, Some(12));

    let acars = AcarsBody {
        tail: "N12345".to_string(),
        ..AcarsBody::default()
    };
    assert_eq!(acars.tail, "N12345");
    assert_eq!(acars.errors, 0);
}
