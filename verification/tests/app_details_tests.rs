use acars_vdlm2_parser::adsb_raw::{Sign, ICAO};
use acars_vdlm2_parser::AppDetails;

#[test]
fn app_details_new_sets_proxy_fields() {
    let generated = AppDetails::new("test", "1.0.4");
    assert_eq!(generated.name, "");
    assert_eq!(generated.ver, "");
    assert_eq!(generated.proxied, Some(true));
    assert_eq!(generated.proxied_by.as_deref(), Some("test"));
    assert_eq!(generated.acars_router_version.as_deref(), Some("1.0.4"));
    assert_eq!(generated.acars_router_uuid.as_ref().unwrap().len(), 36);
}

#[test]
fn app_details_proxy_updates_and_keeps_uuid() {
    let mut vdlm2 = AppDetails {
        name: "dumpvdl2".to_string(),
        ver: "2.2.0".to_string(),
        proxied: None,
        proxied_by: None,
        acars_router_version: None,
        acars_router_uuid: Some("00000000-0000-0000-0000-000000000000".to_string()),
    };
    vdlm2.proxy("acars_router", "1.0.12");
    let manual_vdlm2 = AppDetails {
        name: "dumpvdl2".to_string(),
        ver: "2.2.0".to_string(),
        proxied: Some(true),
        proxied_by: Some("acars_router".to_string()),
        acars_router_version: Some("1.0.12".to_string()),
        acars_router_uuid: Some("00000000-0000-0000-0000-000000000000".to_string()),
    };
    assert_eq!(vdlm2, manual_vdlm2);

    let mut fresh = AppDetails {
        name: "acarsdec".to_string(),
        ver: "3.7".to_string(),
        proxied: None,
        proxied_by: None,
        acars_router_version: None,
        acars_router_uuid: None,
    };
    fresh.proxy("acars_router", "1.0.12");
    assert_eq!(fresh.proxied, Some(true));
    assert_eq!(fresh.acars_router_uuid.as_ref().unwrap().len(), 36);
}

#[test]
fn app_details_remove_proxy_clears_fields() {
    let mut vdlm2 = AppDetails {
        name: "dumpvdl2".to_string(),
        ver: "2.2.0".to_string(),
        proxied: Some(true),
        proxied_by: Some("acars_router".to_string()),
        acars_router_version: Some("1.0.12".to_string()),
        acars_router_uuid: Some("00000000-0000-0000-0000-000000000000".to_string()),
    };
    vdlm2.remove_proxy();
    let manual_vdlm2 = AppDetails {
        name: "dumpvdl2".to_string(),
        ver: "2.2.0".to_string(),
        proxied: None,
        proxied_by: None,
        acars_router_version: None,
        acars_router_uuid: None,
    };
    assert_eq!(vdlm2, manual_vdlm2);
}

#[test]
fn icao_hex_string_round_trip() {
    let icao = ICAO([0xab, 0xe6, 0x5a]);
    let rendered = icao.to_hex_string();
    assert_eq!(rendered, "abe65a");
    assert_eq!(ICAO::from_hex_str(&rendered), Some(icao));
    // Upper-case digits parse to the same address.
    assert_eq!(ICAO::from_hex_str("ABE65A"), Some(icao));
    // Anything that is not six hex digits is rejected.
    assert_eq!(ICAO::from_hex_str("abe65"), None);
    assert_eq!(ICAO::from_hex_str("abe65ab"), None);
    assert_eq!(ICAO::from_hex_str("abe65g"), None);
}

#[test]
fn sign_values() {
    assert_eq!(Sign::Positive.value(), 1);
    assert_eq!(Sign::Negative.value(), -1);
}
