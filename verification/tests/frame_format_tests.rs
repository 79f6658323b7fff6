use acars_vdlm2_parser::frames::{format_adsb_raw_frame_from_str, format_adsb_raw_frames_from_bytes,
    format_adsb_raw_frames_from_vec_string};

#[test]
fn test_adsb_raw_parsing_from_str() {
    let line_one = "*5DABE65A2FBFAF;\n";
    let line_two = "*8DA1A3CC9909B814F004127F1107;\n";
    let vec_of_lines = vec![line_one.to_string(), line_two.to_string()];

    assert_eq!(format_adsb_raw_frame_from_str(line_one), "5DABE65A2FBFAF");
    assert_eq!(
        format_adsb_raw_frame_from_str(line_two),
        "8DA1A3CC9909B814F004127F1107"
    );

    assert_eq!(
        format_adsb_raw_frames_from_vec_string(&vec_of_lines),
        ["5DABE65A2FBFAF", "8DA1A3CC9909B814F004127F1107"]
    );
}

#[test]
fn test_adsb_raw_parsing_input() {
    let mut input = vec![
        0x2a, 0x35, 0x44, 0x41, 0x42, 0x45, 0x36, 0x35, 0x41, 0x32, 0x46, 0x42, 0x46, 0x41, 0x46,
        0x3b, 0x0a, 0x2a, 0x38, 0x44, 0x41, 0x31, 0x41, 0x33, 0x43, 0x43, 0x39, 0x39, 0x30, 0x39,
        0x42, 0x38, 0x31, 0x34, 0x46, 0x30, 0x30, 0x34, 0x31, 0x32, 0x37, 0x46, 0x31, 0x31, 0x30,
        0x37, 0x3b, 0x0a,
    ];

    assert_eq!(
        format_adsb_raw_frames_from_bytes(&input).len(),
        2,
        "There should be two frames in the input"
    );
    assert_eq!(
        format_adsb_raw_frames_from_bytes(&input),
        [
            hex::decode("5DABE65A2FBFAF").unwrap(),
            hex::decode("8DA1A3CC9909B814F004127F1107").unwrap()
        ]
    );

    input.push(0x2a);
    input.push(0x35);
    input.push(0x34);
    input.push(0x32);
    input.push(0x34);
    input.push(0x3b);
    input.push(0x0a);
    assert_eq!(
        format_adsb_raw_frames_from_bytes(&input).len(),
        2,
        "There should be two frames in the input"
    );
    assert_eq!(
        format_adsb_raw_frames_from_bytes(&input),
        [
            hex::decode("5DABE65A2FBFAF").unwrap(),
            hex::decode("8DA1A3CC9909B814F004127F1107").unwrap()
        ]
    );
}

#[test]
fn strip_frame_edge_cases() {
    assert_eq!(format_adsb_raw_frame_from_str("**AB;;\n"), "AB");
    assert_eq!(format_adsb_raw_frame_from_str(""), "");
    assert_eq!(format_adsb_raw_frame_from_str("***"), "");
    assert_eq!(format_adsb_raw_frame_from_str(";\n"), "");
    assert_eq!(format_adsb_raw_frame_from_str("AB"), "AB");
}

#[test]
fn format_from_vec_string_drops_empty_lines() {
    let lines = vec![
        "*AA;".to_string(),
        "".to_string(),
        "*BB;\n".to_string(),
    ];
    assert_eq!(format_adsb_raw_frames_from_vec_string(&lines), ["AA", "BB"]);
}
