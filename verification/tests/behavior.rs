use aprs_parser::parse;
use aprs_parser::APRSData;
use aprs_parser::APRSError;
use aprs_parser::APRSObject;
use aprs_parser::APRSPosition;
use aprs_parser::APRSStatusReport;
use aprs_parser::APRSTelemetry;
use aprs_parser::Callsign;
use aprs_parser::ObjectStatus;
use aprs_parser::Timestamp;

#[test]
fn callsign_round_trip() {
    let c = Callsign::from_str("DL4MEA-9").unwrap();
    assert_eq!(c.call, "DL4MEA");
    assert_eq!(c.ssid, Some(9));
    let rendered = format!("{}-{}", c.call, c.ssid.unwrap());
    assert_eq!(rendered, "DL4MEA-9");

    let plain = Callsign::from_str("APRS").unwrap();
    assert_eq!(plain.call, "APRS");
    assert_eq!(plain.ssid, None);
}

#[test]
fn callsign_leading_zero_ssid() {
    // a non-canonical numeral decodes, but renders without the zero
    let c = Callsign::from_str("A-07").unwrap();
    assert_eq!(c.ssid, Some(7));
    assert_eq!(format!("{}-{}", c.call, c.ssid.unwrap()), "A-7");
}

#[test]
fn callsign_bad_ssid() {
    assert!(matches!(
        Callsign::from_str("A-x"),
        Err(APRSError::InvalidMessage(_))
    ));
    assert!(matches!(
        Callsign::from_str("A-"),
        Err(APRSError::InvalidMessage(_))
    ));
    assert!(matches!(
        Callsign::from_str("A-70000"),
        Err(APRSError::InvalidMessage(_))
    ));
    // only the first `-` separates the SSID
    assert!(matches!(
        Callsign::from_str("A-1-2"),
        Err(APRSError::InvalidMessage(_))
    ));
}

#[test]
fn timestamp_recognized_never_fails() {
    assert_eq!(
        Timestamp::from_str("123456z").unwrap(),
        Timestamp::DDHHMM(12, 34, 56)
    );
    assert_eq!(
        Timestamp::from_str("074849h").unwrap(),
        Timestamp::HHMMSS(7, 48, 49)
    );
    assert_eq!(
        Timestamp::from_str("010203/").unwrap(),
        Timestamp::DDHHMMLocal(1, 2, 3)
    );
}

#[test]
fn timestamp_non_digit_always_fails() {
    assert!(matches!(
        Timestamp::from_str("12a456h"),
        Err(APRSError::InvalidTimestamp(_))
    ));
    assert!(matches!(
        Timestamp::from_str("123456x"),
        Err(APRSError::InvalidTimestamp(_))
    ));
    assert!(matches!(
        Timestamp::from_str("1234567z"),
        Err(APRSError::InvalidTimestamp(_))
    ));
}

#[test]
fn coordinate_units_exact() {
    // 4903.50N is 49 degrees and 3.50 minutes north: 49 * 1_142_778_000
    // + 350 * 190_463 units. 07201.75W is 72 degrees and 1.75 minutes
    // west, negated.
    let result = APRSPosition::from_str("!4903.50N/07201.75W-").unwrap();
    assert_eq!(result.latitude.units, 56_062_784_050);
    assert_eq!(result.longitude.units, -82_313_347_025);
}

#[test]
fn compressed_units_exact() {
    // lat "5L!!" encodes 15_427_503, so 90 deg minus 15_427_503 steps of
    // 3_000 units; lon "<<!!" encodes 20_570_004, so -180 deg plus
    // 20_570_004 steps of 6_000 units.
    let packed = APRSPosition::from_str("!/5L!!<<!!-   ").unwrap();
    assert_eq!(packed.latitude.units, 90 * 1_142_778_000 - 15_427_503 * 3_000);
    assert_eq!(packed.longitude.units, -180 * 1_142_778_000 + 20_570_004 * 6_000);
}

#[test]
fn longitude_monotonic_in_minutes() {
    let east_low = APRSPosition::from_str("!4800.00N/07210.00E-").unwrap();
    let east_high = APRSPosition::from_str("!4800.00N/07220.00E-").unwrap();
    assert!(east_low.longitude.units < east_high.longitude.units);

    let west_low = APRSPosition::from_str("!4800.00N/07210.00W-").unwrap();
    let west_high = APRSPosition::from_str("!4800.00N/07220.00W-").unwrap();
    assert!(west_low.longitude.units > west_high.longitude.units);
}

#[test]
fn latitude_monotonic_in_minutes() {
    let north_low = APRSPosition::from_str("!4810.00N/07200.00W-").unwrap();
    let north_high = APRSPosition::from_str("!4820.00N/07200.00W-").unwrap();
    assert!(north_low.latitude.units < north_high.latitude.units);

    let south_low = APRSPosition::from_str("!4810.00S/07200.00W-").unwrap();
    let south_high = APRSPosition::from_str("!4820.00S/07200.00W-").unwrap();
    assert!(south_low.latitude.units > south_high.latitude.units);
}

#[test]
fn compressed_agrees_with_uncompressed() {
    // Both payloads place the station at 49.5 N, 72 W; at this point the
    // two encodings decode to exactly the same angle units.
    let plain = APRSPosition::from_str("!4930.00N/07200.00W-").unwrap();
    let packed = APRSPosition::from_str("!/5L!!<<!!-   ").unwrap();
    assert_eq!(plain.latitude.units, packed.latitude.units);
    assert_eq!(plain.longitude.units, packed.longitude.units);
    // and in every case they must agree to within 1e-3 degree
    let tolerance_units: i64 = 1_142_778;
    assert!((plain.latitude.units - packed.latitude.units).abs() <= tolerance_units);
    assert!((plain.longitude.units - packed.longitude.units).abs() <= tolerance_units);
}

#[test]
fn compressed_carries_timestamp() {
    let packed = APRSPosition::from_str("@074849h/5L!!<<!!-   ").unwrap();
    assert_eq!(packed.timestamp, Some(Timestamp::HHMMSS(7, 48, 49)));
    assert_eq!(packed.symbol_table, '/');
    assert_eq!(packed.symbol, '-');
    assert_eq!(packed.comment, "");
}

#[test]
fn decode_deterministic() {
    let text = r"ICA3D17F2>APRS,qAS,dl4mea:/074849h4821.61N\01224.49E^322/103/A=003054";
    let first = parse(text).unwrap();
    let second = parse(text).unwrap();
    assert_eq!(first, second);
}

#[test]
fn scenario_full_packet() {
    let result = parse(r"ICA3D17F2>APRS,qAS,dl4mea:/074849h4821.61N\01224.49E^322/103/A=003054")
        .unwrap();
    assert_eq!(result.from, Callsign::new("ICA3D17F2", None));
    assert_eq!(result.to, Callsign::new("APRS", None));
    assert_eq!(
        result.via,
        vec![Callsign::new("qAS", None), Callsign::new("dl4mea", None)]
    );
    match result.data {
        APRSData::Position(position) => {
            assert_eq!(position.timestamp, Some(Timestamp::HHMMSS(7, 48, 49)));
            assert!((position.latitude.units as f64 / 1_142_778_000.0 - 48.360166).abs() < 1e-4);
            assert!((position.longitude.units as f64 / 1_142_778_000.0 - 12.408166).abs() < 1e-4);
            assert_eq!(position.comment, "322/103/A=003054");
        }
        _ => panic!("Unexpected data type"),
    }
}

#[test]
fn scenario_missing_colon() {
    assert!(matches!(
        parse("ICA3D17F2>APRS,qAS,dl4mea"),
        Err(APRSError::InvalidMessage(_))
    ));
}

#[test]
fn scenario_unknown_sigil() {
    let result = parse("A>B:#garbage").unwrap();
    assert!(matches!(result.data, APRSData::Unknown));
}

#[test]
fn scenario_short_object() {
    assert!(matches!(
        APRSObject::from_str(";SHORT"),
        Err(APRSError::InvalidObject(_))
    ));
}

#[test]
fn object_parse() {
    // after the sigil: 9 characters of name, a status character, a
    // timestamp, the coordinate layout of a position, a 6-character
    // extension field, then the comment
    let result =
        APRSObject::from_str(";LEADER   *092345z4903.50N/07201.75W>000/00comment text").unwrap();
    assert_eq!(result.name, "LEADER   ");
    assert_eq!(result.status, ObjectStatus::Live);
    assert_eq!(result.timestamp, Timestamp::DDHHMM(9, 23, 45));
    assert!((result.latitude.units as f64 / 1_142_778_000.0 - 49.05833).abs() < 1e-4);
    assert!((result.longitude.units as f64 / 1_142_778_000.0 + 72.02916).abs() < 1e-4);
    assert_eq!(result.symbol_table, '/');
    assert_eq!(result.symbol, '>');
    assert_eq!(result.comment, "comment text");
}

#[test]
fn object_killed_and_unknown_status() {
    let killed = APRSObject::from_str(";LEADER   _092345z4903.50N/07201.75W>000/00").unwrap();
    assert_eq!(killed.status, ObjectStatus::Killed);
    assert_eq!(killed.comment, "");
    let odd = APRSObject::from_str(";LEADER   ?092345z4903.50N/07201.75W>000/00").unwrap();
    assert_eq!(odd.status, ObjectStatus::Invalid('?'));
}

#[test]
fn object_bad_timestamp_propagates() {
    assert!(matches!(
        APRSObject::from_str(";LEADER   *09x345z4903.50N/07201.75W>000/00"),
        Err(APRSError::InvalidTimestamp(_))
    ));
}

#[test]
fn status_report_keeps_text() {
    let result = parse("A>B:>station going down").unwrap();
    match result.data {
        APRSData::StatusReport(sr) => {
            assert_eq!(sr.timestamp, None);
            assert_eq!(sr.report, "station going down");
        }
        _ => panic!("Unexpected data type"),
    }
    let direct = APRSStatusReport::from_str(">hello").unwrap();
    assert_eq!(direct.report, "hello");
}

#[test]
fn telemetry_unsupported() {
    assert!(matches!(
        APRSTelemetry::from_str("`abcdefgh"),
        Err(APRSError::UnsupportedPositionFormat(_))
    ));
    // through the dispatcher it degrades to Unknown
    let result = parse("A>B:`abcdefgh").unwrap();
    assert!(matches!(result.data, APRSData::Unknown));
}

#[test]
fn position_too_short() {
    assert!(matches!(
        APRSPosition::from_str("!123"),
        Err(APRSError::InvalidPosition(_))
    ));
}

#[test]
fn position_bad_hemisphere() {
    assert!(matches!(
        APRSPosition::from_str("!4903.50X/07201.75W-"),
        Err(APRSError::InvalidCoordinate(_))
    ));
}

#[test]
fn position_bad_timestamp() {
    assert!(matches!(
        APRSPosition::from_str("@12a456h4903.50N/07201.75W-"),
        Err(APRSError::InvalidTimestamp(_))
    ));
}

#[test]
fn position_bad_compressed_digit() {
    // a space is below `!`, so it is not a base-91 digit
    assert!(matches!(
        APRSPosition::from_str("!x y!!!!!!!!!!"),
        Err(APRSError::InvalidCoordinate(_))
    ));
}

#[test]
fn header_errors_are_fatal() {
    // a bad path callsign aborts the decode even though the payload is fine
    assert!(matches!(
        parse("A>B,C-x:>hello"),
        Err(APRSError::InvalidMessage(_))
    ));
    // missing `>` in the header
    assert!(matches!(parse("AB:>hello"), Err(APRSError::InvalidMessage(_))));
}

#[test]
fn via_path_order_preserved() {
    let result = parse("A-1>B-2,C-3,D-4:>x").unwrap();
    assert_eq!(result.from, Callsign::new("A", Some(1)));
    assert_eq!(result.to, Callsign::new("B", Some(2)));
    assert_eq!(
        result.via,
        vec![Callsign::new("C", Some(3)), Callsign::new("D", Some(4))]
    );
}

#[test]
fn empty_payload_is_unknown() {
    let result = parse("A>B:").unwrap();
    assert!(matches!(result.data, APRSData::Unknown));
}
