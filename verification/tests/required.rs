use aprs_parser::APRSData;
use aprs_parser::APRSMessage;
use aprs_parser::APRSPosition;
use aprs_parser::Angle;
use aprs_parser::Callsign;
use aprs_parser::Timestamp;

/// One angle unit is 1/1_142_778_000 degree.
fn close_to(a: Angle, degrees: f64) -> bool {
    (a.units as f64 / 1_142_778_000.0 - degrees).abs() < 1e-4
}

#[test]
fn message_parse() {
    let result = APRSMessage::from_str(
        r"ICA3D17F2>APRS,qAS,dl4mea:/074849h4821.61N\01224.49E^322/103/A=003054 !W09! id213D17F2 -039fpm +0.0rot 2.5dB 3e -0.0kHz gps1x1",
    )
    .unwrap();
    assert_eq!(result.from, Callsign::new("ICA3D17F2", None));
    assert_eq!(result.to, Callsign::new("APRS", None));
    assert_eq!(
        result.via,
        vec![Callsign::new("qAS", None), Callsign::new("dl4mea", None),]
    );

    match result.data {
        APRSData::Position(position) => {
            assert_eq!(position.timestamp, Some(Timestamp::HHMMSS(7, 48, 49)));
            assert!(close_to(position.latitude, 48.360166));
            assert!(close_to(position.longitude, 12.408166));
            assert_eq!(
                position.comment,
                "322/103/A=003054 !W09! id213D17F2 -039fpm +0.0rot 2.5dB 3e -0.0kHz gps1x1"
            );
        }
        _ => panic!("Unexpected data type"),
    }
}

#[test]
fn position_parse() {
    let result = APRSPosition::from_str(r"!4903.50N/07201.75W-").unwrap();
    assert_eq!(result.timestamp, None);
    assert!(close_to(result.latitude, 49.05833));
    assert!(close_to(result.longitude, -72.02916));
    assert_eq!(result.comment, "");
}

#[test]
fn parse_with_comment() {
    let result = APRSPosition::from_str(r"!4903.50N/07201.75W-Hello/A=001000").unwrap();
    assert_eq!(result.timestamp, None);
    assert!(close_to(result.latitude, 49.05833));
    assert!(close_to(result.longitude, -72.02916));
    assert_eq!(result.comment, "Hello/A=001000");
}

#[test]
fn parse_with_timestamp() {
    let result = APRSPosition::from_str(r"/074849h4821.61N\01224.49E^322/103/A=003054").unwrap();
    assert_eq!(result.timestamp, Some(Timestamp::HHMMSS(7, 48, 49)));
    assert!(close_to(result.latitude, 48.360166));
    assert!(close_to(result.longitude, 12.408166));
    assert_eq!(result.comment, "322/103/A=003054");
}
