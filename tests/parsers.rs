use makair_telemetry::parsers::{parse_telemetry_message, protocol_version, MAXIMUM_SUPPORTED_VERSION};
use makair_telemetry::structures::{ParseResult, TelemetryError, TelemetryErrorKind};

fn flat(v: &[&[u8]]) -> Vec<u8> {
    v.iter().flat_map(|a| a.iter()).copied().collect()
}

#[test]
fn unsuported_protocol_version() {
    let version = MAXIMUM_SUPPORTED_VERSION + 1;
    let input = &flat(&[b"\x03\x0C", b"B:", &[version]]);
    let expected = TelemetryError(
        input.len(),
        TelemetryErrorKind::UnsupportedProtocolVersion {
            maximum_supported: MAXIMUM_SUPPORTED_VERSION,
            found: version,
        },
    );
    assert_eq!(parse_telemetry_message(input), ParseResult::Failed(expected));
}

#[test]
fn protocol_version_probe() {
    assert_eq!(protocol_version(b"\x03\x0CZ:\x07"), ParseResult::Done(7, 5));
    assert_eq!(protocol_version(b"\x03\x0CZ:"), ParseResult::Incomplete);
    assert_eq!(
        protocol_version(b"\x03\x0DZ:\x07"),
        ParseResult::Failed(TelemetryError(1, TelemetryErrorKind::ParserError))
    );
}
