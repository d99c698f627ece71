use cni_result::{CNIError, PluginError, PluginErrorCode};

#[test]
fn numeric_round_trip_over_all_ranges() {
    for v in [0u64, 1, 2, 3, 4, 5, 6, 7, 8, 9, 10, 11, 12, 50, 99, 100, 101, 150, u64::MAX] {
        assert_eq!(u64::from(PluginErrorCode::from(v)), v);
    }
}

#[test]
fn known_codes_map_to_named_variants() {
    let expected = [
        (1u64, PluginErrorCode::IncompatibleCniVersion, "IncompatibleCniVersion"),
        (2, PluginErrorCode::UnsupportedField, "UnsupportedField"),
        (3, PluginErrorCode::UnknownContainer, "UnknownContainer"),
        (4, PluginErrorCode::InvalidEnvironmentVariables, "InvalidEnvironmentVariables"),
        (5, PluginErrorCode::IoFailure, "IoFailure"),
        (6, PluginErrorCode::DecodingFailure, "DecodingFailure"),
        (7, PluginErrorCode::InvalidNetworkConfig, "InvalidNetworkConfig"),
        (11, PluginErrorCode::TryAgainLater, "TryAgainLater"),
    ];
    for (v, code, name) in expected {
        let c = PluginErrorCode::from(v);
        assert_eq!(c, code);
        assert_eq!(c.to_display_string(), name);
    }
}

#[test]
fn unnamed_reserved_code() {
    let c = PluginErrorCode::from(50);
    assert_eq!(c, PluginErrorCode::UnknownReserved(50));
    assert_eq!(c.to_display_string(), "UnknownReserved(50)");
    assert_eq!(PluginErrorCode::from(0), PluginErrorCode::UnknownReserved(0));
    assert_eq!(PluginErrorCode::from(8).to_display_string(), "UnknownReserved(8)");
    assert_eq!(PluginErrorCode::from(99), PluginErrorCode::UnknownReserved(99));
}

#[test]
fn custom_code() {
    let c = PluginErrorCode::from(150);
    assert_eq!(c, PluginErrorCode::Custom(150));
    assert_eq!(c.to_display_string(), "Custom(150)");
    assert_eq!(PluginErrorCode::from(100), PluginErrorCode::Custom(100));
    assert_eq!(
        PluginErrorCode::from(u64::MAX).to_display_string(),
        "Custom(18446744073709551615)"
    );
}

#[test]
fn plugin_error_text_without_details() {
    let e = PluginError::new(
        "1.0.0".to_string(),
        PluginErrorCode::from(7),
        "bad config".to_string(),
        None,
    );
    assert_eq!(e.to_display_string(), "InvalidNetworkConfig, bad config");
    assert_eq!(e.cni_version, "1.0.0");
    assert!(e.details.is_none());
}

#[test]
fn plugin_error_text_with_details() {
    let e = PluginError::new(
        "1.1.0".to_string(),
        PluginErrorCode::from(150),
        "failed".to_string(),
        Some("no route".to_string()),
    );
    assert_eq!(e.to_display_string(), "Custom(150), failed: no route");
}

#[test]
fn io_failure_is_wrapped() {
    let io = std::io::Error::new(std::io::ErrorKind::BrokenPipe, "pipe closed");
    let e = CNIError::from(io);
    match e {
        CNIError::Io(inner) => assert_eq!(inner.kind(), std::io::ErrorKind::BrokenPipe),
        other => panic!("unexpected {other:?}"),
    }
}

#[test]
fn append_decimal_renders_digits() {
    let mut s = String::from("n=");
    cni_result::decimal::append_decimal(&mut s, 0);
    cni_result::decimal::append_decimal(&mut s, 1207);
    assert_eq!(s, "n=01207");
}
