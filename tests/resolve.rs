use qrcode_show::{ConfigValues, EcLevel, Field, FieldError, Format, Generator, VersionType};

fn values() -> ConfigValues {
    ConfigValues::default()
}

fn some(s: &str) -> Option<String> {
    Some(s.to_string())
}

#[test]
fn format_table_ignores_ascii_case() {
    assert_eq!(Format::from_media_type("text/html"), Format::Html);
    assert_eq!(Format::from_media_type("TEXT/HTML"), Format::Html);
    assert_eq!(Format::from_media_type("Image/SVG+xml"), Format::Svg);
    assert_eq!(Format::from_media_type("text/Plain"), Format::PlainText);
    assert_eq!(Format::from_media_type("IMAGE/PNG"), Format::Png);
    assert_eq!(Format::from_media_type("image/jpeg"), Format::Jpeg);
    assert_eq!(Format::from("image/JPEG"), Format::Jpeg);
}

#[test]
fn format_outside_table_is_unicode() {
    for s in ["", "text/htm", "text/html ", "*/*", "application/json", "image/gif", "text/\u{212A}"] {
        assert_eq!(Format::from_media_type(s), Format::Unicode);
    }
    assert_eq!(Format::default(), Format::Unicode);
}

#[test]
fn version_type_names() {
    assert_eq!(VersionType::from_name("n"), VersionType::NormalVersion);
    assert_eq!(VersionType::from_name("normal"), VersionType::NormalVersion);
    assert_eq!(VersionType::from_name("m"), VersionType::MicroVersion);
    assert_eq!(VersionType::from_name("micro"), VersionType::MicroVersion);
    assert_eq!(VersionType::from_name("N"), VersionType::MicroVersion);
    assert_eq!(VersionType::from_name("big"), VersionType::MicroVersion);
    assert_eq!(VersionType::from("normal"), VersionType::NormalVersion);
    assert_eq!(VersionType::default(), VersionType::MicroVersion);
}

#[test]
fn ec_level_codes() {
    assert_eq!(EcLevel::from_code("L"), Some(EcLevel::L));
    assert_eq!(EcLevel::from_code("M"), Some(EcLevel::M));
    assert_eq!(EcLevel::from_code("Q"), Some(EcLevel::Q));
    assert_eq!(EcLevel::from_code("H"), Some(EcLevel::H));
    assert_eq!(EcLevel::from_code("l"), None);
    assert_eq!(EcLevel::from_code("LL"), None);
    assert_eq!(EcLevel::from_code(""), None);
}

#[test]
fn no_values_resolve_to_defaults() {
    let g = Generator::resolve(&values()).unwrap();
    assert_eq!(g.format, Format::Unicode);
    assert_eq!(g.min_width, None);
    assert_eq!(g.min_height, None);
    assert_eq!(g.dark_color, None);
    assert_eq!(g.light_color, None);
    assert_eq!(g.version_type, VersionType::MicroVersion);
    assert_eq!(g.version_number, None);
    assert_eq!(g.error_correction_level, None);
    assert_eq!(g.quiet_zone, None);
}

#[test]
fn all_values_resolve() {
    let v = ConfigValues {
        format: some("image/PNG"),
        min_width: some("300"),
        min_height: some("+120"),
        dark_color: some("f00"),
        light_color: some("0f0f0f"),
        version_type: some("normal"),
        version_number: some("-3"),
        error_correction_level: some("Q"),
    };
    let g = Generator::resolve(&v).unwrap();
    assert_eq!(g.format, Format::Png);
    assert_eq!(g.min_width, Some(300));
    assert_eq!(g.min_height, Some(120));
    assert_eq!(g.dark_color.as_deref(), Some("#f00"));
    assert_eq!(g.light_color.as_deref(), Some("#0f0f0f"));
    assert_eq!(g.version_type, VersionType::NormalVersion);
    assert_eq!(g.version_number, Some(-3));
    assert_eq!(g.error_correction_level, Some(EcLevel::Q));
    assert_eq!(g.quiet_zone, None);
}

#[test]
fn color_is_prefixed_without_checks() {
    let v = ConfigValues { dark_color: some("not a color"), light_color: some(""), ..values() };
    let g = Generator::resolve(&v).unwrap();
    assert_eq!(g.dark_color.as_deref(), Some("#not a color"));
    assert_eq!(g.light_color.as_deref(), Some("#"));
}

#[test]
fn width_limits() {
    let ok = ConfigValues { min_width: some("4294967295"), ..values() };
    assert_eq!(Generator::resolve(&ok).unwrap().min_width, Some(u32::MAX));
    for bad in ["4294967296", "-1", "", "+", "12a", " 12", "1.5"] {
        let v = ConfigValues { min_width: some(bad), ..values() };
        assert_eq!(Generator::resolve(&v).unwrap_err(), FieldError { field: Field::MinWidth });
    }
    let v = ConfigValues { min_height: some("wide"), ..values() };
    assert_eq!(Generator::resolve(&v).unwrap_err(), FieldError { field: Field::MinHeight });
}

#[test]
fn version_number_limits() {
    for (s, n) in [("-32768", -32768i16), ("32767", 32767), ("+7", 7), ("0", 0), ("-0", 0)] {
        let v = ConfigValues { version_number: some(s), ..values() };
        assert_eq!(Generator::resolve(&v).unwrap().version_number, Some(n));
    }
    for bad in ["32768", "-32769", "-", "", "two", "--1"] {
        let v = ConfigValues { version_number: some(bad), ..values() };
        assert_eq!(Generator::resolve(&v).unwrap_err(), FieldError { field: Field::VersionNumber });
    }
}

#[test]
fn invalid_level_is_a_field_error() {
    let v = ConfigValues { error_correction_level: some("Z"), ..values() };
    let e = Generator::resolve(&v).unwrap_err();
    assert_eq!(e, FieldError { field: Field::ErrorCorrectionLevel });
    assert_eq!(e.field.name(), "error_correction_level");
}

#[test]
fn explicit_version_with_invalid_level_fails_resolution() {
    let v = ConfigValues {
        version_number: some("2"),
        version_type: some("m"),
        error_correction_level: some("Z"),
        ..values()
    };
    assert_eq!(Generator::resolve(&v).unwrap_err(), FieldError { field: Field::ErrorCorrectionLevel });
}

#[test]
fn first_bad_field_is_reported() {
    let v = ConfigValues {
        min_width: some("x"),
        min_height: some("y"),
        version_number: some("z"),
        error_correction_level: some("Z"),
        ..values()
    };
    assert_eq!(Generator::resolve(&v).unwrap_err().field, Field::MinWidth);
    let v = ConfigValues { min_width: None, ..v };
    assert_eq!(Generator::resolve(&v).unwrap_err().field, Field::MinHeight);
    let v = ConfigValues { min_height: None, ..v };
    assert_eq!(Generator::resolve(&v).unwrap_err().field, Field::VersionNumber);
    assert_eq!(Field::MinWidth.name(), "min_width");
    assert_eq!(Field::MinHeight.name(), "min_height");
    assert_eq!(Field::VersionNumber.name(), "version_number");
}

#[test]
fn resolving_twice_gives_identical_requests() {
    let v = ConfigValues {
        format: some("text/html"),
        min_width: some("64"),
        dark_color: some("123"),
        version_type: some("n"),
        version_number: some("4"),
        error_correction_level: some("H"),
        ..values()
    };
    let a = Generator::resolve(&v).unwrap();
    let b = Generator::resolve(&v).unwrap();
    assert_eq!(format!("{:?}", a), format!("{:?}", b));
    assert_eq!(a.format, b.format);
    assert_eq!(a.min_width, b.min_width);
    assert_eq!(a.dark_color, b.dark_color);
    assert_eq!(a.version_number, b.version_number);
    assert_eq!(a.error_correction_level, b.error_correction_level);
}
