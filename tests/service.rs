use qrcode_show::{
    txt_to_html, ConfigValues, Field, FieldError, Format, Generator, Rejection, Reply, Service,
};

const HELP: &str = "Make a code: curl https://qrcode.show -d hello\nor visit qrqr.show for more ";

fn accept(media: &str) -> ConfigValues {
    ConfigValues { format: Some(media.to_string()), ..ConfigValues::default() }
}

fn service() -> Service {
    Service::new(HELP.to_string())
}

#[test]
fn service_keeps_help_and_its_markup() {
    let s = service();
    assert_eq!(s.help_text, HELP);
    assert_eq!(s.help_html, txt_to_html(HELP));
    assert!(s.help_html.contains("<a href=\"https://qrcode.show\">https://qrcode.show</a>"));
}

#[test]
fn empty_body_is_refused_before_resolution() {
    let s = service();
    let bad = ConfigValues { error_correction_level: Some("Z".to_string()), ..ConfigValues::default() };
    assert_eq!(s.respond_to_write(&bad, b"").err(), Some(Rejection::EmptyPayload));
    assert_eq!(s.respond_to_write(&ConfigValues::default(), b"").err(), Some(Rejection::EmptyPayload));
}

#[test]
fn write_with_bad_level_is_a_field_rejection() {
    let s = service();
    let bad = ConfigValues {
        error_correction_level: Some("Z".to_string()),
        version_number: Some("2".to_string()),
        ..ConfigValues::default()
    };
    assert_eq!(
        s.respond_to_write(&bad, b"HELLO").err(),
        Some(Rejection::Field(FieldError { field: Field::ErrorCorrectionLevel }))
    );
}

#[test]
fn write_returns_the_artifact() {
    let s = service();
    match s.respond_to_write(&ConfigValues::default(), b"HELLO").unwrap() {
        Reply::Artifact(a) => {
            assert_eq!(a.content_type, "application/octet-stream");
            assert_eq!(a.bytes, Generator::default().generate(b"HELLO").unwrap());
        }
        other => panic!("unexpected reply {:?}", other),
    }
    match s.respond_to_write(&accept("image/png"), b"HELLO").unwrap() {
        Reply::Artifact(a) => {
            assert_eq!(a.content_type, "image/png");
            assert_eq!(&a.bytes[..4], &[0x89, b'P', b'N', b'G']);
        }
        other => panic!("unexpected reply {:?}", other),
    }
}

#[test]
fn write_html_fills_the_page() {
    let s = service();
    match s.respond_to_write(&accept("text/html"), b"HELLO").unwrap() {
        Reply::Page { content, help } => {
            let g = Generator { format: Format::Svg, ..Generator::default() };
            assert_eq!(content, g.generate(b"HELLO").unwrap());
            assert_eq!(help, txt_to_html(HELP));
        }
        other => panic!("unexpected reply {:?}", other),
    }
}

#[test]
fn write_reports_encoder_refusal() {
    let s = service();
    let v = ConfigValues { version_number: Some("1".to_string()), ..ConfigValues::default() };
    assert_eq!(s.respond_to_write(&v, &[b'z'; 64]).err(), Some(Rejection::Encoding));
    let v = ConfigValues { min_width: Some("4294967295".to_string()), format: Some("image/svg+xml".to_string()), ..ConfigValues::default() };
    assert_eq!(s.respond_to_write(&v, b"HELLO").err(), Some(Rejection::Oversized));
}

#[test]
fn read_without_path_as_html_gives_empty_page() {
    let s = service();
    match s.respond_to_read(&accept("text/html"), "", None).unwrap() {
        Reply::Page { content, help } => {
            assert!(content.is_empty());
            assert_eq!(help, txt_to_html(HELP));
        }
        other => panic!("unexpected reply {:?}", other),
    }
}

#[test]
fn read_without_path_as_svg_is_refused() {
    let s = service();
    assert_eq!(s.respond_to_read(&accept("image/svg+xml"), "", None).err(), Some(Rejection::NoPayloadImage));
    assert_eq!(s.respond_to_read(&accept("image/png"), "", Some("a=1")).err(), Some(Rejection::NoPayloadImage));
    assert_eq!(s.respond_to_read(&accept("image/jpeg"), "", None).err(), Some(Rejection::NoPayloadImage));
}

#[test]
fn read_without_path_as_text_gives_help() {
    let s = service();
    for v in [ConfigValues::default(), accept("text/plain")] {
        match s.respond_to_read(&v, "", None).unwrap() {
            Reply::Artifact(a) => {
                assert_eq!(a.content_type, "text/plain");
                assert_eq!(a.bytes, HELP.as_bytes());
            }
            other => panic!("unexpected reply {:?}", other),
        }
    }
}

#[test]
fn read_encodes_path_and_query() {
    let s = service();
    match s.respond_to_read(&accept("text/plain"), "hello", Some("a=1")).unwrap() {
        Reply::Artifact(a) => {
            assert_eq!(a.content_type, "text/plain");
            let g = Generator { format: Format::PlainText, ..Generator::default() };
            assert_eq!(a.bytes, g.generate(b"hello?a=1").unwrap());
            assert_ne!(a.bytes, g.generate(b"hello").unwrap());
        }
        other => panic!("unexpected reply {:?}", other),
    }
    match s.respond_to_read(&accept("image/svg+xml"), "hello", None).unwrap() {
        Reply::Artifact(a) => {
            assert_eq!(a.content_type, "image/svg+xml");
            let g = Generator { format: Format::Svg, ..Generator::default() };
            assert_eq!(a.bytes, g.generate(b"hello").unwrap());
        }
        other => panic!("unexpected reply {:?}", other),
    }
}

#[test]
fn read_resolves_before_looking_at_the_path() {
    let s = service();
    let bad = ConfigValues { min_height: Some("tall".to_string()), ..accept("text/html") };
    assert_eq!(
        s.respond_to_read(&bad, "", None).err(),
        Some(Rejection::Field(FieldError { field: Field::MinHeight }))
    );
}
