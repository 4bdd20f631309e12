use qrcode_show::{Construction, EcLevel, EncodingError, Generator, Symbol, SymbolVersion, VersionType};

fn request(t: VersionType, n: Option<i16>, e: Option<EcLevel>) -> Generator {
    Generator { version_type: t, version_number: n, error_correction_level: e, ..Generator::default() }
}

fn built(g: &Generator, data: &[u8]) -> Symbol {
    Symbol::build(data, g.construction()).ok().unwrap()
}

#[test]
fn micro_version_with_level() {
    let g = request(VersionType::MicroVersion, Some(2), Some(EcLevel::M));
    assert_eq!(
        g.construction(),
        Construction::Fixed { version: SymbolVersion::Micro(2), ec_level: EcLevel::M }
    );
    let s = built(&g, b"HELLO");
    assert_eq!(s.version(), SymbolVersion::Micro(2));
    assert_eq!(s.ec_level(), EcLevel::M);
    assert_eq!(s.modules().len(), 13 * 13);
}

#[test]
fn micro_version_without_level_uses_l() {
    let g = request(VersionType::MicroVersion, Some(3), None);
    assert_eq!(
        g.construction(),
        Construction::Fixed { version: SymbolVersion::Micro(3), ec_level: EcLevel::L }
    );
    let s = built(&g, b"HELLO");
    assert_eq!(s.version(), SymbolVersion::Micro(3));
    assert_eq!(s.ec_level(), EcLevel::L);
    assert_eq!(s.modules().len(), 15 * 15);
}

#[test]
fn normal_version_with_level() {
    let g = request(VersionType::NormalVersion, Some(5), Some(EcLevel::H));
    assert_eq!(
        g.construction(),
        Construction::Fixed { version: SymbolVersion::Normal(5), ec_level: EcLevel::H }
    );
    let s = built(&g, b"HELLO");
    assert_eq!(s.version(), SymbolVersion::Normal(5));
    assert_eq!(s.ec_level(), EcLevel::H);
    assert_eq!(s.modules().len(), 37 * 37);
}

#[test]
fn normal_version_without_level_uses_l() {
    let g = request(VersionType::NormalVersion, Some(1), None);
    assert_eq!(
        g.construction(),
        Construction::Fixed { version: SymbolVersion::Normal(1), ec_level: EcLevel::L }
    );
    let s = built(&g, b"HELLO");
    assert_eq!(s.version(), SymbolVersion::Normal(1));
    assert_eq!(s.ec_level(), EcLevel::L);
}

#[test]
fn level_without_version_picks_size() {
    for t in [VersionType::MicroVersion, VersionType::NormalVersion] {
        let g = request(t, None, Some(EcLevel::Q));
        assert_eq!(g.construction(), Construction::Auto { ec_level: EcLevel::Q });
        let s = built(&g, b"HELLO");
        assert_eq!(s.version(), SymbolVersion::Normal(1));
        assert_eq!(s.ec_level(), EcLevel::Q);
    }
}

#[test]
fn nothing_given_picks_size_at_default_level() {
    for t in [VersionType::MicroVersion, VersionType::NormalVersion] {
        let g = request(t, None, None);
        assert_eq!(g.construction(), Construction::AutoDefault);
        let s = built(&g, b"HELLO");
        assert_eq!(s.version(), SymbolVersion::Normal(1));
        assert_eq!(s.ec_level(), EcLevel::M);
    }
    let long = vec![b'x'; 200];
    let s = built(&request(VersionType::MicroVersion, None, None), &long);
    assert!(matches!(s.version(), SymbolVersion::Normal(n) if n > 1));
}

#[test]
fn versions_that_do_not_exist_are_refused() {
    for v in [
        SymbolVersion::Micro(0),
        SymbolVersion::Micro(5),
        SymbolVersion::Micro(-1),
        SymbolVersion::Normal(0),
        SymbolVersion::Normal(41),
        SymbolVersion::Normal(i16::MIN),
    ] {
        let plan = Construction::Fixed { version: v, ec_level: EcLevel::L };
        assert_eq!(Symbol::build(b"1", plan).err(), Some(EncodingError));
    }
}

#[test]
fn encoder_refusals_are_encoding_errors() {
    let too_long = vec![b'a'; 100];
    let plan = Construction::Fixed { version: SymbolVersion::Micro(1), ec_level: EcLevel::L };
    assert_eq!(Symbol::build(&too_long, plan).err(), Some(EncodingError));
    let plan = Construction::Fixed { version: SymbolVersion::Micro(1), ec_level: EcLevel::H };
    assert_eq!(Symbol::build(b"1", plan).err(), Some(EncodingError));
    let huge = vec![b'a'; 4000];
    assert_eq!(Symbol::build(&huge, Construction::AutoDefault).err(), Some(EncodingError));
}

#[test]
fn micro_terminator_overrun_is_refused() {
    // 20 digits take 74 bits at M3: with the terminator 81 of 84, one byte
    // more than the capacity's whole bytes.
    let plan = Construction::Fixed { version: SymbolVersion::Micro(3), ec_level: EcLevel::L };
    assert_eq!(Symbol::build(b"01234567890123456789", plan).err(), Some(EncodingError));
    let g = request(VersionType::MicroVersion, Some(3), Some(EcLevel::L));
    assert_eq!(g.generate(b"01234567890123456789").err(), Some(qrcode_show::GenerateError::Encoding));
    // Shorter and longer digit runs at the same version still build or are refused normally.
    assert!(Symbol::build(b"0123456789", plan).is_ok());
    assert!(Symbol::build(b"0123456789012345678", plan).is_ok());
    assert_eq!(Symbol::build(b"012345678901234567890123", plan).err(), Some(EncodingError));
}

#[test]
fn every_micro_payload_length_builds_or_is_refused() {
    for v in 1..=4i16 {
        for e in [EcLevel::L, EcLevel::M, EcLevel::Q, EcLevel::H] {
            let plan = Construction::Fixed { version: SymbolVersion::Micro(v), ec_level: e };
            for len in 0..40usize {
                let digits: Vec<u8> = (0..len).map(|i| b'0' + (i % 10) as u8).collect();
                let letters: Vec<u8> = (0..len).map(|i| b'A' + (i % 26) as u8).collect();
                let bytes: Vec<u8> = (0..len).map(|i| b'a' + (i % 26) as u8).collect();
                for data in [digits, letters, bytes] {
                    if let Ok(s) = Symbol::build(&data, plan) {
                        assert_eq!(s.version(), SymbolVersion::Micro(v));
                        assert_eq!(s.ec_level(), e);
                    }
                }
            }
        }
    }
}
