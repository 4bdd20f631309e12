//! The symbol: a QR or Micro QR module matrix built by the `qrcode` crate.
use vstd::prelude::*;

use crate::policy::{version_in_range, version_width, Construction, SymbolVersion};
use crate::request::EcLevel;

verus! {

/// `qrcode::QrCode`, a built symbol, held opaquely.
#[verifier::external_type_specification]
#[verifier::external_body]
pub struct ExQrCode(qrcode::QrCode);

/// `qrcode::types::QrError`, the encoder's refusal, mapped to `EncodingError`.
#[verifier::external_type_specification]
#[verifier::external_body]
pub struct ExQrError(qrcode::types::QrError);

/// The modules of a built symbol, row by row, `true` for dark.
pub uninterp spec fn qr_modules(code: qrcode::QrCode) -> Seq<bool>;

/// The version at which a symbol was built.
pub uninterp spec fn qr_version(code: qrcode::QrCode) -> SymbolVersion;

/// The error-correction level at which a symbol was built.
pub uninterp spec fn qr_ec_level(code: qrcode::QrCode) -> EcLevel;

/// The modules that the encoder lays out for `data` at a fixed version and
/// level.
pub uninterp spec fn fixed_modules(data: Seq<u8>, version: SymbolVersion, ec_level: EcLevel) -> Seq<bool>;

/// The normal version that the encoder picks for `data` at a level: the
/// smallest that holds it.
pub uninterp spec fn auto_version(data: Seq<u8>, ec_level: EcLevel) -> SymbolVersion;

/// The modules that the encoder lays out for `data` at the version it picks.
pub uninterp spec fn auto_modules(data: Seq<u8>, ec_level: EcLevel) -> Seq<bool>;

/// The encoder builds a symbol for `data` at this fixed version and level.
pub uninterp spec fn fixed_accepts(data: Seq<u8>, version: SymbolVersion, ec_level: EcLevel) -> bool;

/// The encoder finds a normal version that holds `data` at this level.
pub uninterp spec fn auto_accepts(data: Seq<u8>, ec_level: EcLevel) -> bool;

/// The number of bits that the encoder's segment optimiser lays out for
/// `data` at a version, before the terminator; `None` where the data
/// cannot be laid out at that version.
pub uninterp spec fn data_bits(data: Seq<u8>, version: SymbolVersion) -> Option<nat>;

/// The data capacity in bits of a micro version at a level, as the
/// encoder's table gives it; `None` where the pair does not exist.
pub open spec fn micro_capacity(n: i16, e: EcLevel) -> Option<nat> {
    match (n, e) {
        (1, EcLevel::L) => Some(20),
        (2, EcLevel::L) => Some(40),
        (2, EcLevel::M) => Some(32),
        (3, EcLevel::L) => Some(84),
        (3, EcLevel::M) => Some(68),
        (4, EcLevel::L) => Some(128),
        (4, EcLevel::M) => Some(112),
        (4, EcLevel::Q) => Some(80),
        _ => None,
    }
}

/// The data that the encoder's terminator step cannot pad: after the
/// terminator the bits fall short of a capacity that is not a whole number
/// of bytes, yet already fill more bytes than the capacity's whole bytes.
/// The encoder's byte arithmetic underflows there, so such data is refused
/// before the encoder is called.
pub open spec fn terminator_overruns(bits: nat, version: SymbolVersion, ec_level: EcLevel) -> bool {
    match version {
        SymbolVersion::Micro(n) => match micro_capacity(n, ec_level) {
            Some(cap) => {
                let t = (n * 2 + 1) as nat;
                let l = if bits + t < cap {
                    bits + t
                } else {
                    cap
                };
                bits <= cap && l < cap && (l + 7) / 8 > cap / 8
            },
            None => false,
        },
        SymbolVersion::Normal(_) => false,
    }
}

/// What holds of every symbol that the encoder hands back: an existing
/// version, and one module for each cell of its square.
pub open spec fn code_wf(code: qrcode::QrCode) -> bool {
    view_wf(code_view(code))
}

/// What the library knows of a built symbol.
pub open spec fn code_view(code: qrcode::QrCode) -> SymbolView {
    SymbolView { version: qr_version(code), ec_level: qr_ec_level(code), modules: qr_modules(code) }
}

pub open spec fn view_wf(s: SymbolView) -> bool {
    &&& version_in_range(s.version)
    &&& s.modules.len() == version_width(s.version) * version_width(s.version)
}

/// Relies on `QrCode::with_version`: on success the symbol has the version
/// and level it was asked for, and a module for each cell. Its terminator
/// step panics on the data that `terminator_overruns` describes.
#[verifier::external_body]
fn qr_with_version(data: &[u8], version: SymbolVersion, ec_level: EcLevel) -> (r: Result<
    qrcode::QrCode,
    qrcode::types::QrError,
>)
    requires
        version_in_range(version),
        data_bits(data@, version) is Some,
        !terminator_overruns(data_bits(data@, version)->0, version, ec_level),
    ensures
        r is Ok == fixed_accepts(data@, version, ec_level),
        r is Ok ==> code_wf(r->Ok_0) && code_view(r->Ok_0) == (SymbolView {
            version,
            ec_level,
            modules: fixed_modules(data@, version, ec_level),
        }),
{
    let v = match version {
        SymbolVersion::Normal(n) => qrcode::Version::Normal(n),
        SymbolVersion::Micro(n) => qrcode::Version::Micro(n),
    };
    let e = match ec_level {
        EcLevel::L => qrcode::EcLevel::L,
        EcLevel::M => qrcode::EcLevel::M,
        EcLevel::Q => qrcode::EcLevel::Q,
        EcLevel::H => qrcode::EcLevel::H,
    };
    qrcode::QrCode::with_version(data, v, e)
}

/// Relies on `QrCode::with_error_correction_level`: on success the symbol
/// has a normal version (the smallest that holds the data) and the level
/// asked for.
#[verifier::external_body]
fn qr_with_ec_level(data: &[u8], ec_level: EcLevel) -> (r: Result<
    qrcode::QrCode,
    qrcode::types::QrError,
>)
    ensures
        r is Ok == auto_accepts(data@, ec_level),
        r is Ok ==> code_wf(r->Ok_0) && qr_version(r->Ok_0) is Normal && code_view(r->Ok_0) == (
        SymbolView {
            version: auto_version(data@, ec_level),
            ec_level,
            modules: auto_modules(data@, ec_level),
        }),
{
    let e = match ec_level {
        EcLevel::L => qrcode::EcLevel::L,
        EcLevel::M => qrcode::EcLevel::M,
        EcLevel::Q => qrcode::EcLevel::Q,
        EcLevel::H => qrcode::EcLevel::H,
    };
    qrcode::QrCode::with_error_correction_level(data, e)
}

/// Relies on `QrCode::new`, which is `QrCode::with_error_correction_level`
/// at the encoder's default level, `M`.
#[verifier::external_body]
fn qr_new(data: &[u8]) -> (r: Result<qrcode::QrCode, qrcode::types::QrError>)
    ensures
        r is Ok == auto_accepts(data@, EcLevel::M),
        r is Ok ==> code_wf(r->Ok_0) && qr_version(r->Ok_0) is Normal && code_view(r->Ok_0) == (
        SymbolView {
            version: auto_version(data@, EcLevel::M),
            ec_level: EcLevel::M,
            modules: auto_modules(data@, EcLevel::M),
        }),
{
    qrcode::QrCode::new(data)
}

/// Relies on `Bits::new`, `Bits::push_optimal_data` and `Bits::len`: the
/// first steps of `QrCode::with_version`, which lay the data out before
/// the terminator.
#[verifier::external_body]
fn qr_data_bits(data: &[u8], version: SymbolVersion) -> (r: Option<usize>)
    requires
        version_in_range(version),
    ensures
        match r {
            Some(n) => data_bits(data@, version) == Some(n as nat),
            None => data_bits(data@, version) is None,
        },
{
    let mut bits = qrcode::bits::Bits::new(match version {
        SymbolVersion::Normal(n) => qrcode::Version::Normal(n),
        SymbolVersion::Micro(n) => qrcode::Version::Micro(n),
    });
    match bits.push_optimal_data(data) {
        Ok(()) => Some(bits.len()),
        Err(_) => None,
    }
}

/// Relies on `QrCode::version`.
#[verifier::external_body]
fn qr_version_of(code: &qrcode::QrCode) -> (r: SymbolVersion)
    ensures
        r == qr_version(*code),
{
    match code.version() {
        qrcode::Version::Normal(n) => SymbolVersion::Normal(n),
        qrcode::Version::Micro(n) => SymbolVersion::Micro(n),
    }
}

/// Relies on `QrCode::error_correction_level`.
#[verifier::external_body]
fn qr_ec_level_of(code: &qrcode::QrCode) -> (r: EcLevel)
    ensures
        r == qr_ec_level(*code),
{
    match code.error_correction_level() {
        qrcode::EcLevel::L => EcLevel::L,
        qrcode::EcLevel::M => EcLevel::M,
        qrcode::EcLevel::Q => EcLevel::Q,
        qrcode::EcLevel::H => EcLevel::H,
    }
}

/// Relies on `QrCode::to_colors`: the modules row by row, dark as `true`.
#[verifier::external_body]
fn qr_modules_of(code: &qrcode::QrCode) -> (r: Vec<bool>)
    ensures
        r@ == qr_modules(*code),
{
    code.to_colors().into_iter().map(|c| c == qrcode::Color::Dark).collect()
}

/// The encoder refused the payload at the chosen version and level.
#[derive(Debug, Clone, Copy, PartialEq, Eq, Structural)]
pub struct EncodingError;

/// A built symbol. Nothing but the encoder makes one.
pub struct Symbol {
    pub code: qrcode::QrCode,
}

pub struct SymbolView {
    pub version: SymbolVersion,
    pub ec_level: EcLevel,
    pub modules: Seq<bool>,
}

impl View for Symbol {
    type V = SymbolView;

    open spec fn view(&self) -> SymbolView {
        code_view(self.code)
    }
}

/// The symbol that `plan` builds for `data`, when the encoder accepts it:
/// at the fixed version and level, or at the normal version the encoder
/// picks for the chosen level (`M` where none was chosen).
pub open spec fn symbol_for(plan: Construction, data: Seq<u8>) -> SymbolView {
    match plan {
        Construction::Fixed { version, ec_level } => SymbolView {
            version,
            ec_level,
            modules: fixed_modules(data, version, ec_level),
        },
        Construction::Auto { ec_level } => SymbolView {
            version: auto_version(data, ec_level),
            ec_level,
            modules: auto_modules(data, ec_level),
        },
        Construction::AutoDefault => SymbolView {
            version: auto_version(data, EcLevel::M),
            ec_level: EcLevel::M,
            modules: auto_modules(data, EcLevel::M),
        },
    }
}

/// The encoder builds a symbol for `data` as `plan` says. A fixed version
/// must exist, the data must lay out at it, and it must not be data that
/// the terminator step cannot pad.
pub open spec fn accepts(plan: Construction, data: Seq<u8>) -> bool {
    match plan {
        Construction::Fixed { version, ec_level } => {
            &&& version_in_range(version)
            &&& data_bits(data, version) is Some
            &&& !terminator_overruns(data_bits(data, version)->0, version, ec_level)
            &&& fixed_accepts(data, version, ec_level)
        },
        Construction::Auto { ec_level } => auto_accepts(data, ec_level),
        Construction::AutoDefault => auto_accepts(data, EcLevel::M),
    }
}

/// `terminator_overruns`, computed.
fn overruns(bits: usize, version: SymbolVersion, ec_level: EcLevel) -> (r: bool)
    requires
        version_in_range(version),
    ensures
        r == terminator_overruns(bits as nat, version, ec_level),
{
    match version {
        SymbolVersion::Micro(n) => {
            let cap: usize = match (n, ec_level) {
                (1, EcLevel::L) => 20,
                (2, EcLevel::L) => 40,
                (2, EcLevel::M) => 32,
                (3, EcLevel::L) => 84,
                (3, EcLevel::M) => 68,
                (4, EcLevel::L) => 128,
                (4, EcLevel::M) => 112,
                (4, EcLevel::Q) => 80,
                _ => return false,
            };
            if bits > cap {
                return false;
            }
            let t = (n as usize) * 2 + 1;
            let l = if t < cap - bits {
                bits + t
            } else {
                cap
            };
            l < cap && (l + 7) / 8 > cap / 8
        },
        SymbolVersion::Normal(_) => false,
    }
}

impl Symbol {
    pub open spec fn wf(&self) -> bool {
        view_wf(self@)
    }

    /// Modules across one side, quiet zone not counted.
    pub open spec fn side(&self) -> int {
        version_width(self@.version)
    }

    /// Builds the symbol for `input` as `plan` says; it is refused exactly
    /// where the encoder does not build it (see `accepts`).
    pub fn build(input: &[u8], plan: Construction) -> (r: Result<Symbol, EncodingError>)
        ensures
            r is Ok == accepts(plan, input@),
            r is Ok ==> r->Ok_0.wf() && r->Ok_0@ == symbol_for(plan, input@),
            r is Ok && !(plan is Fixed) ==> r->Ok_0@.version is Normal,
    {
        let built = match plan {
            Construction::Fixed { version, ec_level } => {
                let ok = match version {
                    SymbolVersion::Normal(n) => 1 <= n && n <= 40,
                    SymbolVersion::Micro(n) => 1 <= n && n <= 4,
                };
                if !ok {
                    return Err(EncodingError);
                }
                match qr_data_bits(input, version) {
                    None => return Err(EncodingError),
                    Some(bits) => if overruns(bits, version, ec_level) {
                        return Err(EncodingError);
                    },
                }
                qr_with_version(input, version, ec_level)
            },
            Construction::Auto { ec_level } => qr_with_ec_level(input, ec_level),
            Construction::AutoDefault => qr_new(input),
        };
        match built {
            Ok(code) => Ok(Symbol { code }),
            Err(_) => Err(EncodingError),
        }
    }

    /// The version the symbol was built at.
    pub fn version(&self) -> (r: SymbolVersion)
        ensures
            r == self@.version,
    {
        qr_version_of(&self.code)
    }

    /// The error-correction level the symbol was built at.
    pub fn ec_level(&self) -> (r: EcLevel)
        ensures
            r == self@.ec_level,
    {
        qr_ec_level_of(&self.code)
    }

    /// The modules row by row, `true` for dark.
    pub fn modules(&self) -> (r: Vec<bool>)
        ensures
            r@ == self@.modules,
    {
        qr_modules_of(&self.code)
    }
}

} // verus!
