//! The generation request and its resolution from named configuration
//! strings.
use vstd::prelude::*;

use crate::text::{eq_ignore_ascii_case, fold_ascii, parse_i16, parse_u32, str_eq};
use crate::text::{parse_i16_spec, parse_u32_spec};

verus! {

/// The encoding in which a symbol is rendered.
#[derive(Debug, Clone, Copy, PartialEq, Eq, Structural)]
pub enum Format {
    Svg,
    Html,
    Unicode,
    PlainText,
    Png,
    Jpeg,
}

/// The format that a media-type string selects: an exact match, ignoring
/// ASCII case, against the fixed table; anything else selects `Unicode`.
pub open spec fn format_of(s: Seq<char>) -> Format {
    let f = fold_ascii(s);
    if f == "text/html"@ {
        Format::Html
    } else if f == "image/svg+xml"@ {
        Format::Svg
    } else if f == "text/plain"@ {
        Format::PlainText
    } else if f == "image/png"@ {
        Format::Png
    } else if f == "image/jpeg"@ {
        Format::Jpeg
    } else {
        Format::Unicode
    }
}

/// Every character of the literal is already lower case, so folding keeps it.
proof fn lemma_folded_literals()
    ensures
        fold_ascii("text/html"@) == "text/html"@,
        fold_ascii("image/svg+xml"@) == "image/svg+xml"@,
        fold_ascii("text/plain"@) == "text/plain"@,
        fold_ascii("image/png"@) == "image/png"@,
        fold_ascii("image/jpeg"@) == "image/jpeg"@,
{
    reveal_strlit("text/html");
    reveal_strlit("image/svg+xml");
    reveal_strlit("text/plain");
    reveal_strlit("image/png");
    reveal_strlit("image/jpeg");
    assert(fold_ascii("text/html"@) =~= "text/html"@);
    assert(fold_ascii("image/svg+xml"@) =~= "image/svg+xml"@);
    assert(fold_ascii("text/plain"@) =~= "text/plain"@);
    assert(fold_ascii("image/png"@) =~= "image/png"@);
    assert(fold_ascii("image/jpeg"@) =~= "image/jpeg"@);
}

impl Format {
    /// Selects the format named by a media-type string (see `format_of`).
    pub fn from_media_type(headerval: &str) -> (r: Format)
        ensures
            r == format_of(headerval@),
    {
        proof {
            lemma_folded_literals();
        }
        if eq_ignore_ascii_case(headerval, "text/html") {
            Format::Html
        } else if eq_ignore_ascii_case(headerval, "image/svg+xml") {
            Format::Svg
        } else if eq_ignore_ascii_case(headerval, "text/plain") {
            Format::PlainText
        } else if eq_ignore_ascii_case(headerval, "image/png") {
            Format::Png
        } else if eq_ignore_ascii_case(headerval, "image/jpeg") {
            Format::Jpeg
        } else {
            Format::Unicode
        }
    }
}

impl Default for Format {
    fn default() -> (r: Self)
        ensures
            r == Format::Unicode,
    {
        Format::Unicode
    }
}

impl<'a> From<&'a str> for Format {
    fn from(headerval: &'a str) -> Self {
        Format::from_media_type(headerval)
    }
}

impl<'a> vstd::std_specs::convert::FromSpecImpl<&'a str> for Format {
    open spec fn obeys_from_spec() -> bool {
        true
    }

    open spec fn from_spec(v: &'a str) -> Format {
        format_of(v@)
    }
}

impl<'a> From<&'a String> for Format {
    fn from(headerval: &'a String) -> Self {
        Format::from_media_type(headerval.as_str())
    }
}

impl<'a> vstd::std_specs::convert::FromSpecImpl<&'a String> for Format {
    open spec fn obeys_from_spec() -> bool {
        true
    }

    open spec fn from_spec(v: &'a String) -> Format {
        format_of(v@)
    }
}

/// The family of symbol sizes.
#[derive(Debug, Clone, Copy, PartialEq, Eq, Structural)]
pub enum VersionType {
    NormalVersion,
    MicroVersion,
}

/// `n` and `normal` select normal versions; everything else, `m` and
/// `micro` included, selects micro versions.
pub open spec fn version_type_of(s: Seq<char>) -> VersionType {
    if s == "n"@ || s == "normal"@ {
        VersionType::NormalVersion
    } else {
        VersionType::MicroVersion
    }
}

impl VersionType {
    /// Selects the version family named by `s` (see `version_type_of`).
    pub fn from_name(s: &str) -> (r: VersionType)
        ensures
            r == version_type_of(s@),
    {
        if str_eq(s, "n") || str_eq(s, "normal") {
            VersionType::NormalVersion
        } else if str_eq(s, "m") || str_eq(s, "micro") {
            VersionType::MicroVersion
        } else {
            VersionType::MicroVersion
        }
    }
}

impl Default for VersionType {
    fn default() -> (r: Self)
        ensures
            r == VersionType::MicroVersion,
    {
        VersionType::MicroVersion
    }
}

impl<'a> From<&'a str> for VersionType {
    fn from(s: &'a str) -> Self {
        VersionType::from_name(s)
    }
}

impl<'a> vstd::std_specs::convert::FromSpecImpl<&'a str> for VersionType {
    open spec fn obeys_from_spec() -> bool {
        true
    }

    open spec fn from_spec(v: &'a str) -> VersionType {
        version_type_of(v@)
    }
}

/// The error-correction level, lowest redundancy first.
#[derive(Debug, Clone, Copy, PartialEq, Eq, Structural)]
pub enum EcLevel {
    L,
    M,
    Q,
    H,
}

/// Exactly one of the letters `L`, `M`, `Q`, `H`; nothing else is a level.
pub open spec fn ec_level_of(s: Seq<char>) -> Option<EcLevel> {
    if s == "L"@ {
        Some(EcLevel::L)
    } else if s == "M"@ {
        Some(EcLevel::M)
    } else if s == "Q"@ {
        Some(EcLevel::Q)
    } else if s == "H"@ {
        Some(EcLevel::H)
    } else {
        None
    }
}

impl EcLevel {
    /// Reads a level from its one-letter code (see `ec_level_of`).
    pub fn from_code(s: &str) -> (r: Option<EcLevel>)
        ensures
            r == ec_level_of(s@),
    {
        if str_eq(s, "L") {
            Some(EcLevel::L)
        } else if str_eq(s, "M") {
            Some(EcLevel::M)
        } else if str_eq(s, "Q") {
            Some(EcLevel::Q)
        } else if str_eq(s, "H") {
            Some(EcLevel::H)
        } else {
            None
        }
    }
}

/// A configuration field whose value could not be read.
#[derive(Debug, Clone, Copy, PartialEq, Eq, Structural)]
pub enum Field {
    MinWidth,
    MinHeight,
    VersionNumber,
    ErrorCorrectionLevel,
}

impl Field {
    /// The field's name as callers know it.
    pub fn name(&self) -> (r: &'static str)
        ensures
            r@ == match self {
                Field::MinWidth => "min_width"@,
                Field::MinHeight => "min_height"@,
                Field::VersionNumber => "version_number"@,
                Field::ErrorCorrectionLevel => "error_correction_level"@,
            },
    {
        match self {
            Field::MinWidth => "min_width",
            Field::MinHeight => "min_height",
            Field::VersionNumber => "version_number",
            Field::ErrorCorrectionLevel => "error_correction_level",
        }
    }
}

/// The first configuration value that failed to parse.
#[derive(Debug, Clone, Copy, PartialEq, Eq, Structural)]
pub struct FieldError {
    pub field: Field,
}

/// The named configuration strings of one call, each already reduced by the
/// caller to a single value; `None` where the caller supplied none.
#[derive(Debug)]
pub struct ConfigValues {
    pub format: Option<String>,
    pub min_width: Option<String>,
    pub min_height: Option<String>,
    pub dark_color: Option<String>,
    pub light_color: Option<String>,
    pub version_type: Option<String>,
    pub version_number: Option<String>,
    pub error_correction_level: Option<String>,
}

pub open spec fn opt_view(o: Option<String>) -> Option<Seq<char>> {
    match o {
        Some(s) => Some(s@),
        None => None,
    }
}

pub struct ConfigValuesView {
    pub format: Option<Seq<char>>,
    pub min_width: Option<Seq<char>>,
    pub min_height: Option<Seq<char>>,
    pub dark_color: Option<Seq<char>>,
    pub light_color: Option<Seq<char>>,
    pub version_type: Option<Seq<char>>,
    pub version_number: Option<Seq<char>>,
    pub error_correction_level: Option<Seq<char>>,
}

impl View for ConfigValues {
    type V = ConfigValuesView;

    open spec fn view(&self) -> ConfigValuesView {
        ConfigValuesView {
            format: opt_view(self.format),
            min_width: opt_view(self.min_width),
            min_height: opt_view(self.min_height),
            dark_color: opt_view(self.dark_color),
            light_color: opt_view(self.light_color),
            version_type: opt_view(self.version_type),
            version_number: opt_view(self.version_number),
            error_correction_level: opt_view(self.error_correction_level),
        }
    }
}

impl Default for ConfigValues {
    fn default() -> (r: Self)
        ensures
            r@ == (ConfigValuesView {
                format: None,
                min_width: None,
                min_height: None,
                dark_color: None,
                light_color: None,
                version_type: None,
                version_number: None,
                error_correction_level: None,
            }),
    {
        ConfigValues {
            format: None,
            min_width: None,
            min_height: None,
            dark_color: None,
            light_color: None,
            version_type: None,
            version_number: None,
            error_correction_level: None,
        }
    }
}

/// A fully resolved generation request. Fields left `None` take their
/// format-specific defaults when the symbol is rendered.
#[derive(Debug)]
pub struct Generator {
    pub format: Format,
    pub min_width: Option<u32>,
    pub min_height: Option<u32>,
    pub dark_color: Option<String>,
    pub light_color: Option<String>,
    pub version_type: VersionType,
    pub version_number: Option<i16>,
    pub error_correction_level: Option<EcLevel>,
    pub quiet_zone: Option<bool>,
}

pub struct GeneratorView {
    pub format: Format,
    pub min_width: Option<u32>,
    pub min_height: Option<u32>,
    pub dark_color: Option<Seq<char>>,
    pub light_color: Option<Seq<char>>,
    pub version_type: VersionType,
    pub version_number: Option<i16>,
    pub error_correction_level: Option<EcLevel>,
    pub quiet_zone: Option<bool>,
}

impl View for Generator {
    type V = GeneratorView;

    open spec fn view(&self) -> GeneratorView {
        GeneratorView {
            format: self.format,
            min_width: self.min_width,
            min_height: self.min_height,
            dark_color: opt_view(self.dark_color),
            light_color: opt_view(self.light_color),
            version_type: self.version_type,
            version_number: self.version_number,
            error_correction_level: self.error_correction_level,
            quiet_zone: self.quiet_zone,
        }
    }
}

/// The request that no configuration value has touched.
pub open spec fn default_request() -> GeneratorView {
    GeneratorView {
        format: Format::Unicode,
        min_width: None,
        min_height: None,
        dark_color: None,
        light_color: None,
        version_type: VersionType::MicroVersion,
        version_number: None,
        error_correction_level: None,
        quiet_zone: None,
    }
}

impl Default for Generator {
    fn default() -> (r: Self)
        ensures
            r@ == default_request(),
    {
        Generator {
            format: Format::Unicode,
            min_width: None,
            min_height: None,
            dark_color: None,
            light_color: None,
            version_type: VersionType::MicroVersion,
            version_number: None,
            error_correction_level: None,
            quiet_zone: None,
        }
    }
}

/// The field that resolution rejects, if any: the first, in the order
/// width, height, version number, level, whose value does not parse.
pub open spec fn first_bad_field(c: ConfigValuesView) -> Option<Field> {
    if c.min_width is Some && parse_u32_spec(c.min_width->0) is None {
        Some(Field::MinWidth)
    } else if c.min_height is Some && parse_u32_spec(c.min_height->0) is None {
        Some(Field::MinHeight)
    } else if c.version_number is Some && parse_i16_spec(c.version_number->0) is None {
        Some(Field::VersionNumber)
    } else if c.error_correction_level is Some && ec_level_of(c.error_correction_level->0) is None {
        Some(Field::ErrorCorrectionLevel)
    } else {
        None
    }
}

/// The request that a set of configuration values resolves to, when no
/// field is rejected. Colors get a `#` in front; absent values keep the
/// defaults.
pub open spec fn resolved(c: ConfigValuesView) -> GeneratorView {
    GeneratorView {
        format: match c.format {
            Some(s) => format_of(s),
            None => Format::Unicode,
        },
        min_width: match c.min_width {
            Some(s) => parse_u32_spec(s),
            None => None,
        },
        min_height: match c.min_height {
            Some(s) => parse_u32_spec(s),
            None => None,
        },
        dark_color: match c.dark_color {
            Some(s) => Some("#"@ + s),
            None => None,
        },
        light_color: match c.light_color {
            Some(s) => Some("#"@ + s),
            None => None,
        },
        version_type: match c.version_type {
            Some(s) => version_type_of(s),
            None => VersionType::MicroVersion,
        },
        version_number: match c.version_number {
            Some(s) => parse_i16_spec(s),
            None => None,
        },
        error_correction_level: match c.error_correction_level {
            Some(s) => ec_level_of(s),
            None => None,
        },
        quiet_zone: None,
    }
}

/// Resolution as a whole: the first rejected field, or the resolved request.
pub open spec fn resolve_spec(c: ConfigValuesView) -> Result<GeneratorView, Field> {
    match first_bad_field(c) {
        Some(f) => Err(f),
        None => Ok(resolved(c)),
    }
}

fn hash_prefixed(s: &String) -> (r: String)
    ensures
        r@ == "#"@ + s@,
{
    let mut r = String::from_str("#");
    r.append(s.as_str());
    r
}

impl Generator {
    /// Resolves the configuration values of one call into a request, or
    /// names the first field whose value does not parse.
    pub fn resolve(values: &ConfigValues) -> (r: Result<Generator, FieldError>)
        ensures
            match r {
                Ok(g) => resolve_spec(values@) == Ok::<GeneratorView, Field>(g@),
                Err(e) => resolve_spec(values@) == Err::<GeneratorView, Field>(e.field),
            },
    {
        let mut gen = Generator::default();
        if let Some(val) = &values.format {
            gen.format = Format::from_media_type(val.as_str());
        }
        if let Some(val) = &values.min_width {
            match parse_u32(val.as_str()) {
                Some(v) => gen.min_width = Some(v),
                None => return Err(FieldError { field: Field::MinWidth }),
            }
        }
        if let Some(val) = &values.min_height {
            match parse_u32(val.as_str()) {
                Some(v) => gen.min_height = Some(v),
                None => return Err(FieldError { field: Field::MinHeight }),
            }
        }
        if let Some(val) = &values.dark_color {
            gen.dark_color = Some(hash_prefixed(val));
        }
        if let Some(val) = &values.light_color {
            gen.light_color = Some(hash_prefixed(val));
        }
        if let Some(val) = &values.version_type {
            gen.version_type = VersionType::from_name(val.as_str());
        }
        if let Some(val) = &values.version_number {
            match parse_i16(val.as_str()) {
                Some(v) => gen.version_number = Some(v),
                None => return Err(FieldError { field: Field::VersionNumber }),
            }
        }
        if let Some(val) = &values.error_correction_level {
            match EcLevel::from_code(val.as_str()) {
                Some(e) => gen.error_correction_level = Some(e),
                None => return Err(FieldError { field: Field::ErrorCorrectionLevel }),
            }
        }
        proof {
            assert(gen@ == resolved(values@));
        }
        Ok(gen)
    }
}

} // verus!
