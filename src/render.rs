//! The multi-format renderer: a built symbol and a request in, the bytes of
//! one encoding out.
use vstd::prelude::*;
use vstd::utf8::encode_utf8;

use crate::policy::{construction_of, version_in_range, version_width, SymbolVersion};
use crate::request::{Format, Generator, GeneratorView};
use crate::symbol::{
    accepts, code_view, qr_version, symbol_for, view_wf, EncodingError, Symbol, SymbolView,
};

verus! {

/// `image::ImageError`, a codec failure.
#[verifier::external_type_specification]
#[verifier::external_body]
pub struct ExImageError(image::ImageError);

/// Width of the quiet zone, in modules, that the renderer gives a symbol.
pub open spec fn quiet_modules(v: SymbolVersion) -> int {
    if v is Micro {
        2
    } else {
        4
    }
}

/// Modules across what is drawn: the quiet zone counts only when it is on.
pub open spec fn drawn_span(v: SymbolVersion, quiet: bool) -> int {
    version_width(v) + if quiet {
        2 * quiet_modules(v)
    } else {
        0
    }
}

/// The size of one module, in pixels or characters, for a requested
/// minimum: the smallest whole size whose drawn span, quiet zone included
/// only when it is on, reaches the minimum, and at least 1.
pub open spec fn module_size(min: u32, v: SymbolVersion, quiet: bool) -> int {
    let d = drawn_span(v, quiet);
    let u = (min + d - 1) / d;
    if u < 1 {
        1
    } else {
        u
    }
}

/// The requested minimum sizes can be worked with in 32 bits.
pub open spec fn size_fits(v: SymbolVersion, min_width: u32, min_height: u32, quiet: bool) -> bool {
    &&& min_width + drawn_span(v, quiet) - 1 <= u32::MAX
    &&& min_height + drawn_span(v, quiet) - 1 <= u32::MAX
}

pub open spec fn canvas_width(v: SymbolVersion, min_width: u32, quiet: bool) -> int {
    drawn_span(v, quiet) * module_size(min_width, v, quiet)
}

pub open spec fn canvas_height(v: SymbolVersion, min_height: u32, quiet: bool) -> int {
    drawn_span(v, quiet) * module_size(min_height, v, quiet)
}

/// The number of cells of the drawn canvas fits in 32 bits.
pub open spec fn area_fits(v: SymbolVersion, min_width: u32, min_height: u32, quiet: bool) -> bool {
    canvas_width(v, min_width, quiet) * canvas_height(v, min_height, quiet) <= u32::MAX
}

/// The raster's pixel count fits in memory's index range.
pub open spec fn pixels_fit(v: SymbolVersion, min_width: u32, min_height: u32, quiet: bool) -> bool {
    canvas_width(v, min_width, quiet) * canvas_height(v, min_height, quiet) <= usize::MAX
}

/// Pixel `(x, y)` of the drawn canvas, with modules `uw` by `uh` pixels,
/// falls inside a dark module; the quiet zone is light.
pub open spec fn dark_at(s: SymbolView, quiet: bool, uw: int, uh: int, x: int, y: int) -> bool {
    let q = if quiet {
        quiet_modules(s.version)
    } else {
        0
    };
    let n = version_width(s.version);
    let mx = x / uw - q;
    let my = y / uh - q;
    0 <= mx < n && 0 <= my < n && s.modules[my * n + mx]
}

/// The gray level of pixel `(x, y)`: black (0) inside a dark module,
/// white (255) elsewhere, the quiet zone included.
pub open spec fn luma_at(s: SymbolView, quiet: bool, uw: int, uh: int, x: int, y: int) -> u8 {
    if dark_at(s, quiet, uw, uh, x, y) {
        0
    } else {
        255
    }
}

pub open spec fn raster_width(s: SymbolView, min_width: u32, quiet: bool) -> int {
    canvas_width(s.version, min_width, quiet)
}

pub open spec fn raster_height(s: SymbolView, min_height: u32, quiet: bool) -> int {
    canvas_height(s.version, min_height, quiet)
}

/// The 8-bit gray raster of a symbol, row by row.
pub open spec fn raster(s: SymbolView, min_width: u32, min_height: u32, quiet: bool) -> Seq<u8> {
    let uw = module_size(min_width, s.version, quiet);
    let uh = module_size(min_height, s.version, quiet);
    let w = raster_width(s, min_width, quiet);
    let h = raster_height(s, min_height, quiet);
    Seq::new((w * h) as nat, |k: int| luma_at(s, quiet, uw, uh, k % w, k / w))
}

/// Lines of text joined by newlines, with none after the last.
pub open spec fn join_lines(lines: Seq<Seq<char>>) -> Seq<char>
    decreases lines.len(),
{
    if lines.len() == 0 {
        Seq::empty()
    } else if lines.len() == 1 {
        lines[0]
    } else {
        join_lines(lines.drop_last()) + seq!['\n'] + lines.last()
    }
}

/// The glyph for two stacked pixels: full, upper half, lower half or blank.
pub open spec fn block_glyph(top: bool, bottom: bool) -> char {
    if top && bottom {
        '\u{2588}'
    } else if top {
        '\u{2580}'
    } else if bottom {
        '\u{2584}'
    } else {
        ' '
    }
}

/// The block-character art: the canvas of `raster`'s size, two pixel rows
/// to a line of text; a last odd row has nothing beneath it.
pub open spec fn block_art(s: SymbolView, min_width: u32, min_height: u32, quiet: bool) -> Seq<char> {
    let uw = module_size(min_width, s.version, quiet);
    let uh = module_size(min_height, s.version, quiet);
    let w = raster_width(s, min_width, quiet);
    let h = raster_height(s, min_height, quiet);
    join_lines(
        Seq::new(
            ((h + 1) / 2) as nat,
            |r: int|
                Seq::new(
                    w as nat,
                    |x: int|
                        block_glyph(
                            dark_at(s, quiet, uw, uh, x, 2 * r),
                            2 * r + 1 < h && dark_at(s, quiet, uw, uh, x, 2 * r + 1),
                        ),
                ),
        ),
    )
}

/// The plain character art: each module two characters across and one
/// line down, a full block where dark and a space where light.
pub open spec fn text_art(s: SymbolView, quiet: bool) -> Seq<char> {
    let d = drawn_span(s.version, quiet);
    join_lines(
        Seq::new(
            d as nat,
            |y: int|
                Seq::new(
                    (2 * d) as nat,
                    |x: int|
                        if dark_at(s, quiet, 2, 1, x, y) {
                            '\u{2588}'
                        } else {
                            ' '
                        },
                ),
        ),
    )
}

/// The decimal digits of a number, as `{}` formats it.
pub open spec fn decimal(n: nat) -> Seq<char>
    decreases n,
{
    if n < 10 {
        seq![(n + 48) as char]
    } else {
        decimal(n / 10).push(((n % 10) + 48) as char)
    }
}

/// The SVG document up to the path data: canvas size, light background,
/// dark fill.
pub open spec fn svg_head(w: nat, h: nat, dark: Seq<char>, light: Seq<char>) -> Seq<char> {
    "<?xml version=\"1.0\" standalone=\"yes\"?><svg xmlns=\"http://www.w3.org/2000/svg\" version=\"1.1\" width=\""@
        + decimal(w) + "\" height=\""@ + decimal(h) + "\" viewBox=\"0 0 "@ + decimal(w) + " "@
        + decimal(h) + "\" shape-rendering=\"crispEdges\"><rect x=\"0\" y=\"0\" width=\""@
        + decimal(w) + "\" height=\""@ + decimal(h) + "\" fill=\""@ + light
        + "\"/><path fill=\""@ + dark + "\" d=\""@
}

/// The path step that fills one module's square at `(left, top)`.
pub open spec fn svg_square(left: nat, top: nat, uw: nat, uh: nat) -> Seq<char> {
    "M"@ + decimal(left) + " "@ + decimal(top) + "h"@ + decimal(uw) + "v"@ + decimal(uh) + "H"@
        + decimal(left) + "V"@ + decimal(top)
}

/// The path steps for the first `k` modules, row by row: one square for
/// each dark module, nothing for a light one.
pub open spec fn svg_squares(s: SymbolView, q: int, uw: int, uh: int, k: int) -> Seq<char>
    decreases k,
{
    if k <= 0 {
        Seq::empty()
    } else {
        let n = version_width(s.version);
        let i = k - 1;
        svg_squares(s, q, uw, uh, i) + if s.modules[i] {
            svg_square(((i % n + q) * uw) as nat, ((i / n + q) * uh) as nat, uw as nat, uh as nat)
        } else {
            Seq::empty()
        }
    }
}

/// The SVG markup of a symbol: the head, a square for every dark module,
/// and the closing tags.
pub open spec fn svg_markup(
    s: SymbolView,
    min_width: u32,
    min_height: u32,
    dark: Seq<char>,
    light: Seq<char>,
    quiet: bool,
) -> Seq<char> {
    let q = if quiet {
        quiet_modules(s.version)
    } else {
        0
    };
    let n = version_width(s.version);
    svg_head(
        raster_width(s, min_width, quiet) as nat,
        raster_height(s, min_height, quiet) as nat,
        dark,
        light,
    ) + svg_squares(
        s,
        q,
        module_size(min_width, s.version, quiet),
        module_size(min_height, s.version, quiet),
        n * n,
    ) + "\"/></svg>"@
}

/// The PNG file of an 8-bit gray raster.
pub uninterp spec fn png_encoding(pixels: Seq<u8>, width: u32, height: u32) -> Seq<u8>;

/// The JPEG file of an 8-bit gray raster.
pub uninterp spec fn jpeg_encoding(pixels: Seq<u8>, width: u32, height: u32) -> Seq<u8>;

/// An 8-bit gray image, row by row.
pub struct GrayImage {
    pub width: u32,
    pub height: u32,
    pub pixels: Vec<u8>,
}

/// Relies on qrcode's `Renderer` for `svg::Color`: the canvas head, one
/// path step per dark module in row order, and the closing tags. The quiet
/// zone is set before the minimum sizes, so that they measure it only
/// when it is on.
#[verifier::external_body]
fn render_svg(
    code: &qrcode::QrCode,
    min_width: u32,
    min_height: u32,
    dark: &str,
    light: &str,
    quiet: bool,
) -> (r: String)
    requires
        size_fits(qr_version(*code), min_width, min_height, quiet),
    ensures
        r@ == svg_markup(code_view(*code), min_width, min_height, dark@, light@, quiet),
{
    code.render()
        .quiet_zone(quiet)
        .min_dimensions(min_width, min_height)
        .dark_color(qrcode::render::svg::Color(dark))
        .light_color(qrcode::render::svg::Color(light))
        .build()
}

/// Relies on qrcode's `Renderer` for `image::Luma<u8>`: each module becomes
/// a block of the module size, black where dark, on a white canvas.
#[verifier::external_body]
fn render_luma(code: &qrcode::QrCode, min_width: u32, min_height: u32, quiet: bool) -> (r:
    GrayImage)
    requires
        size_fits(qr_version(*code), min_width, min_height, quiet),
        view_wf(code_view(*code)),
        pixels_fit(qr_version(*code), min_width, min_height, quiet),
    ensures
        r.width == raster_width(code_view(*code), min_width, quiet),
        r.height == raster_height(code_view(*code), min_height, quiet),
        r.pixels@ == raster(code_view(*code), min_width, min_height, quiet),
{
    let img = code.render::<image::Luma<u8>>()
        .quiet_zone(quiet)
        .min_dimensions(min_width, min_height)
        .build();
    GrayImage { width: img.width(), height: img.height(), pixels: img.into_raw() }
}

/// Relies on qrcode's `Renderer` for `unicode::Dense1x2`: the canvas is
/// drawn as for an image, then each pair of pixel rows becomes a line of
/// block glyphs.
#[verifier::external_body]
fn render_blocks(code: &qrcode::QrCode, min_width: u32, min_height: u32, quiet: bool) -> (r:
    String)
    requires
        size_fits(qr_version(*code), min_width, min_height, quiet),
        area_fits(qr_version(*code), min_width, min_height, quiet),
    ensures
        r@ == block_art(code_view(*code), min_width, min_height, quiet),
{
    code.render::<qrcode::render::unicode::Dense1x2>()
        .quiet_zone(quiet)
        .min_dimensions(min_width, min_height)
        .dark_color(qrcode::render::unicode::Dense1x2::Dark)
        .light_color(qrcode::render::unicode::Dense1x2::Light)
        .build()
}

/// Relies on qrcode's `Renderer` for `char`: each module two characters
/// across and one down, `\u{2588}` where dark and a space where light, rows
/// joined by newlines.
#[verifier::external_body]
fn render_text(code: &qrcode::QrCode, quiet: bool) -> (r: String)
    ensures
        r@ == text_art(code_view(*code), quiet),
{
    code.render::<char>().module_dimensions(2, 1).quiet_zone(quiet).build()
}

/// Relies on image's `PngEncoder::encode` for 8-bit gray pixels, written
/// to memory: it fails only on a zero side or a wrong pixel count.
#[verifier::external_body]
fn encode_png(pixels: &[u8], width: u32, height: u32) -> (r: Result<Vec<u8>, image::ImageError>)
    requires
        pixels@.len() == width * height,
    ensures
        width > 0 && height > 0 ==> r is Ok,
        r is Ok ==> r->Ok_0@ == png_encoding(pixels@, width, height),
{
    let mut out: Vec<u8> = Vec::new();
    let res = image::codecs::png::PngEncoder::new(&mut out).encode(
        pixels,
        width,
        height,
        image::ColorType::L8,
    );
    res.map(|_| out)
}

/// Relies on image's `JpegEncoder::encode` for 8-bit gray pixels, written
/// to memory: it needs exactly one byte per pixel, and refuses only sides
/// beyond 65535.
#[verifier::external_body]
fn encode_jpeg(pixels: &[u8], width: u32, height: u32) -> (r: Result<Vec<u8>, image::ImageError>)
    requires
        pixels@.len() == width * height,
    ensures
        width <= 65535 && height <= 65535 ==> r is Ok,
        r is Ok ==> r->Ok_0@ == jpeg_encoding(pixels@, width, height),
{
    let mut out: Vec<u8> = Vec::new();
    let res = image::codecs::jpeg::JpegEncoder::new(&mut out).encode(
        pixels,
        width,
        height,
        image::ColorType::L8,
    );
    res.map(|_| out)
}

/// Why a request gave no output.
#[derive(Debug, Clone, Copy, PartialEq, Eq, Structural)]
pub enum GenerateError {
    /// The encoder refused the payload at the chosen version and level.
    Encoding,
    /// The requested size is beyond what the renderer or the codec can draw.
    Oversized,
}

/// The minimum width, by default 20 for block art and 240 for images.
pub open spec fn min_width_of(g: GeneratorView) -> u32 {
    match g.min_width {
        Some(w) => w,
        None => if g.format == Format::Unicode {
            20
        } else {
            240
        },
    }
}

/// The minimum height, with the same defaults as the width.
pub open spec fn min_height_of(g: GeneratorView) -> u32 {
    match g.min_height {
        Some(h) => h,
        None => if g.format == Format::Unicode {
            20
        } else {
            240
        },
    }
}

pub open spec fn dark_of(g: GeneratorView) -> Seq<char> {
    match g.dark_color {
        Some(d) => d,
        None => "#000"@,
    }
}

pub open spec fn light_of(g: GeneratorView) -> Seq<char> {
    match g.light_color {
        Some(l) => l,
        None => "#fff"@,
    }
}

/// The quiet zone is on unless the request turns it off.
pub open spec fn quiet_of(g: GeneratorView) -> bool {
    match g.quiet_zone {
        Some(q) => q,
        None => true,
    }
}

pub open spec fn bytes_view(r: Result<Vec<u8>, GenerateError>) -> Result<Seq<u8>, GenerateError> {
    match r {
        Ok(b) => Ok(b@),
        Err(e) => Err(e),
    }
}

/// The bytes of a text output: its UTF-8 encoding and a closing newline.
pub open spec fn text_bytes(t: Seq<char>) -> Seq<u8> {
    encode_utf8(t).push(10)
}

/// What rendering symbol `s` for request `g` gives: the output, or
/// `Oversized` where the requested size is beyond the renderer's 32-bit
/// arithmetic, memory's index range, or the JPEG format's 65535 sides.
pub open spec fn render_spec(g: GeneratorView, s: SymbolView) -> Result<Seq<u8>, GenerateError> {
    let w = min_width_of(g);
    let h = min_height_of(g);
    let q = quiet_of(g);
    let v = s.version;
    match g.format {
        Format::Svg | Format::Html => if size_fits(v, w, h, q) {
            Ok(text_bytes(svg_markup(s, w, h, dark_of(g), light_of(g), q)))
        } else {
            Err(GenerateError::Oversized)
        },
        Format::Unicode => if size_fits(v, w, h, q) && area_fits(v, w, h, q) {
            Ok(text_bytes(block_art(s, w, h, q)))
        } else {
            Err(GenerateError::Oversized)
        },
        Format::PlainText => Ok(text_bytes(text_art(s, q))),
        Format::Png => if size_fits(v, w, h, q) && pixels_fit(v, w, h, q) {
            Ok(
                png_encoding(
                    raster(s, w, h, q),
                    raster_width(s, w, q) as u32,
                    raster_height(s, h, q) as u32,
                ),
            )
        } else {
            Err(GenerateError::Oversized)
        },
        Format::Jpeg => if size_fits(v, w, h, q) && pixels_fit(v, w, h, q) && raster_width(s, w, q)
            <= 65535 && raster_height(s, h, q) <= 65535 {
            Ok(
                jpeg_encoding(
                    raster(s, w, h, q),
                    raster_width(s, w, q) as u32,
                    raster_height(s, h, q) as u32,
                ),
            )
        } else {
            Err(GenerateError::Oversized)
        },
    }
}

/// What generation gives for `data`: `Encoding` exactly where the encoder
/// refuses the construction that the request calls for, and otherwise the
/// rendering of the symbol it builds.
pub open spec fn generate_spec(g: GeneratorView, data: Seq<u8>) -> Result<Seq<u8>, GenerateError> {
    let plan = construction_of(g.version_type, g.version_number, g.error_correction_level);
    if accepts(plan, data) {
        render_spec(g, symbol_for(plan, data))
    } else {
        Err(GenerateError::Encoding)
    }
}

/// Modules across what is drawn, for an existing version.
fn drawn_span_of(v: SymbolVersion, quiet: bool) -> (r: u64)
    requires
        version_in_range(v),
    ensures
        r == drawn_span(v, quiet),
        11 <= r <= 185,
{
    let n: u64 = match v {
        SymbolVersion::Normal(n) => (n as u64) * 4 + 17,
        SymbolVersion::Micro(n) => (n as u64) * 2 + 9,
    };
    if !quiet {
        n
    } else {
        match v {
            SymbolVersion::Normal(_) => n + 8,
            SymbolVersion::Micro(_) => n + 4,
        }
    }
}

/// The module size for a minimum that fits; its product with the drawn
/// span stays within 32 bits.
fn module_size_of(min: u32, d: u64, v: SymbolVersion, quiet: bool) -> (r: u64)
    requires
        d == drawn_span(v, quiet),
        1 <= d <= 185,
        min + d - 1 <= u32::MAX,
    ensures
        r == module_size(min, v, quiet),
        1 <= r,
        r * d <= u32::MAX,
{
    let u = (min as u64 + d - 1) / d;
    proof {
        vstd::arithmetic::div_mod::lemma_fundamental_div_mod((min + d - 1) as int, d as int);
        assert(d * u <= min + d - 1);
        assert(u * d <= u32::MAX) by (nonlinear_arith)
            requires
                d * u <= min + d - 1,
                min + d - 1 <= u32::MAX,
        ;
    }
    if u < 1 {
        1
    } else {
        u
    }
}

/// Whether the sizes fit, and the canvas width and height when they do.
fn sizes(v: SymbolVersion, min_width: u32, min_height: u32, quiet: bool) -> (r: (bool, u64, u64))
    requires
        version_in_range(v),
    ensures
        r.0 == size_fits(v, min_width, min_height, quiet),
        r.0 ==> r.1 == canvas_width(v, min_width, quiet) && r.2 == canvas_height(
            v,
            min_height,
            quiet,
        ),
        r.0 ==> 1 <= r.1 <= u32::MAX && 1 <= r.2 <= u32::MAX,
{
    let d = drawn_span_of(v, quiet);
    if min_width as u64 + d - 1 > u32::MAX as u64 || min_height as u64 + d - 1 > u32::MAX as u64 {
        return (false, 0, 0);
    }
    let uw = module_size_of(min_width, d, v, quiet);
    let uh = module_size_of(min_height, d, v, quiet);
    proof {
        assert(d * uw >= 1 && d * uh >= 1) by (nonlinear_arith)
            requires
                d >= 1,
                uw >= 1,
                uh >= 1,
        ;
        assert(d * uw == uw * d && d * uh == uh * d) by (nonlinear_arith);
    }
    (true, d * uw, d * uh)
}

/// The UTF-8 bytes of a text output, with a closing newline.
fn text_output(t: String) -> (r: Vec<u8>)
    ensures
        r@ == text_bytes(t@),
{
    let mut bytes = t.as_str().as_bytes_vec();
    bytes.push(10u8);
    bytes
}

impl Generator {
    /// Renders a built symbol as this request asks (see `render_spec`).
    pub fn render(&self, symbol: &Symbol) -> (r: Result<Vec<u8>, GenerateError>)
        requires
            symbol.wf(),
        ensures
            bytes_view(r) == render_spec(self@, symbol@),
    {
        let v = symbol.version();
        let quiet = match self.quiet_zone {
            Some(q) => q,
            None => true,
        };
        let default_size: u32 = match self.format {
            Format::Unicode => 20,
            _ => 240,
        };
        let w = match self.min_width {
            Some(w) => w,
            None => default_size,
        };
        let h = match self.min_height {
            Some(h) => h,
            None => default_size,
        };
        if let Format::PlainText = self.format {
            return Ok(text_output(render_text(&symbol.code, quiet)));
        }
        let (fits, rw, rh) = sizes(v, w, h, quiet);
        if !fits {
            return Err(GenerateError::Oversized);
        }
        proof {
            assert(rw * rh <= u32::MAX * u32::MAX) by (nonlinear_arith)
                requires
                    rw <= u32::MAX,
                    rh <= u32::MAX,
            ;
        }
        match self.format {
            Format::Svg | Format::Html => {
                let dark: &str = match &self.dark_color {
                    Some(d) => d.as_str(),
                    None => "#000",
                };
                let light: &str = match &self.light_color {
                    Some(l) => l.as_str(),
                    None => "#fff",
                };
                Ok(text_output(render_svg(&symbol.code, w, h, dark, light, quiet)))
            },
            Format::Unicode => {
                if rw * rh > u32::MAX as u64 {
                    return Err(GenerateError::Oversized);
                }
                Ok(text_output(render_blocks(&symbol.code, w, h, quiet)))
            },
            Format::Png => {
                if rw * rh > usize::MAX as u64 {
                    return Err(GenerateError::Oversized);
                }
                let img = render_luma(&symbol.code, w, h, quiet);
                match encode_png(img.pixels.as_slice(), img.width, img.height) {
                    Ok(bytes) => Ok(bytes),
                    // Not reached: the codec takes every raster with both sides non-zero.
                    Err(_) => Err(GenerateError::Oversized),
                }
            },
            _ => {
                if rw * rh > usize::MAX as u64 || rw > 65535 || rh > 65535 {
                    return Err(GenerateError::Oversized);
                }
                let img = render_luma(&symbol.code, w, h, quiet);
                match encode_jpeg(img.pixels.as_slice(), img.width, img.height) {
                    Ok(bytes) => Ok(bytes),
                    // Not reached: the codec takes every raster up to 65535 a side.
                    Err(_) => Err(GenerateError::Oversized),
                }
            },
        }
    }

    /// Builds the symbol that this request calls for and renders it (see
    /// `generate_spec`): `Encoding` exactly where the encoder refuses.
    pub fn generate(&self, input: &[u8]) -> (r: Result<Vec<u8>, GenerateError>)
        ensures
            bytes_view(r) == generate_spec(self@, input@),
    {
        match Symbol::build(input, self.construction()) {
            Ok(symbol) => self.render(&symbol),
            Err(EncodingError) => Err(GenerateError::Encoding),
        }
    }
}

} // verus!
