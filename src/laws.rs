//! Properties that hold across calls and across all inputs, proved over the
//! same spec functions that the executable contracts use.
use vstd::prelude::*;

use crate::policy::{construction_of, version_in_range, version_width, Construction, SymbolVersion};
use crate::render::{
    block_art, canvas_width, dark_of, drawn_span, generate_spec, join_lines, light_of, luma_at,
    min_height_of, min_width_of, module_size, png_encoding, quiet_modules, quiet_of, raster,
    raster_height, raster_width, render_spec, size_fits, svg_head, svg_squares,
    text_art, text_bytes,
};
use crate::request::{
    ec_level_of, format_of, resolve_spec, ConfigValuesView, EcLevel, Field,
    Format, GeneratorView, VersionType,
};
use crate::symbol::{view_wf, SymbolView};
use crate::text::{fold_ascii, parse_i16_spec, parse_u32_spec};

verus! {

/// Format selection ignores the case of ASCII letters: two strings that
/// agree once folded select the same format.
pub proof fn law_format_ignores_case(a: Seq<char>, b: Seq<char>)
    requires
        fold_ascii(a) == fold_ascii(b),
    ensures
        format_of(a) == format_of(b),
{
}

/// Format selection is an exact match of the folded string against the
/// table; every string outside the table selects `Unicode`, and none is an
/// error.
pub proof fn law_format_table(s: Seq<char>)
    ensures
        format_of(s) == Format::Html <==> fold_ascii(s) == "text/html"@,
        format_of(s) == Format::Svg <==> fold_ascii(s) == "image/svg+xml"@,
        format_of(s) == Format::PlainText <==> fold_ascii(s) == "text/plain"@,
        format_of(s) == Format::Png <==> fold_ascii(s) == "image/png"@,
        format_of(s) == Format::Jpeg <==> fold_ascii(s) == "image/jpeg"@,
        format_of(s) == Format::Unicode <==> !(fold_ascii(s) == "text/html"@ || fold_ascii(s)
            == "image/svg+xml"@ || fold_ascii(s) == "text/plain"@ || fold_ascii(s)
            == "image/png"@ || fold_ascii(s) == "image/jpeg"@),
{
    reveal_strlit("text/html");
    reveal_strlit("image/svg+xml");
    reveal_strlit("text/plain");
    reveal_strlit("image/png");
    reveal_strlit("image/jpeg");
    assert("text/html"@.len() == 9);
    assert("image/svg+xml"@.len() == 13);
    assert("text/plain"@.len() == 10);
    assert("image/png"@.len() == 9);
    assert("image/jpeg"@.len() == 10);
    assert("text/html"@[0] != "image/png"@[0]);
    assert("text/plain"@[0] != "image/jpeg"@[0]);
    assert("text/html"@ != "image/svg+xml"@);
    assert("text/html"@ != "text/plain"@);
    assert("text/html"@ != "image/png"@);
    assert("text/html"@ != "image/jpeg"@);
    assert("image/svg+xml"@ != "text/plain"@);
    assert("image/svg+xml"@ != "image/png"@);
    assert("image/svg+xml"@ != "image/jpeg"@);
    assert("text/plain"@ != "image/png"@);
    assert("text/plain"@ != "image/jpeg"@);
    assert("image/png"@ != "image/jpeg"@);
}

/// The symbol family that a version number is read in.
pub open spec fn version_in_family(t: VersionType, n: i16) -> SymbolVersion {
    match t {
        VersionType::NormalVersion => SymbolVersion::Normal(n),
        VersionType::MicroVersion => SymbolVersion::Micro(n),
    }
}

/// The policy over all presence and absence of version number and level:
/// an explicit version is built in the requested family at the requested
/// level, or at `L` when none is given; without a version the size is
/// chosen automatically, whatever the family.
pub proof fn law_policy(t: VersionType, n: Option<i16>, e: Option<EcLevel>)
    ensures
        n is Some && e is Some ==> construction_of(t, n, e) == (Construction::Fixed {
            version: version_in_family(t, n->0),
            ec_level: e->0,
        }),
        n is Some && e is None ==> construction_of(t, n, e) == (Construction::Fixed {
            version: version_in_family(t, n->0),
            ec_level: EcLevel::L,
        }),
        n is None && e is Some ==> construction_of(t, n, e) == (Construction::Auto {
            ec_level: e->0,
        }),
        n is None && e is None ==> construction_of(t, n, e) == Construction::AutoDefault,
        n is None ==> construction_of(VersionType::NormalVersion, n, e) == construction_of(
            VersionType::MicroVersion,
            n,
            e,
        ),
{
}

/// The same request with another format.
pub open spec fn with_format(g: GeneratorView, f: Format) -> GeneratorView {
    GeneratorView { format: f, ..g }
}

/// The raster reads back to the module grid: at the top-left pixel of each
/// module's block it is black exactly where the module is dark.
pub proof fn law_raster_reads_back(s: SymbolView, w: u32, h: u32, quiet: bool, i: int, j: int)
    requires
        view_wf(s),
        size_fits(s.version, w, h, quiet),
        0 <= i < version_width(s.version),
        0 <= j < version_width(s.version),
    ensures
        ({
            let q = if quiet {
                quiet_modules(s.version)
            } else {
                0
            };
            let uw = module_size(w, s.version, quiet);
            let uh = module_size(h, s.version, quiet);
            let rw = raster_width(s, w, quiet);
            let x = (q + i) * uw;
            let y = (q + j) * uh;
            let n = version_width(s.version);
            &&& 0 <= x < rw
            &&& 0 <= y < raster_height(s, h, quiet)
            &&& raster(s, w, h, quiet)[y * rw + x] == if s.modules[j * n + i] {
                0u8
            } else {
                255u8
            }
        }),
{
    let q = if quiet {
        quiet_modules(s.version)
    } else {
        0
    };
    let n = version_width(s.version);
    let uw = module_size(w, s.version, quiet);
    let uh = module_size(h, s.version, quiet);
    let d = drawn_span(s.version, quiet);
    let rw = raster_width(s, w, quiet);
    let rh = raster_height(s, h, quiet);
    let x = (q + i) * uw;
    let y = (q + j) * uh;
    assert(d == n + 2 * q);
    assert(0 <= x < rw) by (nonlinear_arith)
        requires
            x == (q + i) * uw,
            rw == d * uw,
            uw >= 1,
            0 <= q + i < d,
    ;
    assert(0 <= y < rh) by (nonlinear_arith)
        requires
            y == (q + j) * uh,
            rh == d * uh,
            uh >= 1,
            0 <= q + j < d,
    ;
    assert(0 <= y * rw + x < rw * rh) by (nonlinear_arith)
        requires
            0 <= x < rw,
            0 <= y < rh,
    ;
    vstd::arithmetic::div_mod::lemma_fundamental_div_mod_converse(y * rw + x, rw, y, x);
    vstd::arithmetic::div_mod::lemma_div_by_multiple(q + i, uw);
    vstd::arithmetic::div_mod::lemma_div_by_multiple(q + j, uh);
    assert(luma_at(s, quiet, uw, uh, x, y) == if s.modules[j * n + i] {
        0u8
    } else {
        255u8
    });
}

/// The raster pixel at the top-left corner of module `(i, j)`'s block.
pub open spec fn module_pixel(s: SymbolView, w: u32, h: u32, quiet: bool, i: int, j: int) -> u8 {
    let q = if quiet {
        quiet_modules(s.version)
    } else {
        0
    };
    let x = (q + i) * module_size(w, s.version, quiet);
    let y = (q + j) * module_size(h, s.version, quiet);
    raster(s, w, h, quiet)[y * raster_width(s, w, quiet) + x]
}

/// Black for a dark module, white for a light one.
pub open spec fn module_shade(s: SymbolView, i: int, j: int) -> u8 {
    if s.modules[j * version_width(s.version) + i] {
        0
    } else {
        255
    }
}

/// Svg and Png renderings of one symbol for one request draw the same
/// module grid: the markup holds one square for each dark module of the
/// symbol, in row order, and the Png encodes a raster that reads back, at
/// every module, to exactly those dark modules.
pub proof fn law_svg_and_png_share_grid(s: SymbolView, g: GeneratorView)
    requires
        view_wf(s),
        g.format == Format::Svg,
        render_spec(g, s) is Ok,
        render_spec(with_format(g, Format::Png), s) is Ok,
    ensures
        render_spec(g, s)->Ok_0 == text_bytes(
            svg_head(
                raster_width(s, min_width_of(g), quiet_of(g)) as nat,
                raster_height(s, min_height_of(g), quiet_of(g)) as nat,
                dark_of(g),
                light_of(g),
            ) + svg_squares(
                s,
                if quiet_of(g) {
                    quiet_modules(s.version)
                } else {
                    0
                },
                module_size(min_width_of(g), s.version, quiet_of(g)),
                module_size(min_height_of(g), s.version, quiet_of(g)),
                version_width(s.version) * version_width(s.version),
            ) + "\"/></svg>"@,
        ),
        render_spec(with_format(g, Format::Png), s)->Ok_0 == png_encoding(
            raster(s, min_width_of(g), min_height_of(g), quiet_of(g)),
            raster_width(s, min_width_of(g), quiet_of(g)) as u32,
            raster_height(s, min_height_of(g), quiet_of(g)) as u32,
        ),
        forall|i: int, j: int|
            0 <= i < version_width(s.version) && 0 <= j < version_width(s.version)
                ==> #[trigger] module_pixel(s, min_width_of(g), min_height_of(g), quiet_of(g), i, j)
                == module_shade(s, i, j),
{
    let p = with_format(g, Format::Png);
    assert(min_width_of(p) == min_width_of(g));
    assert(min_height_of(p) == min_height_of(g));
    assert(quiet_of(p) == quiet_of(g));
    let w = min_width_of(g);
    let h = min_height_of(g);
    let q = quiet_of(g);
    assert forall|i: int, j: int|
        0 <= i < version_width(s.version) && 0 <= j < version_width(
            s.version,
        ) implies #[trigger] module_pixel(s, w, h, q, i, j) == module_shade(s, i, j) by {
        law_raster_reads_back(s, w, h, q, i, j);
    }
}

/// Every image canvas is at least as wide as the requested minimum width
/// (and, alike, as high as the minimum height), measured with the quiet
/// zone only when it is on.
pub proof fn law_canvas_reaches_minimum(v: SymbolVersion, min: u32, quiet: bool)
    requires
        version_in_range(v),
    ensures
        canvas_width(v, min, quiet) >= min,
{
    let d = drawn_span(v, quiet);
    let u = (min + d - 1) / d;
    vstd::arithmetic::div_mod::lemma_fundamental_div_mod(min + d - 1, d);
    assert(d * module_size(min, v, quiet) >= d * u) by (nonlinear_arith)
        requires
            d >= 1,
            module_size(min, v, quiet) >= u,
    ;
}

/// Html output is the Svg markup itself: the page template is filled by
/// the caller.
pub proof fn law_html_is_svg(g: GeneratorView, data: Seq<u8>)
    ensures
        generate_spec(with_format(g, Format::Html), data) == generate_spec(
            with_format(g, Format::Svg),
            data,
        ),
{
}

/// Plain character art takes neither minimum sizes nor colors into
/// account.
pub proof fn law_plain_text_ignores_size_and_color(g1: GeneratorView, g2: GeneratorView, data: Seq<u8>)
    requires
        g1.format == Format::PlainText,
        g2.format == Format::PlainText,
        g1.version_type == g2.version_type,
        g1.version_number == g2.version_number,
        g1.error_correction_level == g2.error_correction_level,
        g1.quiet_zone == g2.quiet_zone,
    ensures
        generate_spec(g1, data) == generate_spec(g2, data),
{
}

/// A request that leaves the quiet zone unset draws it.
pub proof fn law_quiet_zone_defaults_on(g: GeneratorView, data: Seq<u8>)
    ensures
        generate_spec(GeneratorView { quiet_zone: None, ..g }, data) == generate_spec(
            GeneratorView { quiet_zone: Some(true), ..g },
            data,
        ),
{
}

/// A character that block art may hold: a block glyph, a space or a newline.
pub open spec fn block_char(c: char) -> bool {
    c == ' ' || c == '\u{2580}' || c == '\u{2584}' || c == '\u{2588}' || c == '\n'
}

proof fn lemma_join_lines_chars(lines: Seq<Seq<char>>, allowed: spec_fn(char) -> bool)
    requires
        allowed('\n'),
        forall|i: int, k: int|
            0 <= i < lines.len() && 0 <= k < lines[i].len() ==> allowed(#[trigger] lines[i][k]),
    ensures
        forall|k: int| 0 <= k < join_lines(lines).len() ==> allowed(#[trigger] join_lines(lines)[k]),
    decreases lines.len(),
{
    if lines.len() > 1 {
        let init = lines.drop_last();
        assert forall|i: int, k: int| 0 <= i < init.len() && 0 <= k < init[i].len() implies allowed(
            #[trigger] init[i][k],
        ) by {
            assert(init[i] == lines[i]);
        }
        lemma_join_lines_chars(init, allowed);
        let head = join_lines(init);
        let last = lines.last();
        assert forall|k: int| 0 <= k < join_lines(lines).len() implies allowed(
            #[trigger] join_lines(lines)[k],
        ) by {
            if k < head.len() {
                assert(join_lines(lines)[k] == head[k]);
            } else if k == head.len() {
                assert(join_lines(lines)[k] == '\n');
            } else {
                assert(join_lines(lines)[k] == last[k - head.len() - 1]);
                assert(last == lines[lines.len() - 1]);
            }
        }
    } else if lines.len() == 1 {
        assert forall|k: int| 0 <= k < join_lines(lines).len() implies allowed(
            #[trigger] join_lines(lines)[k],
        ) by {
            assert(join_lines(lines)[k] == lines[0][k]);
        }
    }
}

/// Block art holds nothing but block glyphs, spaces and newlines.
pub proof fn law_block_art_glyphs(s: SymbolView, w: u32, h: u32, quiet: bool)
    ensures
        forall|k: int|
            0 <= k < block_art(s, w, h, quiet).len() ==> block_char(
                #[trigger] block_art(s, w, h, quiet)[k],
            ),
{
    let uw = module_size(w, s.version, quiet);
    let uh = module_size(h, s.version, quiet);
    let rw = raster_width(s, w, quiet);
    let rh = raster_height(s, h, quiet);
    let lines = Seq::new(
        ((rh + 1) / 2) as nat,
        |r: int|
            Seq::new(
                rw as nat,
                |x: int|
                    crate::render::block_glyph(
                        crate::render::dark_at(s, quiet, uw, uh, x, 2 * r),
                        2 * r + 1 < rh && crate::render::dark_at(s, quiet, uw, uh, x, 2 * r + 1),
                    ),
            ),
    );
    assert(block_art(s, w, h, quiet) == join_lines(lines));
    let allowed = |c: char| block_char(c);
    assert forall|i: int, k: int| 0 <= i < lines.len() && 0 <= k < lines[i].len() implies allowed(
        #[trigger] lines[i][k],
    ) by {}
    lemma_join_lines_chars(lines, allowed);
}

/// Block-art output, the default format, is text that ends in a newline
/// and holds nothing but block glyphs, spaces and newlines.
pub proof fn law_block_output(s: SymbolView, g: GeneratorView)
    requires
        g.format == Format::Unicode,
        render_spec(g, s) is Ok,
    ensures
        render_spec(g, s)->Ok_0 == text_bytes(block_art(s, min_width_of(g), min_height_of(g), quiet_of(g))),
        render_spec(g, s)->Ok_0.len() > 0,
        render_spec(g, s)->Ok_0.last() == 10,
        forall|k: int|
            0 <= k < block_art(s, min_width_of(g), min_height_of(g), quiet_of(g)).len()
                ==> block_char(
                #[trigger] block_art(s, min_width_of(g), min_height_of(g), quiet_of(g))[k],
            ),
{
    law_block_art_glyphs(s, min_width_of(g), min_height_of(g), quiet_of(g));
}

/// Plain character art holds nothing but full blocks, spaces and newlines.
pub proof fn law_text_art_glyphs(s: SymbolView, quiet: bool)
    ensures
        forall|k: int|
            0 <= k < text_art(s, quiet).len() ==> {
                let c = #[trigger] text_art(s, quiet)[k];
                c == '\u{2588}' || c == ' ' || c == '\n'
            },
{
    let d = drawn_span(s.version, quiet);
    let lines = Seq::new(
        d as nat,
        |y: int|
            Seq::new(
                (2 * d) as nat,
                |x: int|
                    if crate::render::dark_at(s, quiet, 2, 1, x, y) {
                        '\u{2588}'
                    } else {
                        ' '
                    },
            ),
    );
    assert(text_art(s, quiet) == join_lines(lines));
    let allowed = |c: char| c == '\u{2588}' || c == ' ' || c == '\n';
    assert forall|i: int, k: int| 0 <= i < lines.len() && 0 <= k < lines[i].len() implies allowed(
        #[trigger] lines[i][k],
    ) by {}
    lemma_join_lines_chars(lines, allowed);
}

/// Resolution depends on the values alone: resolving the same values twice
/// gives the identical request, or the same rejected field.
pub proof fn law_resolution_repeatable(a: ConfigValuesView, b: ConfigValuesView)
    requires
        a == b,
    ensures
        resolve_spec(a) == resolve_spec(b),
{
}

/// An explicit version number with an unreadable level fails resolution,
/// so no construction is chosen and the encoder is never asked; with the
/// sizes readable, the field named is the level.
pub proof fn law_bad_level_fails_resolution(c: ConfigValuesView)
    requires
        c.version_number is Some,
        parse_i16_spec(c.version_number->0) is Some,
        c.error_correction_level is Some,
        ec_level_of(c.error_correction_level->0) is None,
    ensures
        resolve_spec(c) is Err,
        (c.min_width is None || parse_u32_spec(c.min_width->0) is Some) && (c.min_height is None
            || parse_u32_spec(c.min_height->0) is Some) ==> resolve_spec(c)
            == Err::<GeneratorView, Field>(Field::ErrorCorrectionLevel),
{
}

} // verus!
