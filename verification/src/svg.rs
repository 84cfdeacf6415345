//! The procedural pipeline's rendering glue: deterministic arithmetic
//! mixing, the shared tag emitters, background, gradients, overlay, and the
//! two queries `get_attributes` and `generate_svg`.
//!
//! Every emitted byte is pinned by a spec function of the index alone, so
//! repeated calls agree byte for byte.

use vstd::prelude::*;
use vstd::arithmetic::mul::lemma_mul_upper_bound;
use vstd::arithmetic::mul::lemma_mul_inequality;
use vstd::arithmetic::div_mod::lemma_div_is_ordered;
use vstd::arithmetic::div_mod::lemma_div_multiples_vanish;
use vstd::arithmetic::div_mod::lemma_div_pos_is_pos;
use crate::digits::dec_digits;
use crate::digits::fmt_u64;
use crate::digits::fmt_u128;
use crate::palette::spec_palette_color;
use crate::classify::ArtStyle;
use crate::classify::spec_art_style;
use crate::classify::spec_style_name;
use crate::classify::spec_palette_name;
use crate::classify::spec_pattern_name;
use crate::classify::spec_complexity_name;
use crate::classify::spec_symmetry_name;
use crate::classify::spec_energy_name;
use crate::classify::spec_rarity;
use crate::classify::palette_code;
use crate::classify::pattern_code;
use crate::classify::complexity_code;
use crate::classify::symmetry_code;
use crate::classify::energy_code;
use crate::GenError;

verus! {

/// The collection's fixed supply; both queries reject an index at or past it.
pub const MAX_SUPPLY: u128 = 3333;

/// Derives attributes and SVG documents from a token index alone.
pub struct SvgGenerator;

/// The deterministic arithmetic hash every pattern draws positions from:
/// a seed times two small multipliers, reduced by a spatial bound. Not a
/// statistical generator; only a fixed, portable scattering rule.
pub open spec fn spec_mix(seed: int, a: int, b: int, m: int) -> int
    recommends
        m > 0,
{
    (seed * a * b) % m
}

/// `(seed * a * b) % m` under bounds that keep the product well inside
/// the machine word.
pub fn mix(seed: u128, a: u128, b: u128, m: u64) -> (r: u64)
    requires
        seed <= 200_000_000,
        a <= 200,
        b <= 200,
        m >= 1,
    ensures
        r == spec_mix(seed as int, a as int, b as int, m as int),
        r < m,
{
    proof {
        lemma_mul_upper_bound(seed as int, 200_000_000, a as int, 200);
        lemma_mul_upper_bound(seed as int * a as int, 40_000_000_000, b as int, 200);
    }
    let p: u128 = seed * a * b;
    (p % (m as u128)) as u64
}

/// `center` moved by `c/1000` of `r`, with division truncating toward zero
/// on either sign of `c`.
pub open spec fn spec_radial(center: int, c: int, r: int) -> int {
    if c >= 0 {
        center + (c * r) / 1000
    } else {
        center - ((-c) * r) / 1000
    }
}

/// The displaced point stays within `r` of the center.
pub proof fn lemma_radial_bounds(center: int, c: int, r: int)
    requires
        -1000 <= c <= 1000,
        0 <= r,
    ensures
        center - r <= spec_radial(center, c, r) <= center + r,
{
    if c >= 0 {
        lemma_mul_inequality(c, 1000, r);
        lemma_div_is_ordered(c * r, 1000 * r, 1000);
        lemma_div_multiples_vanish(r, 1000);
        lemma_div_pos_is_pos(c * r, 1000);
    } else {
        lemma_mul_inequality(-c, 1000, r);
        lemma_div_is_ordered((-c) * r, 1000 * r, 1000);
        lemma_div_multiples_vanish(r, 1000);
        lemma_div_pos_is_pos((-c) * r, 1000);
    }
}

/// Moves `center` by the scaled trig value `c` (in thousandths) times `r`.
pub fn radial(center: u64, c: i64, r: u64) -> (x: u64)
    requires
        -1000 <= c <= 1000,
        r <= center,
        center + r <= 1_000_000,
    ensures
        x == spec_radial(center as int, c as int, r as int),
        center - r <= x <= center + r,
{
    proof {
        lemma_radial_bounds(center as int, c as int, r as int);
    }
    if c >= 0 {
        center + ((c as u64) * r) / 1000
    } else {
        center - (((-c) as u64) * r) / 1000
    }
}

/// One circle element: shared by the texture dots, the packed circles, the
/// mandala beads and the sparkle overlay, which differ in their closing
/// attributes.
pub open spec fn spec_circle_tag(cx: nat, cy: nat, r: nat, fill: Seq<char>, tail: Seq<char>) -> Seq<
    char,
> {
    "<circle cx=\""@ + dec_digits(cx) + "\" cy=\""@ + dec_digits(cy) + "\" r=\""@ + dec_digits(r)
        + "\" fill=\""@ + fill + tail
}

pub fn circle_tag(cx: u64, cy: u64, r: u64, fill: &str, tail: &str) -> (s: String)
    ensures
        s@ == spec_circle_tag(cx as nat, cy as nat, r as nat, fill@, tail@),
{
    let mut s = String::from_str("<circle cx=\"");
    let n1 = fmt_u64(cx);
    s.append(n1.as_str());
    s.append("\" cy=\"");
    let n2 = fmt_u64(cy);
    s.append(n2.as_str());
    s.append("\" r=\"");
    let n3 = fmt_u64(r);
    s.append(n3.as_str());
    s.append("\" fill=\"");
    s.append(fill);
    s.append(tail);
    s
}

impl SvgGenerator {
    /// The subtle dotted backdrop: twenty faint white dots scattered by the
    /// index's seed.
    pub fn generate_background_texture(index: u128) -> (s: String)
        requires
            index < MAX_SUPPLY,
        ensures
            s@ == spec_texture(index),
    {
        let seed: u128 = index * 7919;
        let mut s = String::new();
        let mut i: u64 = 0;
        proof {
            assert(s@ =~= texture_dots(index, 0));
        }
        while i < 20
            invariant
                index < MAX_SUPPLY,
                seed == index * 7919,
                i <= 20,
                s@ == texture_dots(index, i as int),
            decreases 20 - i,
        {
            let x = mix(seed, (i + 1) as u128, 73, 400);
            let y = mix(seed, (i + 1) as u128, 97, 400);
            let size = mix(seed, (i + 1) as u128, 1, 3) + 1;
            let dot = circle_tag(x, y, size, "white", "\" opacity=\"0.1\"/>");
            s.append(dot.as_str());
            i = i + 1;
        }
        s
    }
}

/// The gradient definitions, interpolating the index's five palette colors.
pub open spec fn spec_gradients(index: u128) -> Seq<char> {
    "\n    <defs>\n      <radialGradient id=\"bg-gradient\" cx=\"50%\" cy=\"50%\" r=\"70%\">\n        <stop offset=\"0%\" style=\"stop-color:"@
        + spec_palette_color(palette_code(index), 0)
        + ";stop-opacity:0.8\"/>\n        <stop offset=\"100%\" style=\"stop-color:"@
        + spec_palette_color(palette_code(index), 1)
        + ";stop-opacity:1\"/>\n      </radialGradient>\n      <linearGradient id=\"pattern-gradient\" x1=\"0%\" y1=\"0%\" x2=\"100%\" y2=\"100%\">\n        <stop offset=\"0%\" style=\"stop-color:"@
        + spec_palette_color(palette_code(index), 2)
        + "\"/>\n        <stop offset=\"50%\" style=\"stop-color:"@
        + spec_palette_color(palette_code(index), 3)
        + "\"/>\n        <stop offset=\"100%\" style=\"stop-color:"@
        + spec_palette_color(palette_code(index), 4)
        + "\"/>\n      </linearGradient>\n    </defs>\n    "@
}

/// The background: a full-canvas gradient rectangle, then the texture dots.
pub open spec fn spec_background(index: u128) -> Seq<char> {
    "<rect width=\"400\" height=\"400\" fill=\"url(#bg-gradient)\"/>"@ + spec_texture(index)
}

/// One sparkle of the overlay: a pulsing white dot.
pub open spec fn overlay_dot(index: u128, i: int) -> Seq<char> {
    spec_circle_tag(
        spec_mix(index * 2153, i + 1, 91, 400) as nat,
        spec_mix(index * 2153, i + 1, 101, 400) as nat,
        (spec_mix(index * 2153, i + 1, 61, 3) + 1) as nat,
        "white"@,
        "\" opacity=\"0.8\">\n          <animate attributeName=\"opacity\" values=\"0.8;0.2;0.8\" dur=\"2s\" repeatCount=\"indefinite\"/>\n        </circle>"@,
    )
}

/// The first `n` sparkles, concatenated.
pub open spec fn overlay_dots(index: u128, n: int) -> Seq<char>
    decreases n,
{
    if n <= 0 {
        Seq::empty()
    } else {
        overlay_dots(index, n - 1) + overlay_dot(index, n - 1)
    }
}

/// The whole sparkle overlay.
pub open spec fn spec_overlay(index: u128) -> Seq<char> {
    overlay_dots(index, 10)
}

impl SvgGenerator {
    /// The gradient definitions for the background and pattern fills.
    pub fn generate_gradients(index: u128) -> (s: String)
        ensures
            s@ == spec_gradients(index),
    {
        let palette = Self::get_color_palette_colors(index);
        let mut s = String::from_str(
            "\n    <defs>\n      <radialGradient id=\"bg-gradient\" cx=\"50%\" cy=\"50%\" r=\"70%\">\n        <stop offset=\"0%\" style=\"stop-color:",
        );
        s.append(palette.0.as_str());
        s.append(";stop-opacity:0.8\"/>\n        <stop offset=\"100%\" style=\"stop-color:");
        s.append(palette.1.as_str());
        s.append(
            ";stop-opacity:1\"/>\n      </radialGradient>\n      <linearGradient id=\"pattern-gradient\" x1=\"0%\" y1=\"0%\" x2=\"100%\" y2=\"100%\">\n        <stop offset=\"0%\" style=\"stop-color:",
        );
        s.append(palette.2.as_str());
        s.append("\"/>\n        <stop offset=\"50%\" style=\"stop-color:");
        s.append(palette.3.as_str());
        s.append("\"/>\n        <stop offset=\"100%\" style=\"stop-color:");
        s.append(palette.4.as_str());
        s.append("\"/>\n      </linearGradient>\n    </defs>\n    ");
        s
    }

    /// The gradient-filled canvas rectangle with the texture dots over it.
    pub fn generate_background(index: u128) -> (s: String)
        requires
            index < MAX_SUPPLY,
        ensures
            s@ == spec_background(index),
    {
        let mut s = String::from_str(
            "<rect width=\"400\" height=\"400\" fill=\"url(#bg-gradient)\"/>",
        );
        let texture = Self::generate_background_texture(index);
        s.append(texture.as_str());
        s
    }

    /// Ten pulsing white sparkles over the finished pattern.
    pub fn generate_overlay_effects(index: u128) -> (s: String)
        requires
            index < MAX_SUPPLY,
        ensures
            s@ == spec_overlay(index),
    {
        let seed: u128 = index * 2153;
        let mut s = String::new();
        let mut i: u64 = 0;
        proof {
            assert(s@ =~= overlay_dots(index, 0));
        }
        while i < 10
            invariant
                index < MAX_SUPPLY,
                seed == index * 2153,
                i <= 10,
                s@ == overlay_dots(index, i as int),
            decreases 10 - i,
        {
            let x = mix(seed, (i + 1) as u128, 91, 400);
            let y = mix(seed, (i + 1) as u128, 101, 400);
            let size = mix(seed, (i + 1) as u128, 61, 3) + 1;
            let dot = circle_tag(
                x,
                y,
                size,
                "white",
                "\" opacity=\"0.8\">\n          <animate attributeName=\"opacity\" values=\"0.8;0.2;0.8\" dur=\"2s\" repeatCount=\"indefinite\"/>\n        </circle>",
            );
            s.append(dot.as_str());
            i = i + 1;
        }
        s
    }
}

/// The pattern layer the index's art style selects.
pub open spec fn spec_pattern(index: u128) -> Seq<char> {
    match spec_art_style(index) {
        ArtStyle::GeometricFractal => crate::patterns::spec_fractal(index),
        ArtStyle::FlowField => crate::patterns::spec_flow_field(index),
        ArtStyle::CirclePacking => crate::patterns::spec_circle_packing(index),
        ArtStyle::Mandala => crate::patterns::spec_mandala(index),
        ArtStyle::WaveInterference => crate::patterns::spec_wave(index),
        ArtStyle::Crystalline => crate::patterns::spec_crystal(index),
    }
}

/// The index watermark in the document's corner.
pub open spec fn spec_watermark(index: u128) -> Seq<char> {
    "<text x=\"20\" y=\"380\" font-family=\"monospace\" font-size=\"12\" fill=\"white\" opacity=\"0.6\">#"@
        + dec_digits(index as nat) + "</text>\n"@
}

/// The whole document: header, gradient definitions, background, the
/// style's pattern, the sparkle overlay, the watermark, and the close.
pub open spec fn spec_svg(index: u128) -> Seq<char> {
    "<?xml version=\"1.0\" encoding=\"UTF-8\"?>\n<svg width=\"100%\" height=\"100%\" viewBox=\"0 0 400 400\" xmlns=\"http://www.w3.org/2000/svg\">\n"@
        + spec_gradients(index) + spec_background(index) + spec_pattern(index) + spec_overlay(
        index,
    ) + spec_watermark(index) + "</svg>"@
}

/// The canonical attribute document: the six category names and the rarity
/// score, serialized as one JSON object with its keys in sorted order.
pub open spec fn spec_attributes(index: u128) -> Seq<char> {
    "{\"art_style\":\""@ + spec_style_name(spec_art_style(index)) + "\",\"color_palette\":\""@
        + spec_palette_name(palette_code(index)) + "\",\"complexity\":\""@ + spec_complexity_name(
        complexity_code(index),
    ) + "\",\"energy_level\":\""@ + spec_energy_name(energy_code(index)) + "\",\"pattern_type\":\""@
        + spec_pattern_name(pattern_code(index)) + "\",\"rarity_score\":"@ + dec_digits(
        spec_rarity(index) as nat,
    ) + ",\"symmetry\":\""@ + spec_symmetry_name(symmetry_code(index)) + "\"}"@
}

impl SvgGenerator {
    /// The canonical attributes of the token at `index`, as JSON text;
    /// rejects an index at or past the supply.
    pub fn get_attributes(index: u128) -> (r: Result<String, GenError>)
        ensures
            index < MAX_SUPPLY ==> r is Ok && r->Ok_0@ == spec_attributes(index),
            index >= MAX_SUPPLY ==> r is Err && r->Err_0 == GenError::IndexOutOfRange,
    {
        if index >= MAX_SUPPLY {
            return Err(GenError::IndexOutOfRange);
        }
        let mut s = String::from_str("{\"art_style\":\"");
        let style = Self::get_art_style(index);
        s.append(style.as_str());
        s.append("\",\"color_palette\":\"");
        let pal = Self::get_color_palette(index);
        s.append(pal.as_str());
        s.append("\",\"complexity\":\"");
        let cx = Self::get_complexity(index);
        s.append(cx.as_str());
        s.append("\",\"energy_level\":\"");
        let en = Self::get_energy_level(index);
        s.append(en.as_str());
        s.append("\",\"pattern_type\":\"");
        let pt = Self::get_pattern_type(index);
        s.append(pt.as_str());
        s.append("\",\"rarity_score\":");
        let score = fmt_u128(Self::calculate_rarity_score(index));
        s.append(score.as_str());
        s.append(",\"symmetry\":\"");
        let sy = Self::get_symmetry(index);
        s.append(sy.as_str());
        s.append("\"}");
        Ok(s)
    }

    /// The rendered SVG document of the token at `index`; rejects an index
    /// at or past the supply.
    pub fn generate_svg(index: u128) -> (r: Result<String, GenError>)
        ensures
            index < MAX_SUPPLY ==> r is Ok && r->Ok_0@ == spec_svg(index),
            index >= MAX_SUPPLY ==> r is Err && r->Err_0 == GenError::IndexOutOfRange,
    {
        if index >= MAX_SUPPLY {
            return Err(GenError::IndexOutOfRange);
        }
        let mut s = String::from_str(
            "<?xml version=\"1.0\" encoding=\"UTF-8\"?>\n<svg width=\"100%\" height=\"100%\" viewBox=\"0 0 400 400\" xmlns=\"http://www.w3.org/2000/svg\">\n",
        );
        let grads = Self::generate_gradients(index);
        s.append(grads.as_str());
        let bg = Self::generate_background(index);
        s.append(bg.as_str());
        let pattern = match Self::get_art_style_enum(index) {
            ArtStyle::GeometricFractal => Self::generate_fractal_pattern(index),
            ArtStyle::FlowField => Self::generate_flow_field(index),
            ArtStyle::CirclePacking => Self::generate_circle_packing(index),
            ArtStyle::Mandala => Self::generate_mandala(index),
            ArtStyle::WaveInterference => Self::generate_wave_pattern(index),
            ArtStyle::Crystalline => Self::generate_crystal_pattern(index),
        };
        s.append(pattern.as_str());
        let overlay = Self::generate_overlay_effects(index);
        s.append(overlay.as_str());
        s.append(
            "<text x=\"20\" y=\"380\" font-family=\"monospace\" font-size=\"12\" fill=\"white\" opacity=\"0.6\">#",
        );
        let num = fmt_u128(index);
        s.append(num.as_str());
        s.append("</text>\n");
        s.append("</svg>");
        proof {
            assert(s@ =~= spec_svg(index));
        }
        Ok(s)
    }
}

/// Repeated queries on one index agree byte for byte: both documents are
/// functions of the index alone, so any two results of `get_attributes`, and
/// any two of `generate_svg`, on the same valid index are equal.
pub proof fn lemma_determinism(index: u128, a1: Seq<char>, a2: Seq<char>, s1: Seq<char>, s2: Seq<char>)
    requires
        index < MAX_SUPPLY,
        a1 == spec_attributes(index),
        a2 == spec_attributes(index),
        s1 == spec_svg(index),
        s2 == spec_svg(index),
    ensures
        a1 == a2,
        s1 == s2,
{
}

/// One texture dot.
pub open spec fn texture_dot(index: u128, i: int) -> Seq<char> {
    spec_circle_tag(
        spec_mix(index * 7919, i + 1, 73, 400) as nat,
        spec_mix(index * 7919, i + 1, 97, 400) as nat,
        (spec_mix(index * 7919, i + 1, 1, 3) + 1) as nat,
        "white"@,
        "\" opacity=\"0.1\"/>"@,
    )
}

/// The first `n` texture dots, concatenated.
pub open spec fn texture_dots(index: u128, n: int) -> Seq<char>
    decreases n,
{
    if n <= 0 {
        Seq::empty()
    } else {
        texture_dots(index, n - 1) + texture_dot(index, n - 1)
    }
}

/// The whole texture layer.
pub open spec fn spec_texture(index: u128) -> Seq<char> {
    texture_dots(index, 20)
}

} // verus!
