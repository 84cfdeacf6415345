//! The procedural classifier: six trait categories read off the index by
//! mixed-radix arithmetic, and the rarity score derived from them.
//!
//! Category sizes are 6, 12, 6, 5, 4 and 4; each category's divisor is the
//! product of the sizes of the categories before it, so consecutive indices
//! walk the Cartesian product of all categories like a mixed-radix counter.

use vstd::prelude::*;
use vstd::arithmetic::div_mod::lemma_fundamental_div_mod;
use vstd::arithmetic::div_mod::lemma_fundamental_div_mod_converse;
use vstd::arithmetic::div_mod::lemma_div_denominator;
use vstd::arithmetic::div_mod::lemma_basic_div;
use crate::svg::SvgGenerator;

verus! {

/// How many distinct trait combinations exist: 6 * 12 * 6 * 5 * 4 * 4.
pub const COMBO_COUNT: u128 = 34560;

/// The six pattern families of the procedural pipeline.
#[derive(Clone, Copy, Debug, PartialEq, Eq, Structural)]
pub enum ArtStyle {
    GeometricFractal,
    FlowField,
    CirclePacking,
    Mandala,
    WaveInterference,
    Crystalline,
}

/// Numeric category codes, one per trait category.
pub open spec fn style_code(i: u128) -> u128 {
    i % 6
}

pub open spec fn palette_code(i: u128) -> u128 {
    (i / 6) % 12
}

pub open spec fn pattern_code(i: u128) -> u128 {
    (i / 72) % 6
}

pub open spec fn complexity_code(i: u128) -> u128 {
    (i / 432) % 5
}

pub open spec fn symmetry_code(i: u128) -> u128 {
    (i / 2160) % 4
}

pub open spec fn energy_code(i: u128) -> u128 {
    (i / 8640) % 4
}

pub open spec fn spec_art_style(i: u128) -> ArtStyle {
    if style_code(i) == 0 {
        ArtStyle::GeometricFractal
    } else if style_code(i) == 1 {
        ArtStyle::FlowField
    } else if style_code(i) == 2 {
        ArtStyle::CirclePacking
    } else if style_code(i) == 3 {
        ArtStyle::Mandala
    } else if style_code(i) == 4 {
        ArtStyle::WaveInterference
    } else {
        ArtStyle::Crystalline
    }
}

pub open spec fn spec_style_name(s: ArtStyle) -> Seq<char> {
    match s {
        ArtStyle::GeometricFractal => "Geometric Fractal"@,
        ArtStyle::FlowField => "Flow Field"@,
        ArtStyle::CirclePacking => "Circle Packing"@,
        ArtStyle::Mandala => "Sacred Mandala"@,
        ArtStyle::WaveInterference => "Wave Interference"@,
        ArtStyle::Crystalline => "Crystalline Structure"@,
    }
}

pub open spec fn spec_palette_name(c: u128) -> Seq<char> {
    if c == 0 {
        "Sunset"@
    } else if c == 1 {
        "Ocean"@
    } else if c == 2 {
        "Forest"@
    } else if c == 3 {
        "Aurora"@
    } else if c == 4 {
        "Volcanic"@
    } else if c == 5 {
        "Desert"@
    } else if c == 6 {
        "Cosmic"@
    } else if c == 7 {
        "Neon"@
    } else if c == 8 {
        "Pastel"@
    } else if c == 9 {
        "Monochrome"@
    } else if c == 10 {
        "Rainbow"@
    } else {
        "Earth"@
    }
}

pub open spec fn spec_pattern_name(c: u128) -> Seq<char> {
    if c == 0 {
        "Organic"@
    } else if c == 1 {
        "Geometric"@
    } else if c == 2 {
        "Hybrid"@
    } else if c == 3 {
        "Chaotic"@
    } else if c == 4 {
        "Ordered"@
    } else {
        "Flowing"@
    }
}

pub open spec fn spec_complexity_name(c: u128) -> Seq<char> {
    if c == 0 {
        "Minimal"@
    } else if c == 1 {
        "Simple"@
    } else if c == 2 {
        "Moderate"@
    } else if c == 3 {
        "Complex"@
    } else {
        "Intricate"@
    }
}

pub open spec fn spec_symmetry_name(c: u128) -> Seq<char> {
    if c == 0 {
        "Radial"@
    } else if c == 1 {
        "Bilateral"@
    } else if c == 2 {
        "Asymmetric"@
    } else {
        "Rotational"@
    }
}

pub open spec fn spec_energy_name(c: u128) -> Seq<char> {
    if c == 0 {
        "Calm"@
    } else if c == 1 {
        "Balanced"@
    } else if c == 2 {
        "Dynamic"@
    } else {
        "Explosive"@
    }
}

/// The weight each art style contributes to the rarity score.
pub open spec fn spec_style_weight(s: ArtStyle) -> int {
    match s {
        ArtStyle::Mandala => 100,
        ArtStyle::Crystalline => 90,
        ArtStyle::WaveInterference => 80,
        ArtStyle::FlowField => 70,
        ArtStyle::CirclePacking => 60,
        ArtStyle::GeometricFractal => 50,
    }
}

/// The weight a palette contributes: the first and last palettes are rarest.
pub open spec fn spec_palette_weight(c: u128) -> int {
    if c == 0 || c == 11 {
        50
    } else if c == 1 || c == 2 {
        40
    } else {
        30
    }
}

/// The bonus the two highest complexity tiers contribute.
pub open spec fn spec_complexity_weight(c: u128) -> int {
    if c == 4 {
        30
    } else if c == 3 {
        20
    } else {
        10
    }
}

/// The rarity score: a pure function of the index, used only for
/// comparative ranking.
pub open spec fn spec_rarity(i: u128) -> int {
    spec_style_weight(spec_art_style(i)) + spec_palette_weight(palette_code(i))
        + spec_complexity_weight(complexity_code(i))
}

impl SvgGenerator {
    /// Which pattern family the index falls in.
    pub fn get_art_style_enum(index: u128) -> (r: ArtStyle)
        ensures
            r == spec_art_style(index),
    {
        match index % 6 {
            0 => ArtStyle::GeometricFractal,
            1 => ArtStyle::FlowField,
            2 => ArtStyle::CirclePacking,
            3 => ArtStyle::Mandala,
            4 => ArtStyle::WaveInterference,
            _ => ArtStyle::Crystalline,
        }
    }

    /// The art style's display name.
    pub fn get_art_style(index: u128) -> (r: String)
        ensures
            r@ == spec_style_name(spec_art_style(index)),
    {
        match Self::get_art_style_enum(index) {
            ArtStyle::GeometricFractal => String::from_str("Geometric Fractal"),
            ArtStyle::FlowField => String::from_str("Flow Field"),
            ArtStyle::CirclePacking => String::from_str("Circle Packing"),
            ArtStyle::Mandala => String::from_str("Sacred Mandala"),
            ArtStyle::WaveInterference => String::from_str("Wave Interference"),
            ArtStyle::Crystalline => String::from_str("Crystalline Structure"),
        }
    }

    /// The color palette's display name.
    pub fn get_color_palette(index: u128) -> (r: String)
        ensures
            r@ == spec_palette_name(palette_code(index)),
    {
        match (index / 6) % 12 {
            0 => String::from_str("Sunset"),
            1 => String::from_str("Ocean"),
            2 => String::from_str("Forest"),
            3 => String::from_str("Aurora"),
            4 => String::from_str("Volcanic"),
            5 => String::from_str("Desert"),
            6 => String::from_str("Cosmic"),
            7 => String::from_str("Neon"),
            8 => String::from_str("Pastel"),
            9 => String::from_str("Monochrome"),
            10 => String::from_str("Rainbow"),
            _ => String::from_str("Earth"),
        }
    }

    /// The pattern type's display name.
    pub fn get_pattern_type(index: u128) -> (r: String)
        ensures
            r@ == spec_pattern_name(pattern_code(index)),
    {
        match (index / 72) % 6 {
            0 => String::from_str("Organic"),
            1 => String::from_str("Geometric"),
            2 => String::from_str("Hybrid"),
            3 => String::from_str("Chaotic"),
            4 => String::from_str("Ordered"),
            _ => String::from_str("Flowing"),
        }
    }

    /// The complexity tier's display name.
    pub fn get_complexity(index: u128) -> (r: String)
        ensures
            r@ == spec_complexity_name(complexity_code(index)),
    {
        match (index / 432) % 5 {
            0 => String::from_str("Minimal"),
            1 => String::from_str("Simple"),
            2 => String::from_str("Moderate"),
            3 => String::from_str("Complex"),
            _ => String::from_str("Intricate"),
        }
    }

    /// The symmetry class's display name.
    pub fn get_symmetry(index: u128) -> (r: String)
        ensures
            r@ == spec_symmetry_name(symmetry_code(index)),
    {
        match (index / 2160) % 4 {
            0 => String::from_str("Radial"),
            1 => String::from_str("Bilateral"),
            2 => String::from_str("Asymmetric"),
            _ => String::from_str("Rotational"),
        }
    }

    /// The energy level's display name.
    pub fn get_energy_level(index: u128) -> (r: String)
        ensures
            r@ == spec_energy_name(energy_code(index)),
    {
        match (index / 8640) % 4 {
            0 => String::from_str("Calm"),
            1 => String::from_str("Balanced"),
            2 => String::from_str("Dynamic"),
            _ => String::from_str("Explosive"),
        }
    }

    /// The rarity score: style weight, palette weight and complexity bonus
    /// added together.
    pub fn calculate_rarity_score(index: u128) -> (r: u128)
        ensures
            r == spec_rarity(index),
    {
        let mut score: u128 = 0;
        score = score + match Self::get_art_style_enum(index) {
            ArtStyle::Mandala => 100,
            ArtStyle::Crystalline => 90,
            ArtStyle::WaveInterference => 80,
            ArtStyle::FlowField => 70,
            ArtStyle::CirclePacking => 60,
            ArtStyle::GeometricFractal => 50,
        };
        score = score + match (index / 6) % 12 {
            0 | 11 => 50,
            1 | 2 => 40,
            _ => 30,
        };
        score = score + match (index / 432) % 5 {
            4 => 30,
            3 => 20,
            _ => 10,
        };
        score
    }
}

/// Coverage, one direction: two indices below the combination count that
/// classify alike in every category are the same index. With
/// [`lemma_classification_complete`] this shows each combination of the six
/// trait categories appears exactly once across indices
/// `0..COMBO_COUNT`.
pub proof fn lemma_classification_injective(i: u128, j: u128)
    requires
        i < COMBO_COUNT,
        j < COMBO_COUNT,
        style_code(i) == style_code(j),
        palette_code(i) == palette_code(j),
        pattern_code(i) == pattern_code(j),
        complexity_code(i) == complexity_code(j),
        symmetry_code(i) == symmetry_code(j),
        energy_code(i) == energy_code(j),
    ensures
        i == j,
{
    lemma_mixed_radix_decomposition(i);
    lemma_mixed_radix_decomposition(j);
}

/// Every index below the combination count is the sum of its category codes
/// weighted by the category divisors.
pub proof fn lemma_mixed_radix_decomposition(i: u128)
    requires
        i < COMBO_COUNT,
    ensures
        i == style_code(i) + 6 * palette_code(i) + 72 * pattern_code(i) + 432 * complexity_code(i)
            + 2160 * symmetry_code(i) + 8640 * energy_code(i),
{
    let x = i as int;
    lemma_fundamental_div_mod(x, 6);
    lemma_div_denominator(x, 6, 12);
    lemma_fundamental_div_mod(x / 6, 12);
    lemma_div_denominator(x, 72, 6);
    lemma_fundamental_div_mod(x / 72, 6);
    lemma_div_denominator(x, 432, 5);
    lemma_fundamental_div_mod(x / 432, 5);
    lemma_div_denominator(x, 2160, 4);
    lemma_fundamental_div_mod(x / 2160, 4);
    lemma_div_denominator(x, 8640, 4);
    lemma_fundamental_div_mod(x / 8640, 4);
    lemma_basic_div(x, 34560);
    assert(x / 34560 == 0);
}

/// Coverage, stated over the trait names themselves: two indices below the
/// combination count whose six displayed trait names all agree are the same
/// index, because no category gives two of its codes the same name.
pub proof fn lemma_name_combination_injective(i: u128, j: u128)
    requires
        i < COMBO_COUNT,
        j < COMBO_COUNT,
        spec_style_name(spec_art_style(i)) == spec_style_name(spec_art_style(j)),
        spec_palette_name(palette_code(i)) == spec_palette_name(palette_code(j)),
        spec_pattern_name(pattern_code(i)) == spec_pattern_name(pattern_code(j)),
        spec_complexity_name(complexity_code(i)) == spec_complexity_name(complexity_code(j)),
        spec_symmetry_name(symmetry_code(i)) == spec_symmetry_name(symmetry_code(j)),
        spec_energy_name(energy_code(i)) == spec_energy_name(energy_code(j)),
    ensures
        i == j,
{
    reveal_strlit("Geometric Fractal");
    reveal_strlit("Flow Field");
    reveal_strlit("Circle Packing");
    reveal_strlit("Sacred Mandala");
    reveal_strlit("Wave Interference");
    reveal_strlit("Crystalline Structure");
    reveal_strlit("Sunset");
    reveal_strlit("Ocean");
    reveal_strlit("Forest");
    reveal_strlit("Aurora");
    reveal_strlit("Volcanic");
    reveal_strlit("Desert");
    reveal_strlit("Cosmic");
    reveal_strlit("Neon");
    reveal_strlit("Pastel");
    reveal_strlit("Monochrome");
    reveal_strlit("Rainbow");
    reveal_strlit("Earth");
    reveal_strlit("Organic");
    reveal_strlit("Geometric");
    reveal_strlit("Hybrid");
    reveal_strlit("Chaotic");
    reveal_strlit("Ordered");
    reveal_strlit("Flowing");
    reveal_strlit("Minimal");
    reveal_strlit("Simple");
    reveal_strlit("Moderate");
    reveal_strlit("Complex");
    reveal_strlit("Intricate");
    reveal_strlit("Radial");
    reveal_strlit("Bilateral");
    reveal_strlit("Asymmetric");
    reveal_strlit("Rotational");
    reveal_strlit("Calm");
    reveal_strlit("Balanced");
    reveal_strlit("Dynamic");
    reveal_strlit("Explosive");
    let s1 = spec_style_name(spec_art_style(i));
    let s2 = spec_style_name(spec_art_style(j));
    assert(s1.len() == s2.len() && s1[0] == s2[0] && s1[2] == s2[2]);
    assert(spec_art_style(i) == spec_art_style(j));
    let p1 = spec_palette_name(palette_code(i));
    let p2 = spec_palette_name(palette_code(j));
    assert(p1.len() == p2.len() && p1[0] == p2[0] && p1[2] == p2[2]);
    assert(palette_code(i) == palette_code(j));
    let t1 = spec_pattern_name(pattern_code(i));
    let t2 = spec_pattern_name(pattern_code(j));
    assert(t1.len() == t2.len() && t1[0] == t2[0] && t1[2] == t2[2]);
    assert(pattern_code(i) == pattern_code(j));
    let c1 = spec_complexity_name(complexity_code(i));
    let c2 = spec_complexity_name(complexity_code(j));
    assert(c1.len() == c2.len() && c1[0] == c2[0] && c1[2] == c2[2]);
    assert(complexity_code(i) == complexity_code(j));
    let y1 = spec_symmetry_name(symmetry_code(i));
    let y2 = spec_symmetry_name(symmetry_code(j));
    assert(y1.len() == y2.len() && y1[0] == y2[0] && y1[2] == y2[2]);
    assert(symmetry_code(i) == symmetry_code(j));
    let e1 = spec_energy_name(energy_code(i));
    let e2 = spec_energy_name(energy_code(j));
    assert(e1.len() == e2.len() && e1[0] == e2[0] && e1[2] == e2[2]);
    assert(energy_code(i) == energy_code(j));
    lemma_classification_injective(i, j);
}

/// Coverage, the other direction: every combination of category codes is
/// reached, by the index that the mixed-radix counter assigns to it, and
/// that index lies below the combination count.
pub proof fn lemma_classification_complete(a: u128, b: u128, c: u128, d: u128, e: u128, f: u128)
    requires
        a < 6,
        b < 12,
        c < 6,
        d < 5,
        e < 4,
        f < 4,
    ensures
        a + 6 * b + 72 * c + 432 * d + 2160 * e + 8640 * f < COMBO_COUNT,
        style_code((a + 6 * b + 72 * c + 432 * d + 2160 * e + 8640 * f) as u128) == a,
        palette_code((a + 6 * b + 72 * c + 432 * d + 2160 * e + 8640 * f) as u128) == b,
        pattern_code((a + 6 * b + 72 * c + 432 * d + 2160 * e + 8640 * f) as u128) == c,
        complexity_code((a + 6 * b + 72 * c + 432 * d + 2160 * e + 8640 * f) as u128) == d,
        symmetry_code((a + 6 * b + 72 * c + 432 * d + 2160 * e + 8640 * f) as u128) == e,
        energy_code((a + 6 * b + 72 * c + 432 * d + 2160 * e + 8640 * f) as u128) == f,
{
    let i = a + 6 * b + 72 * c + 432 * d + 2160 * e + 8640 * f;
    let x = i as int;
    let q1 = b + 12 * c + 72 * d + 360 * e + 1440 * f;
    let q2 = c + 6 * d + 30 * e + 120 * f;
    let q3 = d + 5 * e + 20 * f;
    let q4 = e + 4 * f;
    assert(x == q1 * 6 + a);
    lemma_fundamental_div_mod_converse(x, 6, q1 as int, a as int);
    assert(x / 6 == q1);
    assert(q1 == q2 * 12 + b);
    lemma_fundamental_div_mod_converse(q1 as int, 12, q2 as int, b as int);
    lemma_div_denominator(x, 6, 12);
    assert(x / 72 == q2);
    assert(q2 == q3 * 6 + c);
    lemma_fundamental_div_mod_converse(q2 as int, 6, q3 as int, c as int);
    lemma_div_denominator(x, 72, 6);
    assert(x / 432 == q3);
    assert(q3 == q4 * 5 + d);
    lemma_fundamental_div_mod_converse(q3 as int, 5, q4 as int, d as int);
    lemma_div_denominator(x, 432, 5);
    assert(x / 2160 == q4);
    assert(q4 == f * 4 + e);
    lemma_fundamental_div_mod_converse(q4 as int, 4, f as int, e as int);
    lemma_div_denominator(x, 2160, 4);
    assert(x / 8640 == f);
    assert(f == 0 * 4 + f);
    lemma_fundamental_div_mod_converse(f as int, 4, 0, f as int);
}

} // verus!
