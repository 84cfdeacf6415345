//! The procedural pipeline: classification, rarity, rendering and the
//! determinism and coverage properties on concrete values.

use std::collections::HashSet;

use orbital_art::classify::ArtStyle;
use orbital_art::svg::SvgGenerator;
use orbital_art::GenError;

#[test]
fn classify_index_zero() {
    assert_eq!(SvgGenerator::get_art_style(0), "Geometric Fractal");
    assert_eq!(SvgGenerator::get_color_palette(0), "Sunset");
    assert_eq!(SvgGenerator::get_pattern_type(0), "Organic");
    assert_eq!(SvgGenerator::get_complexity(0), "Minimal");
    assert_eq!(SvgGenerator::get_symmetry(0), "Radial");
    assert_eq!(SvgGenerator::get_energy_level(0), "Calm");
}

#[test]
fn classify_uses_mixed_radix_divisors() {
    assert_eq!(SvgGenerator::get_art_style(1), "Flow Field");
    assert_eq!(SvgGenerator::get_art_style(6), "Geometric Fractal");
    assert_eq!(SvgGenerator::get_color_palette(6), "Ocean");
    assert_eq!(SvgGenerator::get_color_palette(6 * 11), "Earth");
    assert_eq!(SvgGenerator::get_pattern_type(72), "Geometric");
    assert_eq!(SvgGenerator::get_complexity(432 * 4), "Intricate");
    assert_eq!(SvgGenerator::get_symmetry(2160 * 3), "Rotational");
    assert_eq!(SvgGenerator::get_energy_level(8640 * 2), "Dynamic");
}

#[test]
fn art_style_enum_cycles() {
    assert!(matches!(SvgGenerator::get_art_style_enum(2), ArtStyle::CirclePacking));
    assert!(matches!(SvgGenerator::get_art_style_enum(3), ArtStyle::Mandala));
    assert!(matches!(SvgGenerator::get_art_style_enum(4), ArtStyle::WaveInterference));
    assert!(matches!(SvgGenerator::get_art_style_enum(5), ArtStyle::Crystalline));
}

#[test]
fn rarity_score_exact_values() {
    // Style 50, first palette slot 50, low complexity 10.
    assert_eq!(SvgGenerator::calculate_rarity_score(0), 110);
    // Mandala 100, palette 0 is rare 50, low complexity 10.
    assert_eq!(SvgGenerator::calculate_rarity_score(3), 160);
    // Index 6: style 50, palette 1 (Ocean) 40, complexity 10.
    assert_eq!(SvgGenerator::calculate_rarity_score(6), 100);
    // Index 432 * 4 = 1728: style 50, palette (288 % 12 = 0) 50, Intricate 30.
    assert_eq!(SvgGenerator::calculate_rarity_score(1728), 130);
}

#[test]
fn attributes_deterministic() {
    let a = SvgGenerator::get_attributes(7).unwrap();
    let b = SvgGenerator::get_attributes(7).unwrap();
    assert_eq!(a, b);
}

#[test]
fn svg_deterministic() {
    for index in [0u128, 1, 2, 3, 4, 5, 123] {
        let a = SvgGenerator::generate_svg(index).unwrap();
        let b = SvgGenerator::generate_svg(index).unwrap();
        assert_eq!(a, b);
    }
}

#[test]
fn attributes_json_shape() {
    let doc = SvgGenerator::get_attributes(0).unwrap();
    assert_eq!(
        doc,
        "{\"art_style\":\"Geometric Fractal\",\"color_palette\":\"Sunset\",\
         \"complexity\":\"Minimal\",\"energy_level\":\"Calm\",\
         \"pattern_type\":\"Organic\",\"rarity_score\":110,\"symmetry\":\"Radial\"}"
    );
}

#[test]
fn attributes_out_of_range() {
    assert_eq!(SvgGenerator::get_attributes(3333), Err(GenError::IndexOutOfRange));
    assert_eq!(SvgGenerator::generate_svg(3333), Err(GenError::IndexOutOfRange));
    assert!(SvgGenerator::get_attributes(3332).is_ok());
    assert!(SvgGenerator::generate_svg(3332).is_ok());
}

#[test]
fn classification_covers_all_combinations() {
    // Across one full mixed-radix cycle every category combination appears
    // exactly once: 34560 distinct tuples in 34560 indices.
    let mut seen: HashSet<(String, String, String, String, String, String)> = HashSet::new();
    for index in 0u128..34560 {
        let combo = (
            SvgGenerator::get_art_style(index),
            SvgGenerator::get_color_palette(index),
            SvgGenerator::get_pattern_type(index),
            SvgGenerator::get_complexity(index),
            SvgGenerator::get_symmetry(index),
            SvgGenerator::get_energy_level(index),
        );
        assert!(seen.insert(combo), "repeat combination at index {}", index);
    }
    assert_eq!(seen.len(), 34560);
}

#[test]
fn svg_document_structure() {
    let svg = SvgGenerator::generate_svg(0).unwrap();
    assert!(svg.starts_with("<?xml version=\"1.0\" encoding=\"UTF-8\"?>\n<svg "));
    assert!(svg.ends_with("</svg>"));
    assert!(svg.contains("viewBox=\"0 0 400 400\""));
    assert!(svg.contains("<defs>"));
    assert!(svg.contains("url(#bg-gradient)"));
    assert!(svg.contains(">#0</text>"));
    // Style 0 draws rotated squares.
    assert!(svg.contains("<rect x="));
}

#[test]
fn svg_per_style_primitives() {
    // One index per art style; each style leaves its own primitive.
    assert!(SvgGenerator::generate_svg(1).unwrap().contains("stroke-width=\"2\""));
    assert!(SvgGenerator::generate_svg(2).unwrap().contains("<circle"));
    assert!(SvgGenerator::generate_svg(3).unwrap().contains("opacity=\"0.8\"/>"));
    assert!(SvgGenerator::generate_svg(4).unwrap().contains("stroke-width=\"3\""));
    assert!(SvgGenerator::generate_svg(5).unwrap().contains("<polygon points="));
}

#[test]
fn texture_dot_exact_position() {
    // The first backdrop dot of index 1: seed 1 * 7919, multipliers 73 and
    // 97, radius (7919 % 3) + 1.
    let svg = SvgGenerator::generate_svg(1).unwrap();
    assert!(svg.contains("<circle cx=\"87\" cy=\"143\" r=\"3\" fill=\"white\" opacity=\"0.1\"/>"));
}

#[test]
fn svg_differs_between_indices() {
    let a = SvgGenerator::generate_svg(0).unwrap();
    let b = SvgGenerator::generate_svg(6).unwrap();
    assert_ne!(a, b);
}
