//! The table-driven pipeline: codec round trips, bounds, trait resolution,
//! template completeness and composition.

use orbital_art::codec::{decode, encode, FieldSchema};
use orbital_art::table::{attributes_doc, TraitTable};
use orbital_art::template::{validate_templates, TemplateLibrary};
use orbital_art::GenError;

fn schema8() -> FieldSchema {
    // background, outerEyes, nose, mouth, eyes, headAccessory,
    // bodyAccessory, species: widths summing to 39 bits.
    FieldSchema { widths: vec![5, 4, 4, 5, 6, 7, 5, 3] }
}

fn categories8() -> Vec<String> {
    vec![
        "background".to_string(),
        "outerEyes".to_string(),
        "nose".to_string(),
        "mouth".to_string(),
        "eyes".to_string(),
        "headAccessory".to_string(),
        "bodyAccessory".to_string(),
        "species".to_string(),
    ]
}

#[test]
fn codec_round_trip_eight_fields() {
    let schema = schema8();
    let values: Vec<u128> = vec![17, 9, 3, 22, 41, 99, 30, 5];
    let packed = encode(&values, &schema).unwrap();
    let decoded = decode(packed, &schema).unwrap();
    assert_eq!(decoded, values);
}

#[test]
fn codec_round_trip_extremes() {
    let schema = schema8();
    let zeros: Vec<u128> = vec![0; 8];
    assert_eq!(decode(encode(&zeros, &schema).unwrap(), &schema).unwrap(), zeros);
    let maxed: Vec<u128> = vec![31, 15, 15, 31, 63, 127, 31, 7];
    assert_eq!(decode(encode(&maxed, &schema).unwrap(), &schema).unwrap(), maxed);
}

#[test]
fn codec_least_significant_field_first() {
    let schema = FieldSchema { widths: vec![4, 4] };
    // 0xA in the low field, 0x3 in the next.
    assert_eq!(decode(0x3A, &schema).unwrap(), vec![0xA, 0x3]);
    assert_eq!(encode(&vec![0xA, 0x3], &schema).unwrap(), 0x3A);
}

#[test]
fn codec_full_capacity() {
    let schema = FieldSchema { widths: vec![64, 64] };
    let values: Vec<u128> = vec![u64::MAX as u128, 12345];
    let packed = encode(&values, &schema).unwrap();
    assert_eq!(decode(packed, &schema).unwrap(), values);
}

#[test]
fn schema_overflow_rejected() {
    let schema = FieldSchema { widths: vec![64, 64, 1] };
    assert_eq!(decode(0, &schema), Err(GenError::SchemaOverflow));
    assert_eq!(encode(&vec![0, 0, 0], &schema), Err(GenError::SchemaOverflow));
}

#[test]
fn encode_rejects_oversized_value() {
    let schema = FieldSchema { widths: vec![4, 4] };
    assert_eq!(encode(&vec![16, 0], &schema), Err(GenError::MalformedTable));
    assert_eq!(encode(&vec![0], &schema), Err(GenError::MalformedTable));
}

fn small_table() -> TraitTable {
    TraitTable {
        schema: FieldSchema { widths: vec![2, 1, 1, 1, 1, 1, 1, 2] },
        categories: categories8(),
        names: vec![
            vec!["Blue".to_string(), "Red".to_string(), "Gold".to_string()],
            vec!["Round".to_string(), "Sharp".to_string()],
            vec!["Button".to_string(), "Long".to_string()],
            vec!["Smile".to_string(), "Frown".to_string()],
            vec!["Green".to_string(), "Hazel".to_string()],
            vec!["none".to_string(), "Crown".to_string()],
            vec!["none".to_string(), "Scarf".to_string()],
            vec!["Fox".to_string(), "Owl".to_string(), "Toad".to_string()],
        ],
        packed: vec![0, 0b10_1_1_1_1_1_1_01, 0xFFFF],
    }
}

fn full_library(table: &TraitTable) -> TemplateLibrary {
    // A fragment for every trait name under every layer that can need it.
    let mut entries: Vec<(String, String, String)> = Vec::new();
    let layer_sources = [
        ("background", "background"),
        ("body", "species"),
        ("nipples", "species"),
        ("bodyAccessory", "bodyAccessory"),
        ("ears", "species"),
        ("head", "species"),
        ("headAccessory", "headAccessory"),
        ("nose", "nose"),
        ("outerEyes", "outerEyes"),
        ("eyes", "eyes"),
        ("mouth", "mouth"),
    ];
    for (layer, source) in layer_sources {
        for (c, cat) in table.categories.iter().enumerate() {
            if cat == source {
                for name in &table.names[c] {
                    if name != "none" {
                        let frag = format!("<g id=\"{}-{}\"/>", layer, name);
                        entries.push((layer.to_string(), name.clone(), frag));
                    }
                }
            }
        }
    }
    TemplateLibrary { entries }
}

#[test]
fn table_validates() {
    assert_eq!(small_table().validate(), Ok(()));
}

#[test]
fn malformed_table_rejected() {
    let mut table = small_table();
    table.categories.pop();
    assert_eq!(table.validate(), Err(GenError::MalformedTable));
    let mut wide = small_table();
    wide.schema = FieldSchema { widths: vec![100; 8] };
    assert_eq!(wide.validate(), Err(GenError::SchemaOverflow));
}

#[test]
fn packed_zero_resolves_first_trait_of_every_category() {
    let table = small_table();
    let names = table.resolve_all(0).unwrap();
    assert_eq!(
        names,
        vec!["Blue", "Round", "Button", "Smile", "Green", "none", "none", "Fox"]
    );
}

#[test]
fn attributes_skip_internal_categories() {
    let table = small_table();
    let doc = table.get_attributes(0).unwrap();
    assert_eq!(
        doc,
        "{\"background\":\"Blue\",\"mouth\":\"Smile\",\"eyes\":\"Green\",\
         \"headAccessory\":\"none\",\"bodyAccessory\":\"none\",\"species\":\"Fox\"}"
    );
    assert!(!doc.contains("nose"));
    assert!(!doc.contains("outerEyes"));
}

#[test]
fn attributes_decode_nonzero_packed() {
    let table = small_table();
    // packed = 0b10_1_1_1_1_1_1_01: low field (background, 2 bits) = 1,
    // then six one-bit fields all 1, then species (2 bits) = 2.
    let names = table.resolve_all(1).unwrap();
    assert_eq!(
        names,
        vec!["Red", "Sharp", "Long", "Frown", "Hazel", "Crown", "Scarf", "Toad"]
    );
}

#[test]
fn index_out_of_range_rejected() {
    let table = small_table();
    assert_eq!(table.get_attributes(3), Err(GenError::IndexOutOfRange));
    assert_eq!(table.resolve_all(100), Err(GenError::IndexOutOfRange));
}

#[test]
fn unknown_trait_code_rejected() {
    let table = small_table();
    // 0xFFFF decodes background = 3, past its three names.
    assert_eq!(table.get_attributes(2), Err(GenError::UnknownTraitCode));
    assert_eq!(table.resolve(0, 3), Err(GenError::UnknownTraitCode));
    assert_eq!(table.resolve(0, 2), Ok("Gold".to_string()));
}

#[test]
fn template_completeness_holds_for_full_library() {
    let table = small_table();
    let lib = full_library(&table);
    assert!(validate_templates(&table.categories, &table.names, &lib));
}

#[test]
fn template_completeness_fails_on_missing_fragment() {
    let table = small_table();
    let mut lib = full_library(&table);
    lib.entries.retain(|e| !(e.0 == "head" && e.1 == "Owl"));
    assert!(!validate_templates(&table.categories, &table.names, &lib));
}

#[test]
fn compose_layers_in_order() {
    let table = small_table();
    let lib = full_library(&table);
    let doc = table.get_data(0, &lib).unwrap();
    assert!(doc.starts_with("<svg "));
    assert!(doc.ends_with("</svg>"));
    let bg = doc.find("<g id=\"background-Blue\"/>").unwrap();
    let body = doc.find("<g id=\"body-Fox\"/>").unwrap();
    let ears = doc.find("<g id=\"ears-Fox\"/>").unwrap();
    let mouth = doc.find("<g id=\"mouth-Smile\"/>").unwrap();
    assert!(bg < body && body < ears && ears < mouth);
    // Optional accessories are "none" at index 0 and leave no layer.
    assert!(!doc.contains("bodyAccessory-"));
    assert!(!doc.contains("headAccessory-"));
}

#[test]
fn compose_draws_accessories_when_present() {
    let table = small_table();
    let lib = full_library(&table);
    let doc = table.get_data(1, &lib).unwrap();
    assert!(doc.contains("<g id=\"bodyAccessory-Scarf\"/>"));
    assert!(doc.contains("<g id=\"headAccessory-Crown\"/>"));
}

#[test]
fn compose_missing_template_is_fatal() {
    let table = small_table();
    let mut lib = full_library(&table);
    lib.entries.retain(|e| !(e.0 == "mouth" && e.1 == "Smile"));
    assert_eq!(table.get_data(0, &lib), Err(GenError::MissingTemplate));
}

#[test]
fn attributes_doc_plain_pairs() {
    let cats = vec!["species".to_string(), "mood".to_string()];
    let vals = vec!["Fox".to_string(), "Calm".to_string()];
    assert_eq!(attributes_doc(&cats, &vals), "{\"species\":\"Fox\",\"mood\":\"Calm\"}");
}
