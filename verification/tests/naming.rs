use pbr_textures::{merge_output_name, split_output_names, strip_suffix};

#[test]
fn split_names_from_a_stem_with_the_suffix() {
    let (metallic, roughness) = split_output_names("WoodMetallicSmoothness");
    assert_eq!(metallic, "WoodMetallic.png");
    assert_eq!(roughness, "WoodRoughness.png");
}

#[test]
fn split_names_from_a_stem_without_the_suffix() {
    let (metallic, roughness) = split_output_names("Wood");
    assert_eq!(metallic, "WoodMetallic.png");
    assert_eq!(roughness, "WoodRoughness.png");
}

#[test]
fn merge_name_from_a_stem_with_the_suffix() {
    assert_eq!(merge_output_name("WoodMetallic"), "WoodMetallicSmoothness.png");
}

#[test]
fn merge_name_from_a_stem_without_the_suffix() {
    assert_eq!(merge_output_name("Wood"), "WoodMetallicSmoothness.png");
    assert_eq!(merge_output_name("WoodRoughness"), "WoodRoughnessMetallicSmoothness.png");
}

#[test]
fn split_strips_only_the_whole_suffix() {
    let (metallic, roughness) = split_output_names("WoodMetallic");
    assert_eq!(metallic, "WoodMetallicMetallic.png");
    assert_eq!(roughness, "WoodMetallicRoughness.png");
    let (metallic, _) = split_output_names("WoodSmoothness");
    assert_eq!(metallic, "WoodSmoothnessMetallic.png");
}

#[test]
fn suffix_is_case_sensitive() {
    let (metallic, roughness) = split_output_names("woodmetallicsmoothness");
    assert_eq!(metallic, "woodmetallicsmoothnessMetallic.png");
    assert_eq!(roughness, "woodmetallicsmoothnessRoughness.png");
    assert_eq!(merge_output_name("Woodmetallic"), "WoodmetallicMetallicSmoothness.png");
}

#[test]
fn suffix_must_stand_at_the_end() {
    let (metallic, _) = split_output_names("MetallicSmoothnessWood");
    assert_eq!(metallic, "MetallicSmoothnessWoodMetallic.png");
    let (metallic, _) = split_output_names("WoodMetallicSmoothness2");
    assert_eq!(metallic, "WoodMetallicSmoothness2Metallic.png");
    assert_eq!(merge_output_name("MetallicWood"), "MetallicWoodMetallicSmoothness.png");
}

#[test]
fn suffix_is_stripped_once() {
    let (metallic, _) = split_output_names("WoodMetallicSmoothnessMetallicSmoothness");
    assert_eq!(metallic, "WoodMetallicSmoothnessMetallic.png");
    assert_eq!(merge_output_name("WoodMetallicMetallic"), "WoodMetallicMetallicSmoothness.png");
}

#[test]
fn stem_that_is_only_the_suffix() {
    let (metallic, roughness) = split_output_names("MetallicSmoothness");
    assert_eq!(metallic, "Metallic.png");
    assert_eq!(roughness, "Roughness.png");
    assert_eq!(merge_output_name("Metallic"), "MetallicSmoothness.png");
}

#[test]
fn empty_stem() {
    let (metallic, roughness) = split_output_names("");
    assert_eq!(metallic, "Metallic.png");
    assert_eq!(roughness, "Roughness.png");
    assert_eq!(merge_output_name(""), "MetallicSmoothness.png");
}

#[test]
fn stems_beyond_ascii() {
    let (metallic, roughness) = split_output_names("Hölzern ÄMetallicSmoothness");
    assert_eq!(metallic, "Hölzern ÄMetallic.png");
    assert_eq!(roughness, "Hölzern ÄRoughness.png");
    assert_eq!(merge_output_name("木Metallic"), "木MetallicSmoothness.png");
    assert_eq!(merge_output_name("Metallic木"), "Metallic木MetallicSmoothness.png");
}

#[test]
fn names_of_a_split_merge_back_to_the_combined_name() {
    for stem in ["WoodMetallicSmoothness", "Wood", "", "a.b", "MetallicSmoothness"] {
        let (metallic, _) = split_output_names(stem);
        let metallic_stem = metallic.strip_suffix(".png").unwrap();
        let base = strip_suffix(stem, "MetallicSmoothness");
        assert_eq!(merge_output_name(metallic_stem), format!("{}MetallicSmoothness.png", base));
    }
}

#[test]
fn strip_suffix_removes_a_suffix_at_the_end() {
    assert_eq!(strip_suffix("WoodMetallic", "Metallic"), "Wood");
    assert_eq!(strip_suffix("Metallic", "Metallic"), "");
    assert_eq!(strip_suffix("äöü", "öü"), "ä");
}

#[test]
fn strip_suffix_returns_other_names_whole() {
    assert_eq!(strip_suffix("Wood", "Metallic"), "Wood");
    assert_eq!(strip_suffix("lic", "Metallic"), "lic");
    assert_eq!(strip_suffix("WoodMetallik", "Metallic"), "WoodMetallik");
    assert_eq!(strip_suffix("", "Metallic"), "");
    assert_eq!(strip_suffix("Wood", ""), "Wood");
}

#[test]
fn strip_suffix_agrees_with_the_standard_library() {
    let names = ["", "a", "Metallic", "xMetallic", "Metallicx", "MetallicMetallic", "éMetallic", "Metalli"];
    for name in names {
        let expected = name.strip_suffix("Metallic").unwrap_or(name);
        assert_eq!(strip_suffix(name, "Metallic"), expected);
    }
}
