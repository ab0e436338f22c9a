use bambumate::scraper::html_extractor::{extract, infer_brand, infer_material, parse_temp_range};

#[test]
fn test_parse_temp_range_dash() {
    assert_eq!(parse_temp_range("200-230°C"), Some((200, 230)));
}

#[test]
fn test_parse_temp_range_to() {
    assert_eq!(parse_temp_range("200 to 230 °C"), Some((200, 230)));
}

#[test]
fn test_parse_temp_range_single() {
    assert_eq!(parse_temp_range("210°C"), Some((210, 210)));
}

#[test]
fn test_parse_temp_range_none() {
    assert_eq!(parse_temp_range("some random text"), None);
}

#[test]
fn test_extract_regex_nozzle_range() {
    let html = "<html><body><p>Nozzle Temperature: 200-230°C, Bed: 55-65°C</p></body></html>";
    let specs = extract(html, "Test PLA");
    assert_eq!(specs.nozzle_temp_min, Some(200));
    assert_eq!(specs.nozzle_temp_max, Some(230));
    assert_eq!(specs.bed_temp_min, Some(55));
    assert_eq!(specs.bed_temp_max, Some(65));
    assert!(specs.extraction_confidence > 0);
}

#[test]
fn test_infer_material() {
    assert_eq!(infer_material("Polymaker PLA Pro"), "PLA");
    assert_eq!(infer_material("eSUN PETG-CF"), "PETG");
    assert_eq!(infer_material("Bambu Lab ABS"), "ABS");
}

#[test]
fn infer_material_nylon_and_unknown() {
    assert_eq!(infer_material("Polymaker Nylon"), "PA");
    assert_eq!(infer_material("Wood Fill"), "Wood Fill");
}

#[test]
fn infer_brand_first_word() {
    assert_eq!(infer_brand("  Polymaker PLA Pro"), "Polymaker");
    assert_eq!(infer_brand("   "), "");
}

#[test]
fn extract_regex_confidence_and_midpoints() {
    let html = "<html><body><p>Nozzle Temperature: 200-230°C, Bed: 55-65°C</p></body></html>";
    let specs = extract(html, "Test PLA");
    // 0.15 nozzle range + 0.08 bed range + 0.05 for both.
    assert_eq!(specs.extraction_confidence, 280);
    assert_eq!(specs.nozzle_temperature, Some(215));
    assert_eq!(specs.hot_plate_temp, Some(60));
    assert_eq!(specs.textured_plate_temp, Some(60));
    assert_eq!(specs.diameter_mm, Some(1750));
    assert_eq!(specs.material, "PLA");
    assert_eq!(specs.brand, "Test");
    assert_eq!(specs.source_url, "");
}

#[test]
fn extract_from_table_rows() {
    let html = "<table><tr><th>Printing Temp / Nozzle</th><td>190 - 220 °C</td></tr>\
                <tr><td>Heated Bed</td><td>50-60°C</td></tr>\
                <tr><td>Density</td><td>1.24 g/cm³</td></tr></table>";
    let specs = extract(html, "Acme PLA");
    assert_eq!(specs.nozzle_temp_min, Some(190));
    assert_eq!(specs.nozzle_temp_max, Some(220));
    assert_eq!(specs.bed_temp_min, Some(50));
    assert_eq!(specs.bed_temp_max, Some(60));
    assert_eq!(specs.density_g_cm3, Some(1240));
    // 0.20 + 0.10 from the table, 0.05 for both.
    assert_eq!(specs.extraction_confidence, 350);
}

#[test]
fn extract_from_json_ld() {
    let html = r#"<html><head><script type="application/ld+json">
        {"@type": "Product", "name": "Fancy PETG",
         "additionalProperty": [
            {"name": "Nozzle Temperature", "value": "230-250°C"},
            {"name": "Bed Temperature", "value": "70-80°C"},
            {"name": "Diameter", "value": "1.75mm"}
         ]}
        </script></head><body></body></html>"#;
    let specs = extract(html, "");
    assert_eq!(specs.name, "Fancy PETG");
    assert_eq!(specs.nozzle_temp_min, Some(230));
    assert_eq!(specs.nozzle_temp_max, Some(250));
    assert_eq!(specs.bed_temp_min, Some(70));
    assert_eq!(specs.bed_temp_max, Some(80));
    assert_eq!(specs.diameter_mm, Some(1750));
    // 0.35 + 0.15 from JSON-LD, 0.05 for both.
    assert_eq!(specs.extraction_confidence, 550);
}

#[test]
fn extract_confidence_is_capped() {
    let html = r#"<script type="application/ld+json">
        [{"additionalProperty": [{"name": "Print temp", "value": "200-220C"},
                                 {"name": "Nozzle", "value": "205-215C"}]}]
        </script>"#;
    let specs = extract(html, "X PLA");
    // 0.35 twice, then 0.05: capped at 0.65.
    assert_eq!(specs.extraction_confidence, 650);
    assert_eq!(specs.nozzle_temp_min, Some(205));
}

#[test]
fn extract_nothing_found() {
    let specs = extract("<html><body><p>Hello</p></body></html>", "Mystery");
    assert_eq!(specs.nozzle_temp_min, None);
    assert_eq!(specs.bed_temp_min, None);
    assert_eq!(specs.extraction_confidence, 0);
    assert_eq!(specs.material, "Mystery");
}
