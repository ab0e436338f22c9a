//! Prompts that ask a language model for filament specifications.

use vstd::prelude::*;
use crate::text::{chars_of, push_all, push_str, string_of};
use vstd::string::StringSliceAdditionalSpecFns;

verus! {

broadcast use vstd::string::group_string_axioms;

/// The JSON schema of the specification object the model must return,
/// pretty-printed with two-space indentation.
pub const SPECS_SCHEMA_TEXT: &'static str = r#"{
  "type": "object",
  "properties": {
    "name": {
      "type": "string",
      "description": "Full filament product name"
    },
    "brand": {
      "type": "string",
      "description": "Manufacturer/brand name"
    },
    "material": {
      "type": "string",
      "description": "Material type: PLA, PETG, ABS, TPU, Nylon, PC, ASA, PVA, HIPS, or other"
    },
    "nozzle_temp_min": {
      "type": [
        "integer",
        "null"
      ],
      "description": "Minimum nozzle temperature in Celsius. null if not found in source."
    },
    "nozzle_temp_max": {
      "type": [
        "integer",
        "null"
      ],
      "description": "Maximum nozzle temperature in Celsius. null if not found in source."
    },
    "bed_temp_min": {
      "type": [
        "integer",
        "null"
      ],
      "description": "Minimum bed temperature in Celsius. null if not found in source."
    },
    "bed_temp_max": {
      "type": [
        "integer",
        "null"
      ],
      "description": "Maximum bed temperature in Celsius. null if not found in source."
    },
    "max_speed_mm_s": {
      "type": [
        "integer",
        "null"
      ],
      "description": "Maximum recommended print speed in mm/s. null if not found."
    },
    "fan_speed_percent": {
      "type": [
        "integer",
        "null"
      ],
      "description": "Recommended cooling fan speed 0-100. null if not found."
    },
    "retraction_distance_mm": {
      "type": [
        "number",
        "null"
      ],
      "description": "Retraction distance in mm. null if not found."
    },
    "retraction_speed_mm_s": {
      "type": [
        "integer",
        "null"
      ],
      "description": "Retraction speed in mm/s. null if not found."
    },
    "density_g_cm3": {
      "type": [
        "number",
        "null"
      ],
      "description": "Material density in g/cm3. null if not found."
    },
    "nozzle_temperature": {
      "type": [
        "integer",
        "null"
      ],
      "description": "Default nozzle temperature for printing in Celsius. This is the main temp, not the range."
    },
    "nozzle_temperature_initial_layer": {
      "type": [
        "integer",
        "null"
      ],
      "description": "Nozzle temperature for the first layer in Celsius. Often 5-10C higher than nozzle_temperature."
    },
    "hot_plate_temp": {
      "type": [
        "integer",
        "null"
      ],
      "description": "Heated/hot plate bed temperature in Celsius."
    },
    "hot_plate_temp_initial_layer": {
      "type": [
        "integer",
        "null"
      ],
      "description": "Heated/hot plate bed temperature for first layer in Celsius."
    },
    "cool_plate_temp": {
      "type": [
        "integer",
        "null"
      ],
      "description": "Cool/smooth PEI plate bed temperature in Celsius."
    },
    "cool_plate_temp_initial_layer": {
      "type": [
        "integer",
        "null"
      ],
      "description": "Cool plate bed temperature for first layer in Celsius."
    },
    "eng_plate_temp": {
      "type": [
        "integer",
        "null"
      ],
      "description": "Engineering plate bed temperature in Celsius."
    },
    "eng_plate_temp_initial_layer": {
      "type": [
        "integer",
        "null"
      ],
      "description": "Engineering plate bed temperature for first layer in Celsius."
    },
    "textured_plate_temp": {
      "type": [
        "integer",
        "null"
      ],
      "description": "Textured plate bed temperature in Celsius."
    },
    "textured_plate_temp_initial_layer": {
      "type": [
        "integer",
        "null"
      ],
      "description": "Textured plate bed temperature for first layer in Celsius."
    },
    "max_volumetric_speed": {
      "type": [
        "number",
        "null"
      ],
      "description": "Maximum volumetric flow rate in mm³/s. The key speed parameter in Bambu Studio."
    },
    "filament_flow_ratio": {
      "type": [
        "number",
        "null"
      ],
      "description": "Extrusion multiplier / flow ratio. Typically 0.95-1.0."
    },
    "pressure_advance": {
      "type": [
        "number",
        "null"
      ],
      "description": "Linear/pressure advance value. Typically 0.01-0.06."
    },
    "fan_min_speed": {
      "type": [
        "integer",
        "null"
      ],
      "description": "Minimum part cooling fan speed 0-100%."
    },
    "fan_max_speed": {
      "type": [
        "integer",
        "null"
      ],
      "description": "Maximum part cooling fan speed 0-100%."
    },
    "overhang_fan_speed": {
      "type": [
        "integer",
        "null"
      ],
      "description": "Fan speed for overhangs 0-100%."
    },
    "close_fan_the_first_x_layers": {
      "type": [
        "integer",
        "null"
      ],
      "description": "Number of initial layers with fan completely off."
    },
    "additional_cooling_fan_speed": {
      "type": [
        "integer",
        "null"
      ],
      "description": "Auxiliary/additional cooling fan speed 0-100%."
    },
    "slow_down_layer_time": {
      "type": [
        "integer",
        "null"
      ],
      "description": "Minimum layer time in seconds before speed reduction."
    },
    "slow_down_min_speed": {
      "type": [
        "integer",
        "null"
      ],
      "description": "Minimum print speed in mm/s when slowing down for cooling."
    },
    "deretraction_speed_mm_s": {
      "type": [
        "integer",
        "null"
      ],
      "description": "De-retraction speed in mm/s."
    },
    "bridge_speed": {
      "type": [
        "integer",
        "null"
      ],
      "description": "Bridge print speed in mm/s."
    },
    "temperature_vitrification": {
      "type": [
        "integer",
        "null"
      ],
      "description": "Glass transition temperature in Celsius."
    },
    "diameter_mm": {
      "type": [
        "number",
        "null"
      ],
      "description": "Filament diameter in mm (usually 1.75)."
    },
    "filament_cost": {
      "type": [
        "number",
        "null"
      ],
      "description": "Filament cost per kg in USD."
    },
    "confidence": {
      "type": "number",
      "description": "Your confidence that the extracted data is correct, 0.0-1.0. Use 0.0 if no data was found in source."
    }
  },
  "required": [
    "name",
    "brand",
    "material",
    "nozzle_temp_min",
    "nozzle_temp_max",
    "bed_temp_min",
    "bed_temp_max",
    "max_speed_mm_s",
    "fan_speed_percent",
    "retraction_distance_mm",
    "retraction_speed_mm_s",
    "density_g_cm3",
    "nozzle_temperature",
    "nozzle_temperature_initial_layer",
    "hot_plate_temp",
    "hot_plate_temp_initial_layer",
    "cool_plate_temp",
    "cool_plate_temp_initial_layer",
    "eng_plate_temp",
    "eng_plate_temp_initial_layer",
    "textured_plate_temp",
    "textured_plate_temp_initial_layer",
    "max_volumetric_speed",
    "filament_flow_ratio",
    "pressure_advance",
    "fan_min_speed",
    "fan_max_speed",
    "overhang_fan_speed",
    "close_fan_the_first_x_layers",
    "additional_cooling_fan_speed",
    "slow_down_layer_time",
    "slow_down_min_speed",
    "deretraction_speed_mm_s",
    "bridge_speed",
    "temperature_vitrification",
    "diameter_mm",
    "filament_cost",
    "confidence"
  ],
  "additionalProperties": false
}"#;

/// Opening of the text-extraction prompt, before the filament name.
pub const EXTRACTION_HEAD: &'static str = r#"Extract 3D printing specifications for the filament ""#;

/// Rules of the text-extraction prompt, between the name and the schema.
pub const EXTRACTION_RULES: &'static str = r#"" from the following text.

RULES:
- Only extract values explicitly stated in the text below.
- If a value is NOT present in the text, return null for that field.
- Do NOT guess, infer, or use general knowledge about filament types.
- Temperature values must be in Celsius.
- Speed values must be in mm/s.
- For Bambu Studio specific fields (nozzle_temperature, plate temps, max_volumetric_speed, filament_flow_ratio, pressure_advance, fan speeds, cooling settings, etc.), extract these if the source provides them. These are distinct from the general temp ranges.
- nozzle_temperature is the single recommended printing temp, NOT the range. nozzle_temp_min/max are the range.
- Plate-specific bed temps (hot_plate_temp, cool_plate_temp, eng_plate_temp, textured_plate_temp) and their initial_layer variants should be extracted if available.
- Set confidence to 0.0 if no printing parameters were found in the text.
- Set confidence to 0.3-0.6 if only some parameters were found.
- Set confidence to 0.7-1.0 if most parameters were found.

Return a JSON object matching this schema:
"#;

/// Heading of the source text in the text-extraction prompt.
pub const EXTRACTION_SOURCE: &'static str = r#"

SOURCE TEXT:
"#;

/// Opening of the HTML-extraction prompt, before the filament name.
pub const HTML_HEAD: &'static str = r#"Extract 3D printing specifications for the filament ""#;

/// Rules of the HTML-extraction prompt, between the name and the schema.
pub const HTML_RULES: &'static str = r#"" from the following HTML page.

RULES:
- Parse the HTML structure directly — look for spec tables, product details, meta tags, JSON-LD structured data, and specification lists.
- Only extract values explicitly stated in the page content.
- If a value is NOT present anywhere in the HTML, return null for that field.
- Do NOT guess, infer, or use general knowledge about filament types.
- Temperature values must be in Celsius. If the page shows Fahrenheit, convert to Celsius.
- Speed values must be in mm/s.
- For Bambu Studio specific fields (nozzle_temperature, plate temps, max_volumetric_speed, filament_flow_ratio, pressure_advance, fan speeds, cooling settings, etc.), extract these if the source provides them. These are distinct from the general temp ranges.
- nozzle_temperature is the single recommended printing temp, NOT the range. nozzle_temp_min/max are the range.
- Plate-specific bed temps (hot_plate_temp, cool_plate_temp, eng_plate_temp, textured_plate_temp) and their initial_layer variants should be extracted if available.
- Look for specs in these common locations:
  - <table> elements with headers like "Specifications", "Properties", "Technical Data"
  - <dl>/<dt>/<dd> definition lists
  - <meta> tags and JSON-LD scripts for product data
  - Product description sections
  - Data sheet download links or embedded PDFs
- Set confidence to 0.0 if no printing parameters were found in the HTML.
- Set confidence to 0.3-0.6 if only some parameters were found.
- Set confidence to 0.7-1.0 if most parameters were found.

Return a JSON object matching this schema:
"#;

/// Heading of the page in the HTML-extraction prompt.
pub const HTML_SOURCE: &'static str = r#"

HTML CONTENT:
"#;

/// Opening of the knowledge prompt, before the filament name.
pub const KNOWLEDGE_HEAD: &'static str = r#"Provide recommended 3D printing specifications for the filament ""#;

/// Guidance of the knowledge prompt, between the name and the schema.
pub const KNOWLEDGE_RULES: &'static str = r#"".

Use your training knowledge about this filament brand and material type. If you know specific recommended settings for this exact filament from manufacturer documentation or community experience, use those. If you don't know this specific filament, provide reasonable defaults based on the material type (PLA, PETG, ABS, etc.) that you can infer from the name.

RULES:
- Parse the filament name to identify the brand (first word typically) and material type.
- Provide your best recommendation for each parameter based on your knowledge.
- Temperature values must be in Celsius.
- Speed values must be in mm/s.
- Set confidence based on how well you know this specific filament:
  - 0.8-1.0 if you have specific knowledge of this exact filament
  - 0.5-0.7 if you're using general knowledge of the material type
  - 0.3-0.4 if you're mostly guessing based on the name

Common material defaults if unknown:
- PLA: nozzle range 190-220°C, bed 50-60°C, fan 100%
  nozzle_temperature 210, initial_layer 215, hot_plate 55, cool_plate 50, eng_plate 55, textured_plate 55
  max_volumetric_speed 21, flow_ratio 0.98, pressure_advance 0.04
  fan_min 100, fan_max 100, overhang_fan 100, close_fan_first_layers 1, additional_cooling_fan 80
  slow_down_layer_time 8, slow_down_min_speed 20, vitrification 55
- PETG: nozzle range 230-250°C, bed 70-85°C, fan 30-50%
  nozzle_temperature 250, initial_layer 255, hot_plate 70, cool_plate 0 (not recommended), eng_plate 70, textured_plate 70
  max_volumetric_speed 18, flow_ratio 0.97, pressure_advance 0.02
  fan_min 20, fan_max 40, overhang_fan 100, close_fan_first_layers 3, additional_cooling_fan 50
  slow_down_layer_time 10, slow_down_min_speed 20, vitrification 60
- ABS: nozzle range 230-260°C, bed 90-110°C, fan 0-30%
  nozzle_temperature 250, initial_layer 255, hot_plate 100, cool_plate 0, eng_plate 100, textured_plate 100
  max_volumetric_speed 16, flow_ratio 0.98, pressure_advance 0.02
  fan_min 0, fan_max 30, overhang_fan 80, close_fan_first_layers 3, additional_cooling_fan 0
  vitrification 100
- TPU: nozzle range 220-240°C, bed 40-60°C, fan 50-80%
  nozzle_temperature 230, initial_layer 230, hot_plate 50, cool_plate 50
  max_volumetric_speed 8, flow_ratio 1.0
  fan_min 50, fan_max 80, close_fan_first_layers 3, vitrification 40

For initial_layer plate temps, use the same value as the corresponding plate temp unless you have specific knowledge otherwise.

Provide all values - do not return null unless you truly cannot determine even a reasonable default.

Return a JSON object matching this schema:
"#;

/// Longest HTML prefix, in bytes, that goes into the HTML prompt.
pub const MAX_HTML_BYTES: usize = 50000;

/// The JSON schema for filament-spec extraction, as text for embedding in prompts.
pub fn filament_specs_schema_text() -> (r: String)
    ensures
        r@ == SPECS_SCHEMA_TEXT@,
{
    SPECS_SCHEMA_TEXT.to_string()
}

/// The text-extraction prompt: it names the filament, states the
/// anti-hallucination rules and the schema, then gives the page text.
pub open spec fn extraction_prompt(filament_name: Seq<char>, page_text: Seq<char>) -> Seq<char> {
    EXTRACTION_HEAD@ + filament_name + EXTRACTION_RULES@ + SPECS_SCHEMA_TEXT@ + EXTRACTION_SOURCE@
        + page_text
}

/// Build the extraction prompt for text taken from a product page.
pub fn build_extraction_prompt(filament_name: &str, page_text: &str) -> (r: String)
    ensures
        r@ == extraction_prompt(filament_name@, page_text@),
{
    let mut v: Vec<char> = Vec::new();
    push_str(&mut v, EXTRACTION_HEAD);
    push_str(&mut v, filament_name);
    push_str(&mut v, EXTRACTION_RULES);
    push_str(&mut v, SPECS_SCHEMA_TEXT);
    push_str(&mut v, EXTRACTION_SOURCE);
    push_str(&mut v, page_text);
    string_of(&v)
}

/// The number of bytes a character takes in UTF-8.
pub open spec fn char_bytes(c: char) -> int {
    if (c as u32) < 0x80 {
        1
    } else if (c as u32) < 0x800 {
        2
    } else if (c as u32) < 0x10000 {
        3
    } else {
        4
    }
}

/// The longest prefix of `s` that takes at most `budget` bytes in UTF-8:
/// the text cut at the last character boundary within the budget.
pub open spec fn kept_chars(s: Seq<char>, budget: int) -> Seq<char>
    decreases s.len(),
{
    if s.len() == 0 || char_bytes(s[0]) > budget {
        Seq::empty()
    } else {
        seq![s[0]] + kept_chars(s.drop_first(), budget - char_bytes(s[0]))
    }
}

/// The page as put in the prompt: the whole page when it takes at most
/// `MAX_HTML_BYTES` bytes, else the page cut at the last character boundary
/// within that many bytes.
pub open spec fn truncated_html(html: &str) -> Seq<char> {
    if html.len() > MAX_HTML_BYTES {
        kept_chars(html@, MAX_HTML_BYTES as int)
    } else {
        html@
    }
}

fn utf8_size(c: char) -> (n: usize)
    ensures
        n == char_bytes(c),
{
    let u = c as u32;
    if u < 0x80 {
        1
    } else if u < 0x800 {
        2
    } else if u < 0x10000 {
        3
    } else {
        4
    }
}

fn cut_to_bytes(v: &Vec<char>, budget: usize) -> (r: Vec<char>)
    ensures
        r@ == kept_chars(v@, budget as int),
{
    let mut r: Vec<char> = Vec::new();
    let mut rem: usize = budget;
    let mut i: usize = 0;
    proof {
        assert(v@.skip(0) =~= v@);
    }
    while i < v.len()
        invariant
            i <= v.len(),
            rem <= budget,
            kept_chars(v@, budget as int) == r@ + kept_chars(v@.skip(i as int), rem as int),
        decreases v.len() - i,
    {
        let ghost rest = v@.skip(i as int);
        proof {
            assert(rest[0] == v@[i as int]);
            assert(rest.drop_first() =~= v@.skip(i + 1));
        }
        let n = utf8_size(v[i]);
        if n > rem {
            proof {
                assert(r@ + kept_chars(rest, rem as int) =~= r@);
            }
            return r;
        }
        r.push(v[i]);
        rem = rem - n;
        proof {
            assert(kept_chars(rest, (rem + n) as int) == seq![v@[i as int]] + kept_chars(v@.skip(i + 1), rem as int));
        }
        i = i + 1;
        proof {
            assert(r@ + kept_chars(v@.skip(i as int), rem as int) =~= r@.drop_last() + (seq![v@[i - 1]] + kept_chars(v@.skip(i as int), rem as int)));
        }
    }
    proof {
        assert(v@.skip(i as int).len() == 0);
        assert(r@ + kept_chars(v@.skip(i as int), rem as int) =~= r@);
    }
    r
}

/// The HTML-extraction prompt: like the text prompt, with rules on where
/// specifications sit in a page, and the (truncated) HTML itself.
pub open spec fn html_extraction_prompt(filament_name: Seq<char>, page: Seq<char>) -> Seq<char> {
    HTML_HEAD@ + filament_name + HTML_RULES@ + SPECS_SCHEMA_TEXT@ + HTML_SOURCE@ + page
}

/// Build the extraction prompt for raw HTML, keeping at most the first
/// `MAX_HTML_BYTES` bytes of the page, cut at a character boundary.
pub fn build_html_extraction_prompt(filament_name: &str, html: &str) -> (r: String)
    ensures
        r@ == html_extraction_prompt(filament_name@, truncated_html(html)),
{
    let page = chars_of(html);
    let truncated: Vec<char> = if html.len() > MAX_HTML_BYTES {
        cut_to_bytes(&page, MAX_HTML_BYTES)
    } else {
        page
    };
    let mut v: Vec<char> = Vec::new();
    push_str(&mut v, HTML_HEAD);
    push_str(&mut v, filament_name);
    push_str(&mut v, HTML_RULES);
    push_str(&mut v, SPECS_SCHEMA_TEXT);
    push_str(&mut v, HTML_SOURCE);
    push_all(&mut v, &truncated);
    string_of(&v)
}

/// The knowledge prompt: it asks for recommended settings from what the
/// model knows of the filament, with material defaults, then the schema.
pub open spec fn knowledge_prompt(filament_name: Seq<char>) -> Seq<char> {
    KNOWLEDGE_HEAD@ + filament_name + KNOWLEDGE_RULES@ + SPECS_SCHEMA_TEXT@
}

/// Build the prompt that asks for specifications from the model's knowledge.
pub fn build_knowledge_prompt(filament_name: &str) -> (r: String)
    ensures
        r@ == knowledge_prompt(filament_name@),
{
    let mut v: Vec<char> = Vec::new();
    push_str(&mut v, KNOWLEDGE_HEAD);
    push_str(&mut v, filament_name);
    push_str(&mut v, KNOWLEDGE_RULES);
    push_str(&mut v, SPECS_SCHEMA_TEXT);
    string_of(&v)
}

} // verus!
