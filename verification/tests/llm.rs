use mekanikci::llm::parser::{braces_out_of_order, clean_llm_output, json_candidate, LlmOutputError};
use mekanikci::llm::prompt::PromptManager;
use mekanikci::llm::validation::{conveyor_field_rules, report_violations, validation_outcome, ValidationError};

/// Frames the answer and decodes it as a JSON value the way the
/// specification parser does: the outermost object first, then the whole
/// text.
fn decode(text: &str) -> Result<serde_json::Value, String> {
    let cleaned = clean_llm_output(text).map_err(|e| e.message())?;
    assert!(!braces_out_of_order(&cleaned));
    if let Some(candidate) = json_candidate(&cleaned) {
        if let Ok(value) = serde_json::from_str::<serde_json::Value>(&candidate) {
            return Ok(value);
        }
    }
    serde_json::from_str::<serde_json::Value>(&cleaned).map_err(|e| e.to_string())
}

#[test]
fn test_parse_valid_conveyor_spec() {
    let json = r#"{
            "length_mm": 2000.0,
            "belt_width_mm": 500.0,
            "motor": { "frame": "nema23", "mount": "underneath" },
            "frame_extrusion": "40x40",
            "roller_diameter_mm": 50.0,
            "height_mm": 900.0,
            "support_legs": true,
            "belt_type": "flat",
            "load_capacity_kg": null,
            "speed_m_per_s": null
        }"#;
    let spec = decode(json).unwrap();
    assert_eq!(spec["length_mm"].as_f64(), Some(2000.0));
}

#[test]
fn test_parse_invalid_json_returns_err() {
    let result = decode("not json");
    assert!(result.is_err());
}

#[test]
fn test_parse_empty_returns_err() {
    let result = clean_llm_output("");
    assert!(result.is_err());
    assert!(result.unwrap_err().message().contains("empty"));
}

#[test]
fn test_parse_with_markdown_fences() {
    let json = "```json\n{\"length_mm\": 1000.0, \"belt_width_mm\": 200.0, \"roller_diameter_mm\": 50.0, \"motor\": {\"frame\": \"nema17\", \"mount\": \"underneath\"}}\n```";
    let spec = decode(json).unwrap();
    assert_eq!(spec["length_mm"].as_f64(), Some(1000.0));
}

#[test]
fn test_parse_with_leading_text() {
    let json = "Here is the JSON: {\"length_mm\": 1500.0, \"belt_width_mm\": 300.0, \"roller_diameter_mm\": 50.0, \"motor\": {\"frame\": \"nema23\", \"mount\": \"side\"}}";
    let spec = decode(json).unwrap();
    assert_eq!(spec["length_mm"].as_f64(), Some(1500.0));
}

#[test]
fn test_system_prompt_returns_string() {
    let prompt = PromptManager::system_prompt();
    assert!(prompt.is_empty());
}

#[test]
fn build_prompt_is_empty_for_now() {
    assert!(PromptManager::build_prompt("2 meter conveyor").is_empty());
}

#[test]
fn clean_trims_and_strips_fences() {
    assert_eq!(clean_llm_output("  {\"a\": 1}\n").unwrap(), "{\"a\": 1}");
    assert_eq!(clean_llm_output("```json\n {\"a\": 1} \n```").unwrap(), "{\"a\": 1}");
    assert_eq!(clean_llm_output("```\n{\"a\": 1}\n```").unwrap(), "{\"a\": 1}");
    // An opening fence without a closing one is left in place.
    assert_eq!(clean_llm_output("```json\n{\"a\": 1}").unwrap(), "```json\n{\"a\": 1}");
    // A lone fence is kept as it is.
    assert_eq!(clean_llm_output("```").unwrap(), "```");
    assert_eq!(clean_llm_output("``````").unwrap(), "");
}

#[test]
fn clean_refuses_white_space_only() {
    assert_eq!(clean_llm_output(" \n\t "), Err(LlmOutputError::Empty));
    assert_eq!(
        LlmOutputError::Empty.message(),
        "LLM returned empty output, expected a ConveyorSpec JSON object"
    );
}

#[test]
fn candidate_spans_first_open_to_last_close() {
    assert_eq!(json_candidate("x {a} y {b} z"), Some("{a} y {b}".to_string()));
    assert_eq!(json_candidate("no braces"), None);
    assert_eq!(json_candidate("only { open"), None);
    assert_eq!(json_candidate("}{"), Some(String::new()));
    assert_eq!(json_candidate("é{ü}"), Some("{ü}".to_string()));
}

#[test]
fn braces_out_of_order_detects_reversed_pair() {
    assert!(braces_out_of_order("} x {"));
    assert!(!braces_out_of_order("}{"));
    assert!(!braces_out_of_order("{ }"));
    assert!(!braces_out_of_order("{"));
}

#[test]
fn field_rules_and_messages() {
    let rules = conveyor_field_rules();
    assert_eq!(rules.len(), 3);
    assert_eq!((rules[0].field.as_str(), rules[0].min, rules[0].max), ("length_mm", 100, 10000));
    assert_eq!((rules[1].field.as_str(), rules[1].min, rules[1].max), ("belt_width_mm", 10, 2000));
    assert_eq!((rules[2].field.as_str(), rules[2].min, rules[2].max), ("roller_diameter_mm", 10, 200));
    let err = rules[0].violation(&format!("{}", 0.0f64));
    assert_eq!(err.field, "length_mm");
    assert_eq!(err.message, "must be 100\u{2013}10000, got 0");
    let err = rules[2].violation(&format!("{}", 5.5f64));
    assert_eq!(err.message, "must be 10\u{2013}200, got 5.5");
}

#[test]
fn validation_outcome_is_ok_only_without_errors() {
    assert!(validation_outcome(Vec::new()).is_ok());
    let errors = vec![
        ValidationError { field: "length_mm".into(), message: "m".into() },
        ValidationError { field: "belt_width_mm".into(), message: "n".into() },
    ];
    let found = validation_outcome(errors).unwrap_err();
    assert_eq!(found.len(), 2);
    assert_eq!(found[0].field, "length_mm");
    assert_eq!(found[1].field, "belt_width_mm");
}

#[test]
fn clean_trims_unicode_white_space() {
    assert_eq!(clean_llm_output("\u{3000}\u{a0}{}\u{2028}\u{85}").unwrap(), "{}");
    assert_eq!(clean_llm_output("{}").unwrap(), "{}");
}

#[test]
fn report_violations_in_rule_order() {
    let shown = vec!["0".to_string(), "3000".to_string(), "5".to_string()];
    assert!(report_violations(&vec![false, false, false], &shown).is_ok());
    let errs = report_violations(&vec![true, false, true], &shown).unwrap_err();
    assert_eq!(errs.len(), 2);
    assert_eq!(errs[0].field, "length_mm");
    assert_eq!(errs[0].message, "must be 100\u{2013}10000, got 0");
    assert_eq!(errs[1].field, "roller_diameter_mm");
    assert_eq!(errs[1].message, "must be 10\u{2013}200, got 5");
    let errs = report_violations(&vec![true, true, true], &shown).unwrap_err();
    assert!(errs.len() >= 2);
    assert_eq!(errs[1].field, "belt_width_mm");
}
