use serde_json::Value;
use threadstone::schema::schema_json;

#[test]
fn schema_subcommand_produces_valid_json() {
    // the schema artifact, as the schema subcommand emits it
    let output = schema_json();

    // parse it as JSON and do a very basic sanity check
    let v: Value = serde_json::from_str(&output).expect("should be valid JSON");
    // for example, it should have a "properties" object
    assert!(v.get("properties").is_some(), "schema must have properties");
}

#[test]
fn schema_names_its_dialect() {
    let output = schema_json();
    let v: Value = serde_json::from_str(&output).expect("should be valid JSON");
    assert!(v.get("$schema").is_some(), "Schema should contain $schema field");
}

#[test]
fn schema_requires_every_measurement_field() {
    let v: Value = serde_json::from_str(&schema_json()).unwrap();
    let required: Vec<String> = v["required"]
        .as_array()
        .unwrap()
        .iter()
        .map(|x| x.as_str().unwrap().to_string())
        .collect();
    for field in [
        "workload",
        "threads",
        "samples",
        "iterations_per_sample",
        "values",
        "average",
        "min",
        "max",
    ] {
        assert!(required.iter().any(|r| r == field), "{} must be required", field);
    }
    assert!(!required.iter().any(|r| r == "sig"), "sig is optional");
    assert!(v["properties"].get("sig").is_some(), "sig is still described");
}
