use threadstone::codec::{canonical_json, to_json};
use threadstone::record::{ResultRecord, WorkloadId};

fn small_record() -> ResultRecord {
    ResultRecord {
        workload: WorkloadId::Dhrystone,
        threads: 4,
        samples: 3,
        iterations_per_sample: 50_000,
        values: vec![10, 20, 30],
        average: 20,
        min: 10,
        max: 30,
        sig: None,
    }
}

#[test]
fn canonical_form_is_the_expected_text() {
    let rec = small_record();
    assert_eq!(
        canonical_json(&rec),
        "{\"workload\":\"Dhrystone\",\"threads\":4,\"samples\":3,\
         \"iterations_per_sample\":50000,\"values\":[10,20,30],\
         \"average\":20,\"min\":10,\"max\":30}"
    );
}

#[test]
fn serializing_twice_yields_byte_identical_output() {
    let rec = small_record();
    let first = canonical_json(&rec);
    let second = canonical_json(&rec);
    assert_eq!(first.as_bytes(), second.as_bytes());
    // the full rendering of an unsigned record is the canonical form itself
    assert_eq!(to_json(&rec), first);
}

#[test]
fn absent_signature_is_omitted_not_null() {
    let rec = small_record();
    let text = to_json(&rec);
    assert!(!text.contains("sig"));
    assert!(!text.contains("null"));
}

#[test]
fn canonical_form_ignores_the_signature_field() {
    let unsigned = small_record();
    let mut signed = small_record();
    signed.sig = Some("AAAA".to_string());
    assert_eq!(canonical_json(&unsigned), canonical_json(&signed));
}

#[test]
fn present_signature_is_appended_last() {
    let mut rec = small_record();
    rec.sig = Some("c2lnbmF0dXJl".to_string());
    let text = to_json(&rec);
    assert!(text.ends_with(",\"sig\":\"c2lnbmF0dXJl\"}"));
    assert!(text.starts_with("{\"workload\":\"Dhrystone\""));
}

#[test]
fn single_value_and_zero_render_exactly() {
    let rec = ResultRecord {
        workload: WorkloadId::Stream,
        threads: 1,
        samples: 1,
        iterations_per_sample: 0,
        values: vec![0],
        average: 0,
        min: 0,
        max: 0,
        sig: None,
    };
    assert_eq!(
        canonical_json(&rec),
        "{\"workload\":\"Stream\",\"threads\":1,\"samples\":1,\
         \"iterations_per_sample\":0,\"values\":[0],\
         \"average\":0,\"min\":0,\"max\":0}"
    );
}

#[test]
fn large_numbers_render_in_full() {
    let rec = ResultRecord {
        workload: WorkloadId::Stream,
        threads: 1,
        samples: 1,
        iterations_per_sample: u64::MAX,
        values: vec![u64::MAX],
        average: u64::MAX,
        min: u64::MAX,
        max: u64::MAX,
        sig: None,
    };
    let text = canonical_json(&rec);
    assert!(text.contains("18446744073709551615"));
}
