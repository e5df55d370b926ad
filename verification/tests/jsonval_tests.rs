use threadstone::jsonval::{
    record_of_json, to_json_value, validate, FieldId, JsonValue, Violation, ViolationKind,
};
use threadstone::record::{ResultRecord, WorkloadId};

fn field(key: &str, v: JsonValue) -> (String, JsonValue) {
    (key.to_string(), v)
}

fn good_doc() -> JsonValue {
    JsonValue::Obj(vec![
        field("workload", JsonValue::Text("Dhrystone".to_string())),
        field("threads", JsonValue::UInt(4)),
        field("samples", JsonValue::UInt(3)),
        field("iterations_per_sample", JsonValue::UInt(50_000)),
        field(
            "values",
            JsonValue::Arr(vec![JsonValue::UInt(10), JsonValue::UInt(20), JsonValue::UInt(30)]),
        ),
        field("average", JsonValue::UInt(20)),
        field("min", JsonValue::UInt(10)),
        field("max", JsonValue::UInt(30)),
    ])
}

#[test]
fn a_conforming_document_validates_cleanly() {
    assert_eq!(validate(&good_doc()), vec![]);
}

#[test]
fn sample_count_must_match_the_values_length() {
    // samples = 3, but only two values: rejected, pointing at `values`
    let doc = JsonValue::Obj(vec![
        field("workload", JsonValue::Text("Dhrystone".to_string())),
        field("threads", JsonValue::UInt(4)),
        field("samples", JsonValue::UInt(3)),
        field("iterations_per_sample", JsonValue::UInt(50_000)),
        field("values", JsonValue::Arr(vec![JsonValue::UInt(10), JsonValue::UInt(30)])),
        field("average", JsonValue::UInt(20)),
        field("min", JsonValue::UInt(10)),
        field("max", JsonValue::UInt(30)),
    ]);
    let viols = validate(&doc);
    assert!(viols.contains(&Violation {
        field: FieldId::Values,
        kind: ViolationKind::LengthMismatch,
    }));
    assert_eq!(FieldId::Values.path(), "values");
    assert!(record_of_json(&doc).is_none());
}

#[test]
fn a_non_object_is_one_violation() {
    let viols = validate(&JsonValue::UInt(5));
    assert_eq!(
        viols,
        vec![Violation { field: FieldId::Record, kind: ViolationKind::NotAnObject }]
    );
}

#[test]
fn missing_and_mistyped_fields_are_each_reported() {
    let doc = JsonValue::Obj(vec![
        field("workload", JsonValue::Text("Spectre".to_string())),
        field("threads", JsonValue::UInt(0)),
        field("samples", JsonValue::OtherNum),
        field("values", JsonValue::Text("nope".to_string())),
        field("average", JsonValue::UInt(20)),
        field("min", JsonValue::UInt(10)),
        field("max", JsonValue::UInt(30)),
        field("sig", JsonValue::Null),
    ]);
    let viols = validate(&doc);
    assert_eq!(
        viols,
        vec![
            Violation { field: FieldId::Workload, kind: ViolationKind::BadValue },
            Violation { field: FieldId::Threads, kind: ViolationKind::BadValue },
            Violation { field: FieldId::Samples, kind: ViolationKind::WrongType },
            Violation { field: FieldId::IterationsPerSample, kind: ViolationKind::MissingField },
            Violation { field: FieldId::Values, kind: ViolationKind::WrongType },
            Violation { field: FieldId::Sig, kind: ViolationKind::WrongType },
        ]
    );
}

#[test]
fn wrong_statistics_are_reported_per_field() {
    let doc = JsonValue::Obj(vec![
        field("workload", JsonValue::Text("Stream".to_string())),
        field("threads", JsonValue::UInt(1)),
        field("samples", JsonValue::UInt(2)),
        field("iterations_per_sample", JsonValue::UInt(5)),
        field("values", JsonValue::Arr(vec![JsonValue::UInt(10), JsonValue::UInt(20)])),
        field("average", JsonValue::UInt(99)),
        field("min", JsonValue::UInt(10)),
        field("max", JsonValue::UInt(19)),
    ]);
    let viols = validate(&doc);
    assert_eq!(
        viols,
        vec![
            Violation { field: FieldId::Average, kind: ViolationKind::StatsMismatch },
            Violation { field: FieldId::Max, kind: ViolationKind::StatsMismatch },
        ]
    );
    assert_eq!(
        ViolationKind::StatsMismatch.describe(),
        "a statistic does not match the values"
    );
}

#[test]
fn a_conforming_document_reads_back_as_a_record() {
    let rec = record_of_json(&good_doc()).unwrap();
    assert_eq!(rec.workload, WorkloadId::Dhrystone);
    assert_eq!(rec.threads, 4);
    assert_eq!(rec.samples, 3);
    assert_eq!(rec.iterations_per_sample, 50_000);
    assert_eq!(rec.values, vec![10, 20, 30]);
    assert_eq!(rec.average, 20);
    assert_eq!(rec.min, 10);
    assert_eq!(rec.max, 30);
    assert!(rec.sig.is_none());
}

#[test]
fn a_record_renders_and_reads_back_unchanged() {
    let rec = ResultRecord {
        workload: WorkloadId::Stream,
        threads: 2,
        samples: 3,
        iterations_per_sample: 7,
        values: vec![4, 5, 6],
        average: 5,
        min: 4,
        max: 6,
        sig: Some("c2ln".to_string()),
    };
    let doc = to_json_value(&rec);
    assert_eq!(validate(&doc), vec![]);
    let back = record_of_json(&doc).unwrap();
    assert_eq!(back.workload, rec.workload);
    assert_eq!(back.threads, rec.threads);
    assert_eq!(back.samples, rec.samples);
    assert_eq!(back.iterations_per_sample, rec.iterations_per_sample);
    assert_eq!(back.values, rec.values);
    assert_eq!(back.average, rec.average);
    assert_eq!(back.min, rec.min);
    assert_eq!(back.max, rec.max);
    assert_eq!(back.sig, rec.sig);
}

#[test]
fn workload_lookup_knows_the_kernel_identifiers() {
    assert_eq!(WorkloadId::from_name("Dhrystone"), Some(WorkloadId::Dhrystone));
    assert_eq!(WorkloadId::from_name("Stream"), Some(WorkloadId::Stream));
    assert_eq!(WorkloadId::from_name("stream"), None);
    assert_eq!(WorkloadId::from_name(""), None);
    assert_eq!(WorkloadId::Dhrystone.name(), "Dhrystone");
    assert_eq!(WorkloadId::Stream.name(), "Stream");
}
