//! Structural validation of result-record documents.
//!
//! `JsonValue` models a parsed JSON document as far as the record schema is
//! concerned: numbers a record may hold are unsigned 64-bit integers, any
//! other JSON number is remembered only as "some other number". `validate`
//! checks an arbitrary document against the record's shape — field names,
//! types, numeric constraints, and the cross-field rules tying the sample
//! count and the statistics to the values — and reports each violation with
//! the field it offends and the constraint it breaks.

use vstd::prelude::*;
use crate::record::{ResultRecord, WorkloadId};
use crate::stats::{avg_of, max_of, min_of, summarize};
use crate::text::str_eq;

verus! {

/// A parsed JSON document, as the record schema sees it.
pub enum JsonValue {
    /// JSON null.
    Null,
    /// A JSON boolean.
    Bool(bool),
    /// A JSON number that is an unsigned 64-bit integer.
    UInt(u64),
    /// Any other JSON number: negative, fractional, or out of range.
    OtherNum,
    /// A JSON string.
    Text(String),
    /// A JSON array.
    Arr(Vec<JsonValue>),
    /// A JSON object, as its fields in document order.
    Obj(Vec<(String, JsonValue)>),
}

/// The parts of a record document a violation can point at.
#[derive(Clone, Copy, PartialEq, Eq, Structural, Debug)]
pub enum FieldId {
    /// The document as a whole.
    Record,
    Workload,
    Threads,
    Samples,
    IterationsPerSample,
    Values,
    Average,
    Min,
    Max,
    Sig,
}

/// The constraint a violation breaks.
#[derive(Clone, Copy, PartialEq, Eq, Structural, Debug)]
pub enum ViolationKind {
    /// The document is not a JSON object.
    NotAnObject,
    /// A required field is absent.
    MissingField,
    /// The field holds a value of the wrong JSON type.
    WrongType,
    /// The field's value is outside its allowed range.
    BadValue,
    /// The `values` array's length differs from the `samples` count.
    LengthMismatch,
    /// A statistic differs from the one computed over `values`.
    StatsMismatch,
}

/// One schema violation: the offending field and the broken constraint.
#[derive(Clone, Copy, PartialEq, Eq, Structural, Debug)]
pub struct Violation {
    pub field: FieldId,
    pub kind: ViolationKind,
}

impl FieldId {
    /// The JSON path of the field this identifier stands for.
    pub fn path(&self) -> (r: &'static str)
        ensures
            r@ == self.spec_path(),
    {
        match self {
            FieldId::Record => "$",
            FieldId::Workload => "workload",
            FieldId::Threads => "threads",
            FieldId::Samples => "samples",
            FieldId::IterationsPerSample => "iterations_per_sample",
            FieldId::Values => "values",
            FieldId::Average => "average",
            FieldId::Min => "min",
            FieldId::Max => "max",
            FieldId::Sig => "sig",
        }
    }

    /// The JSON path of the field this identifier stands for.
    pub open spec fn spec_path(self) -> Seq<char> {
        match self {
            FieldId::Record => "$"@,
            FieldId::Workload => "workload"@,
            FieldId::Threads => "threads"@,
            FieldId::Samples => "samples"@,
            FieldId::IterationsPerSample => "iterations_per_sample"@,
            FieldId::Values => "values"@,
            FieldId::Average => "average"@,
            FieldId::Min => "min"@,
            FieldId::Max => "max"@,
            FieldId::Sig => "sig"@,
        }
    }
}

impl ViolationKind {
    /// A short account of the broken constraint.
    pub fn describe(&self) -> (r: &'static str)
        ensures
            r@ == match self {
                ViolationKind::NotAnObject => "the document is not a JSON object"@,
                ViolationKind::MissingField => "a required field is missing"@,
                ViolationKind::WrongType => "the field has the wrong JSON type"@,
                ViolationKind::BadValue => "the field's value is out of range"@,
                ViolationKind::LengthMismatch => "the values array does not have `samples` elements"@,
                ViolationKind::StatsMismatch => "a statistic does not match the values"@,
            },
    {
        match self {
            ViolationKind::NotAnObject => "the document is not a JSON object",
            ViolationKind::MissingField => "a required field is missing",
            ViolationKind::WrongType => "the field has the wrong JSON type",
            ViolationKind::BadValue => "the field's value is out of range",
            ViolationKind::LengthMismatch => "the values array does not have `samples` elements",
            ViolationKind::StatsMismatch => "a statistic does not match the values",
        }
    }
}

/// The value of the first field named `key`, if any.
pub open spec fn lookup(fields: Seq<(String, JsonValue)>, key: Seq<char>) -> Option<JsonValue>
    decreases fields.len(),
{
    if fields.len() == 0 {
        Option::None
    } else if fields[0].0@ == key {
        Option::Some(fields[0].1)
    } else {
        lookup(fields.drop_first(), key)
    }
}

/// Whether every element of a JSON array is an unsigned integer.
pub open spec fn all_uints(a: Seq<JsonValue>) -> bool {
    forall|i: int| 0 <= i < a.len() ==> (#[trigger] a[i]) is UInt
}

/// The integers of an all-integer JSON array.
pub open spec fn uints_of(a: Seq<JsonValue>) -> Seq<u64> {
    Seq::new(a.len(), |i: int| a[i]->UInt_0)
}

/// Whether the document's `values` field is an array of unsigned integers.
pub open spec fn values_ok(fields: Seq<(String, JsonValue)>) -> bool {
    lookup(fields, "values"@) matches Some(v) && v is Arr && all_uints(v->Arr_0@)
}

/// The sample values of a document whose `values` field is well-typed.
pub open spec fn values_seq(fields: Seq<(String, JsonValue)>) -> Seq<u64> {
    uints_of(lookup(fields, "values"@)->Some_0->Arr_0@)
}

/// The violations of the `workload` field: it must be present, a string,
/// and a known kernel identifier.
pub open spec fn workload_viols(fields: Seq<(String, JsonValue)>) -> Seq<Violation> {
    match lookup(fields, "workload"@) {
        Option::None => seq![
            Violation { field: FieldId::Workload, kind: ViolationKind::MissingField },
        ],
        Option::Some(v) => match v {
            JsonValue::Text(s) => if s@ == WorkloadId::Dhrystone.spec_name() || s@
                == WorkloadId::Stream.spec_name() {
                Seq::empty()
            } else {
                seq![Violation { field: FieldId::Workload, kind: ViolationKind::BadValue }]
            },
            _ => seq![Violation { field: FieldId::Workload, kind: ViolationKind::WrongType }],
        },
    }
}

/// The violations of an unsigned-integer field: it must be present, an
/// unsigned integer, and positive where the schema demands at least one.
pub open spec fn uint_viols(
    fields: Seq<(String, JsonValue)>,
    key: Seq<char>,
    fid: FieldId,
    need_positive: bool,
) -> Seq<Violation> {
    match lookup(fields, key) {
        Option::None => seq![Violation { field: fid, kind: ViolationKind::MissingField }],
        Option::Some(v) => match v {
            JsonValue::UInt(n) => if need_positive && n == 0 {
                seq![Violation { field: fid, kind: ViolationKind::BadValue }]
            } else {
                Seq::empty()
            },
            _ => seq![Violation { field: fid, kind: ViolationKind::WrongType }],
        },
    }
}

/// The violations of the `values` field's own type: present, an array, all
/// of whose elements are unsigned integers.
pub open spec fn values_viols(fields: Seq<(String, JsonValue)>) -> Seq<Violation> {
    match lookup(fields, "values"@) {
        Option::None => seq![Violation { field: FieldId::Values, kind: ViolationKind::MissingField }],
        Option::Some(v) => match v {
            JsonValue::Arr(a) => if all_uints(a@) {
                Seq::empty()
            } else {
                seq![Violation { field: FieldId::Values, kind: ViolationKind::WrongType }]
            },
            _ => seq![Violation { field: FieldId::Values, kind: ViolationKind::WrongType }],
        },
    }
}

/// The cross-field length rule: when both are well-typed, the `values`
/// array must hold exactly `samples` elements.
pub open spec fn length_viols(fields: Seq<(String, JsonValue)>) -> Seq<Violation> {
    if (lookup(fields, "samples"@) matches Some(s) && s is UInt) && values_ok(fields) {
        if values_seq(fields).len() == lookup(fields, "samples"@)->Some_0->UInt_0 as nat {
            Seq::empty()
        } else {
            seq![Violation { field: FieldId::Values, kind: ViolationKind::LengthMismatch }]
        }
    } else {
        Seq::empty()
    }
}

/// The violations of one statistic field: present, an unsigned integer, and
/// — when the values themselves are checkable — equal to the statistic
/// computed over them.
pub open spec fn stat_viols(
    fields: Seq<(String, JsonValue)>,
    key: Seq<char>,
    fid: FieldId,
    expected: int,
) -> Seq<Violation> {
    match lookup(fields, key) {
        Option::None => seq![Violation { field: fid, kind: ViolationKind::MissingField }],
        Option::Some(v) => match v {
            JsonValue::UInt(n) => if values_ok(fields) && values_seq(fields).len() >= 1 && n as int
                != expected {
                seq![Violation { field: fid, kind: ViolationKind::StatsMismatch }]
            } else {
                Seq::empty()
            },
            _ => seq![Violation { field: fid, kind: ViolationKind::WrongType }],
        },
    }
}

/// The violations of the optional `sig` field: when present it must be a
/// string.
pub open spec fn sig_viols(fields: Seq<(String, JsonValue)>) -> Seq<Violation> {
    match lookup(fields, "sig"@) {
        Option::None => Seq::empty(),
        Option::Some(v) => match v {
            JsonValue::Text(_) => Seq::empty(),
            _ => seq![Violation { field: FieldId::Sig, kind: ViolationKind::WrongType }],
        },
    }
}

/// Every violation of the record schema in a document, in field order.
pub open spec fn violations_of(doc: JsonValue) -> Seq<Violation> {
    match doc {
        JsonValue::Obj(fields) => workload_viols(fields@) + uint_viols(
            fields@,
            "threads"@,
            FieldId::Threads,
            true,
        ) + uint_viols(fields@, "samples"@, FieldId::Samples, true) + uint_viols(
            fields@,
            "iterations_per_sample"@,
            FieldId::IterationsPerSample,
            false,
        ) + values_viols(fields@) + length_viols(fields@) + stat_viols(
            fields@,
            "average"@,
            FieldId::Average,
            avg_of(values_seq(fields@)),
        ) + stat_viols(fields@, "min"@, FieldId::Min, min_of(values_seq(fields@)) as int)
            + stat_viols(fields@, "max"@, FieldId::Max, max_of(values_seq(fields@)) as int)
            + sig_viols(fields@),
        _ => seq![Violation { field: FieldId::Record, kind: ViolationKind::NotAnObject }],
    }
}

/// Whether a document has the record's shape: no violation at all.
pub open spec fn record_shape_ok(doc: JsonValue) -> bool {
    violations_of(doc).len() == 0
}

/// Finds the first field with the given name.
fn find_field<'a>(fields: &'a Vec<(String, JsonValue)>, key: &str) -> (r: Option<&'a JsonValue>)
    ensures
        match r {
            Option::Some(v) => lookup(fields@, key@) == Some(*v),
            Option::None => lookup(fields@, key@) is None,
        },
{
    let n = fields.len();
    let mut i: usize = 0;
    proof {
        assert(fields@.skip(0) =~= fields@);
    }
    while i < n
        invariant
            0 <= i <= n,
            n == fields@.len(),
            lookup(fields@, key@) == lookup(fields@.skip(i as int), key@),
        decreases n - i,
    {
        proof {
            assert(fields@.skip(i as int)[0] == fields@[i as int]);
            assert(fields@.skip(i as int).drop_first() =~= fields@.skip(i + 1));
        }
        let pair = &fields[i];
        if str_eq(pair.0.as_str(), key) {
            return Some(&pair.1);
        }
        i = i + 1;
    }
    proof {
        assert(fields@.skip(fields@.len() as int).len() == 0);
    }
    None
}

/// Extracts the integers of a JSON array when every element is an unsigned
/// integer, and reports failure otherwise.
fn array_as_uints(a: &Vec<JsonValue>) -> (r: Option<Vec<u64>>)
    ensures
        r is Some <==> all_uints(a@),
        r matches Some(v) ==> v@ == uints_of(a@),
{
    let mut out: Vec<u64> = Vec::new();
    let n = a.len();
    let mut i: usize = 0;
    while i < n
        invariant
            0 <= i <= n,
            n == a@.len(),
            out@.len() == i as nat,
            forall|j: int| 0 <= j < i ==> (#[trigger] a@[j]) is UInt && out@[j] == a@[j]->UInt_0,
        decreases n - i,
    {
        match &a[i] {
            JsonValue::UInt(v) => {
                out.push(*v);
            },
            _ => {
                return None;
            },
        }
        i = i + 1;
    }
    proof {
        assert(out@ =~= uints_of(a@));
    }
    Some(out)
}

/// Checks the `workload` field.
fn check_workload(fields: &Vec<(String, JsonValue)>, out: &mut Vec<Violation>)
    ensures
        final(out)@ == old(out)@ + workload_viols(fields@),
{
    match find_field(fields, "workload") {
        Option::None => {
            out.push(Violation { field: FieldId::Workload, kind: ViolationKind::MissingField });
        },
        Option::Some(v) => match v {
            JsonValue::Text(s) => {
                if !(str_eq(s.as_str(), "Dhrystone") || str_eq(s.as_str(), "Stream")) {
                    out.push(Violation { field: FieldId::Workload, kind: ViolationKind::BadValue });
                }
            },
            _ => {
                out.push(Violation { field: FieldId::Workload, kind: ViolationKind::WrongType });
            },
        },
    }
    proof {
        assert(out@ =~= old(out)@ + workload_viols(fields@));
    }
}

/// Checks one required unsigned-integer field.
fn check_uint(
    fields: &Vec<(String, JsonValue)>,
    key: &str,
    fid: FieldId,
    need_positive: bool,
    out: &mut Vec<Violation>,
)
    ensures
        final(out)@ == old(out)@ + uint_viols(fields@, key@, fid, need_positive),
{
    match find_field(fields, key) {
        Option::None => {
            out.push(Violation { field: fid, kind: ViolationKind::MissingField });
        },
        Option::Some(v) => match v {
            JsonValue::UInt(n) => {
                if need_positive && *n == 0 {
                    out.push(Violation { field: fid, kind: ViolationKind::BadValue });
                }
            },
            _ => {
                out.push(Violation { field: fid, kind: ViolationKind::WrongType });
            },
        },
    }
    proof {
        assert(out@ =~= old(out)@ + uint_viols(fields@, key@, fid, need_positive));
    }
}

/// Checks one statistic field against the statistic computed over the
/// values, handed in as `expected` exactly when the values are checkable
/// (well-typed and non-empty) — `expected` then holds that statistic.
fn check_stat(
    fields: &Vec<(String, JsonValue)>,
    key: &str,
    fid: FieldId,
    expected: Option<u64>,
    claim: Ghost<int>,
    out: &mut Vec<Violation>,
)
    requires
        expected is Some <==> (values_ok(fields@) && values_seq(fields@).len() >= 1),
        expected matches Some(e) ==> e as int == claim@,
    ensures
        final(out)@ == old(out)@ + stat_viols(fields@, key@, fid, claim@),
{
    match find_field(fields, key) {
        Option::None => {
            out.push(Violation { field: fid, kind: ViolationKind::MissingField });
        },
        Option::Some(v) => match v {
            JsonValue::UInt(n) => match expected {
                Option::Some(e) => {
                    if *n != e {
                        out.push(Violation { field: fid, kind: ViolationKind::StatsMismatch });
                    }
                },
                Option::None => {},
            },
            _ => {
                out.push(Violation { field: fid, kind: ViolationKind::WrongType });
            },
        },
    }
    proof {
        assert(out@ =~= old(out)@ + stat_viols(fields@, key@, fid, claim@));
    }
}

/// Checks the optional `sig` field.
fn check_sig(fields: &Vec<(String, JsonValue)>, out: &mut Vec<Violation>)
    ensures
        final(out)@ == old(out)@ + sig_viols(fields@),
{
    match find_field(fields, "sig") {
        Option::None => {},
        Option::Some(v) => match v {
            JsonValue::Text(_) => {},
            _ => {
                out.push(Violation { field: FieldId::Sig, kind: ViolationKind::WrongType });
            },
        },
    }
    proof {
        assert(out@ =~= old(out)@ + sig_viols(fields@));
    }
}

/// Validates an arbitrary document against the record schema: the result
/// lists every violation, in field order, and is empty exactly when the
/// document has the record's shape — required fields present and
/// well-typed, the workload known, the worker and sample counts positive,
/// the `values` array holding exactly `samples` unsigned integers, and each
/// statistic equal to the one computed over the values.
pub fn validate(doc: &JsonValue) -> (r: Vec<Violation>)
    ensures
        r@ == violations_of(*doc),
        r@.len() == 0 <==> record_shape_ok(*doc),
{
    match doc {
        JsonValue::Obj(fields) => {
            let mut out: Vec<Violation> = Vec::new();
            check_workload(fields, &mut out);
            check_uint(fields, "threads", FieldId::Threads, true, &mut out);
            check_uint(fields, "samples", FieldId::Samples, true, &mut out);
            check_uint(fields, "iterations_per_sample", FieldId::IterationsPerSample, false, &mut out);
            let values: Option<Vec<u64>> = match find_field(fields, "values") {
                Option::None => {
                    out.push(
                        Violation { field: FieldId::Values, kind: ViolationKind::MissingField },
                    );
                    None
                },
                Option::Some(v) => match v {
                    JsonValue::Arr(a) => match array_as_uints(a) {
                        Option::Some(u) => Some(u),
                        Option::None => {
                            out.push(
                                Violation { field: FieldId::Values, kind: ViolationKind::WrongType },
                            );
                            None
                        },
                    },
                    _ => {
                        out.push(
                            Violation { field: FieldId::Values, kind: ViolationKind::WrongType },
                        );
                        None
                    },
                },
            };
            proof {
                assert(values is Some <==> values_ok(fields@));
                assert(values matches Some(u) ==> u@ == values_seq(fields@));
                assert(out@ =~= Seq::empty() + workload_viols(fields@) + uint_viols(
                    fields@,
                    "threads"@,
                    FieldId::Threads,
                    true,
                ) + uint_viols(fields@, "samples"@, FieldId::Samples, true) + uint_viols(
                    fields@,
                    "iterations_per_sample"@,
                    FieldId::IterationsPerSample,
                    false,
                ) + values_viols(fields@));
            }
            let ghost before_length = out@;
            match find_field(fields, "samples") {
                Option::Some(sv) => match sv {
                    JsonValue::UInt(n) => match &values {
                        Option::Some(u) => {
                            if u.len() as u64 != *n {
                                out.push(
                                    Violation {
                                        field: FieldId::Values,
                                        kind: ViolationKind::LengthMismatch,
                                    },
                                );
                            }
                        },
                        Option::None => {},
                    },
                    _ => {},
                },
                Option::None => {},
            }
            proof {
                assert(out@ =~= before_length + length_viols(fields@));
            }
            let stats = match &values {
                Option::Some(u) => summarize(u),
                Option::None => None,
            };
            let avg = match &stats {
                Option::Some(s) => Some(s.average),
                Option::None => None,
            };
            let mn = match &stats {
                Option::Some(s) => Some(s.min),
                Option::None => None,
            };
            let mx = match &stats {
                Option::Some(s) => Some(s.max),
                Option::None => None,
            };
            check_stat(
                fields,
                "average",
                FieldId::Average,
                avg,
                Ghost(avg_of(values_seq(fields@))),
                &mut out,
            );
            check_stat(
                fields,
                "min",
                FieldId::Min,
                mn,
                Ghost(min_of(values_seq(fields@)) as int),
                &mut out,
            );
            check_stat(
                fields,
                "max",
                FieldId::Max,
                mx,
                Ghost(max_of(values_seq(fields@)) as int),
                &mut out,
            );
            check_sig(fields, &mut out);
            proof {
                assert(out@ =~= violations_of(*doc));
            }
            out
        },
        _ => {
            let mut out: Vec<Violation> = Vec::new();
            out.push(Violation { field: FieldId::Record, kind: ViolationKind::NotAnObject });
            proof {
                assert(out@ =~= violations_of(*doc));
            }
            out
        },
    }
}

/// Whether a document renders exactly the given record: field for field,
/// the document's entries hold the record's data.
pub open spec fn represents(doc: JsonValue, rec: ResultRecord) -> bool {
    let f = doc->Obj_0@;
    &&& doc is Obj
    &&& (lookup(f, "workload"@) matches Some(v) && v matches JsonValue::Text(s) && s@
        == rec.workload.spec_name())
    &&& lookup(f, "threads"@) == Some(JsonValue::UInt(rec.threads))
    &&& lookup(f, "samples"@) == Some(JsonValue::UInt(rec.samples))
    &&& lookup(f, "iterations_per_sample"@) == Some(JsonValue::UInt(rec.iterations_per_sample))
    &&& values_ok(f) && values_seq(f) == rec.values@
    &&& lookup(f, "average"@) == Some(JsonValue::UInt(rec.average))
    &&& lookup(f, "min"@) == Some(JsonValue::UInt(rec.min))
    &&& lookup(f, "max"@) == Some(JsonValue::UInt(rec.max))
    &&& match lookup(f, "sig"@) {
        Option::None => rec.sig is None,
        Option::Some(v) => (v matches JsonValue::Text(s) && rec.sig matches Some(t) && t@ == s@),
    }
}

/// A document renders at most one record: two records represented by the
/// same document agree on every measurement field, and on the signature
/// text. Reading a rendered record back therefore recovers it.
pub proof fn lemma_represents_unique(doc: JsonValue, a: ResultRecord, b: ResultRecord)
    requires
        represents(doc, a),
        represents(doc, b),
    ensures
        a.workload == b.workload,
        a.threads == b.threads,
        a.samples == b.samples,
        a.iterations_per_sample == b.iterations_per_sample,
        a.values@ == b.values@,
        a.average == b.average,
        a.min == b.min,
        a.max == b.max,
        a.sig is Some <==> b.sig is Some,
        a.sig matches Some(s) ==> (b.sig matches Some(t) && s@ == t@),
    {
    assert(a.workload.spec_name() == b.workload.spec_name());
    if a.workload is Dhrystone && b.workload is Stream {
        reveal_strlit("Dhrystone");
        reveal_strlit("Stream");
        assert("Dhrystone"@.len() != "Stream"@.len());
    }
    if a.workload is Stream && b.workload is Dhrystone {
        reveal_strlit("Dhrystone");
        reveal_strlit("Stream");
        assert("Dhrystone"@.len() != "Stream"@.len());
    }
}

/// Reads a record out of a document. Succeeds exactly when the document has
/// the record's shape; the record read back is well formed and is rendered
/// by the document field for field.
pub fn record_of_json(doc: &JsonValue) -> (r: Option<ResultRecord>)
    ensures
        r is Some <==> record_shape_ok(*doc),
        r matches Some(rec) ==> represents(*doc, rec) && rec.wf(),
{
    let viols = validate(doc);
    if viols.len() > 0 {
        return None;
    }
    match doc {
        JsonValue::Obj(fields) => {
            let workload = match find_field(fields, "workload") {
                Option::Some(v) => match v {
                    JsonValue::Text(s) => match WorkloadId::from_name(s.as_str()) {
                        Option::Some(w) => w,
                        Option::None => {
                            proof {
                                assert(false);
                            }
                            WorkloadId::Dhrystone
                        },
                    },
                    _ => {
                        proof {
                            assert(false);
                        }
                        WorkloadId::Dhrystone
                    },
                },
                Option::None => {
                    proof {
                        assert(false);
                    }
                    WorkloadId::Dhrystone
                },
            };
            let threads = match find_field(fields, "threads") {
                Option::Some(v) => match v {
                    JsonValue::UInt(n) => *n,
                    _ => {
                        proof {
                            assert(false);
                        }
                        0
                    },
                },
                Option::None => {
                    proof {
                        assert(false);
                    }
                    0
                },
            };
            let samples = match find_field(fields, "samples") {
                Option::Some(v) => match v {
                    JsonValue::UInt(n) => *n,
                    _ => {
                        proof {
                            assert(false);
                        }
                        0
                    },
                },
                Option::None => {
                    proof {
                        assert(false);
                    }
                    0
                },
            };
            let iterations_per_sample = match find_field(fields, "iterations_per_sample") {
                Option::Some(v) => match v {
                    JsonValue::UInt(n) => *n,
                    _ => {
                        proof {
                            assert(false);
                        }
                        0
                    },
                },
                Option::None => {
                    proof {
                        assert(false);
                    }
                    0
                },
            };
            let values = match find_field(fields, "values") {
                Option::Some(v) => match v {
                    JsonValue::Arr(a) => match array_as_uints(a) {
                        Option::Some(u) => u,
                        Option::None => {
                            proof {
                                assert(false);
                            }
                            Vec::new()
                        },
                    },
                    _ => {
                        proof {
                            assert(false);
                        }
                        Vec::new()
                    },
                },
                Option::None => {
                    proof {
                        assert(false);
                    }
                    Vec::new()
                },
            };
            let average = match find_field(fields, "average") {
                Option::Some(v) => match v {
                    JsonValue::UInt(n) => *n,
                    _ => {
                        proof {
                            assert(false);
                        }
                        0
                    },
                },
                Option::None => {
                    proof {
                        assert(false);
                    }
                    0
                },
            };
            let min = match find_field(fields, "min") {
                Option::Some(v) => match v {
                    JsonValue::UInt(n) => *n,
                    _ => {
                        proof {
                            assert(false);
                        }
                        0
                    },
                },
                Option::None => {
                    proof {
                        assert(false);
                    }
                    0
                },
            };
            let max = match find_field(fields, "max") {
                Option::Some(v) => match v {
                    JsonValue::UInt(n) => *n,
                    _ => {
                        proof {
                            assert(false);
                        }
                        0
                    },
                },
                Option::None => {
                    proof {
                        assert(false);
                    }
                    0
                },
            };
            let sig: Option<String> = match find_field(fields, "sig") {
                Option::Some(v) => match v {
                    JsonValue::Text(s) => Some(s.clone()),
                    _ => {
                        proof {
                            assert(false);
                        }
                        None
                    },
                },
                Option::None => None,
            };
            Some(
                ResultRecord {
                    workload,
                    threads,
                    samples,
                    iterations_per_sample,
                    values,
                    average,
                    min,
                    max,
                    sig,
                },
            )
        },
        _ => {
            proof {
                assert(false);
            }
            None
        },
    }
}

/// A lookup finds the field at `j` when the earlier fields bear other names.
proof fn lemma_lookup_found(fields: Seq<(String, JsonValue)>, key: Seq<char>, j: int)
    requires
        0 <= j < fields.len(),
        fields[j].0@ == key,
        forall|i: int| 0 <= i < j ==> (#[trigger] fields[i]).0@ != key,
    ensures
        lookup(fields, key) == Some(fields[j].1),
    decreases j,
{
    if j > 0 {
        assert forall|i: int| 0 <= i < j - 1 implies (#[trigger] fields.drop_first()[i]).0@
            != key by {
            assert(fields.drop_first()[i] == fields[i + 1]);
        }
        assert(fields.drop_first()[j - 1] == fields[j]);
        lemma_lookup_found(fields.drop_first(), key, j - 1);
    }
}

/// A lookup finds nothing when no field bears the name.
proof fn lemma_lookup_absent(fields: Seq<(String, JsonValue)>, key: Seq<char>)
    requires
        forall|i: int| 0 <= i < fields.len() ==> (#[trigger] fields[i]).0@ != key,
    ensures
        lookup(fields, key) is None,
    decreases fields.len(),
{
    if fields.len() > 0 {
        assert forall|i: int| 0 <= i < fields.len() - 1 implies (#[trigger] fields.drop_first()[i]).0@
            != key by {
            assert(fields.drop_first()[i] == fields[i + 1]);
        }
        lemma_lookup_absent(fields.drop_first(), key);
    }
}

/// The nine field names of the record schema are pairwise distinct.
proof fn lemma_record_keys_distinct()
    ensures
        "workload"@ != "threads"@,
        "workload"@ != "samples"@,
        "workload"@ != "iterations_per_sample"@,
        "workload"@ != "values"@,
        "workload"@ != "average"@,
        "workload"@ != "min"@,
        "workload"@ != "max"@,
        "workload"@ != "sig"@,
        "threads"@ != "samples"@,
        "threads"@ != "iterations_per_sample"@,
        "threads"@ != "values"@,
        "threads"@ != "average"@,
        "threads"@ != "min"@,
        "threads"@ != "max"@,
        "threads"@ != "sig"@,
        "samples"@ != "iterations_per_sample"@,
        "samples"@ != "values"@,
        "samples"@ != "average"@,
        "samples"@ != "min"@,
        "samples"@ != "max"@,
        "samples"@ != "sig"@,
        "iterations_per_sample"@ != "values"@,
        "iterations_per_sample"@ != "average"@,
        "iterations_per_sample"@ != "min"@,
        "iterations_per_sample"@ != "max"@,
        "iterations_per_sample"@ != "sig"@,
        "values"@ != "average"@,
        "values"@ != "min"@,
        "values"@ != "max"@,
        "values"@ != "sig"@,
        "average"@ != "min"@,
        "average"@ != "max"@,
        "average"@ != "sig"@,
        "min"@ != "max"@,
        "min"@ != "sig"@,
        "max"@ != "sig"@,
{
    reveal_strlit("workload");
    reveal_strlit("threads");
    reveal_strlit("samples");
    reveal_strlit("iterations_per_sample");
    reveal_strlit("values");
    reveal_strlit("average");
    reveal_strlit("min");
    reveal_strlit("max");
    reveal_strlit("sig");
    assert("workload"@.len() == 8);
    assert("threads"@.len() == 7);
    assert("samples"@.len() == 7);
    assert("iterations_per_sample"@.len() == 21);
    assert("values"@.len() == 6);
    assert("average"@.len() == 7);
    assert("min"@.len() == 3);
    assert("max"@.len() == 3);
    assert("sig"@.len() == 3);
    assert("threads"@[0] != "samples"@[0]);
    assert("threads"@[0] != "average"@[0]);
    assert("samples"@[0] != "average"@[0]);
    assert("min"@[1] != "max"@[1]);
    assert("min"@[0] != "sig"@[0]);
    assert("max"@[0] != "sig"@[0]);
}

/// Renders a record as a JSON document of the schema's shape: one entry per
/// field in schema order, the `sig` entry present exactly when the record
/// carries a signature. The schema can never drift from the record
/// definition: the document derived from any well-formed record validates
/// with no violation.
pub fn to_json_value(rec: &ResultRecord) -> (r: JsonValue)
    ensures
        represents(r, *rec),
        rec.wf() ==> record_shape_ok(r),
{
    let mut arr: Vec<JsonValue> = Vec::new();
    let n = rec.values.len();
    let mut i: usize = 0;
    while i < n
        invariant
            0 <= i <= n,
            n == rec.values@.len(),
            arr@.len() == i as nat,
            forall|j: int| 0 <= j < i ==> #[trigger] arr@[j] == JsonValue::UInt(rec.values@[j]),
        decreases n - i,
    {
        arr.push(JsonValue::UInt(rec.values[i]));
        i = i + 1;
    }
    proof {
        assert(all_uints(arr@));
        assert(uints_of(arr@) =~= rec.values@);
    }
    let mut fields: Vec<(String, JsonValue)> = Vec::new();
    fields.push(("workload".to_owned(), JsonValue::Text(rec.workload.name().to_owned())));
    fields.push(("threads".to_owned(), JsonValue::UInt(rec.threads)));
    fields.push(("samples".to_owned(), JsonValue::UInt(rec.samples)));
    fields.push(("iterations_per_sample".to_owned(), JsonValue::UInt(rec.iterations_per_sample)));
    fields.push(("values".to_owned(), JsonValue::Arr(arr)));
    fields.push(("average".to_owned(), JsonValue::UInt(rec.average)));
    fields.push(("min".to_owned(), JsonValue::UInt(rec.min)));
    fields.push(("max".to_owned(), JsonValue::UInt(rec.max)));
    match &rec.sig {
        Option::Some(s) => {
            fields.push(("sig".to_owned(), JsonValue::Text(s.clone())));
        },
        Option::None => {},
    }
    let r = JsonValue::Obj(fields);
    proof {
        lemma_record_keys_distinct();
        let f = r->Obj_0@;
        assert(f[0].0@ == "workload"@ && f[1].0@ == "threads"@ && f[2].0@ == "samples"@ && f[3].0@
            == "iterations_per_sample"@ && f[4].0@ == "values"@ && f[5].0@ == "average"@ && f[6].0@
            == "min"@ && f[7].0@ == "max"@);
        lemma_lookup_found(f, "workload"@, 0);
        lemma_lookup_found(f, "threads"@, 1);
        lemma_lookup_found(f, "samples"@, 2);
        lemma_lookup_found(f, "iterations_per_sample"@, 3);
        lemma_lookup_found(f, "values"@, 4);
        lemma_lookup_found(f, "average"@, 5);
        lemma_lookup_found(f, "min"@, 6);
        lemma_lookup_found(f, "max"@, 7);
        if rec.sig is Some {
            assert(f.len() == 9 && f[8].0@ == "sig"@);
            lemma_lookup_found(f, "sig"@, 8);
        } else {
            assert(f.len() == 8);
            lemma_lookup_absent(f, "sig"@);
        }
        assert(values_seq(f) == rec.values@);
        if rec.wf() {
            assert(workload_viols(f).len() == 0);
            assert(uint_viols(f, "threads"@, FieldId::Threads, true).len() == 0);
            assert(uint_viols(f, "samples"@, FieldId::Samples, true).len() == 0);
            assert(uint_viols(f, "iterations_per_sample"@, FieldId::IterationsPerSample, false).len()
                == 0);
            assert(values_viols(f).len() == 0);
            assert(length_viols(f).len() == 0);
            assert(stat_viols(f, "average"@, FieldId::Average, avg_of(values_seq(f))).len() == 0);
            assert(stat_viols(f, "min"@, FieldId::Min, min_of(values_seq(f)) as int).len() == 0);
            assert(stat_viols(f, "max"@, FieldId::Max, max_of(values_seq(f)) as int).len() == 0);
            assert(sig_viols(f).len() == 0);
        }
    }
    r
}

} // verus!
