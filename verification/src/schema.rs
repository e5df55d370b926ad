//! The record's JSON Schema document.
//!
//! The schema describes exactly the shape that `jsonval::validate` enforces:
//! the required fields and their types, the positivity of the worker and
//! sample counts, and the integer sample values. It is exposed as a
//! retrievable artifact so external tooling can validate result files
//! independently. That the schema and the record definition cannot drift
//! apart is established in `jsonval`: the document rendered from any
//! well-formed record validates with no violation.

use vstd::prelude::*;

verus! {

/// The text of the schema document.
pub open spec fn schema_chars() -> Seq<char> {
    "{\"$schema\":\"http://json-schema.org/draft-07/schema#\",\"title\":\"ResultRecord\",\"type\":\"object\",\"required\":[\"workload\",\"threads\",\"samples\",\"iterations_per_sample\",\"values\",\"average\",\"min\",\"max\"],\"properties\":{\"workload\":{\"type\":\"string\",\"enum\":[\"Dhrystone\",\"Stream\"]},\"threads\":{\"type\":\"integer\",\"minimum\":1},\"samples\":{\"type\":\"integer\",\"minimum\":1},\"iterations_per_sample\":{\"type\":\"integer\",\"minimum\":0},\"values\":{\"type\":\"array\",\"items\":{\"type\":\"integer\",\"minimum\":0}},\"average\":{\"type\":\"integer\",\"minimum\":0},\"min\":{\"type\":\"integer\",\"minimum\":0},\"max\":{\"type\":\"integer\",\"minimum\":0},\"sig\":{\"type\":\"string\"}}}"@
}

/// The schema document describing the result record's JSON shape, as one
/// line of JSON, for external validation tooling.
pub fn schema_json() -> (r: String)
    ensures
        r@ == schema_chars(),
{
    "{\"$schema\":\"http://json-schema.org/draft-07/schema#\",\"title\":\"ResultRecord\",\"type\":\"object\",\"required\":[\"workload\",\"threads\",\"samples\",\"iterations_per_sample\",\"values\",\"average\",\"min\",\"max\"],\"properties\":{\"workload\":{\"type\":\"string\",\"enum\":[\"Dhrystone\",\"Stream\"]},\"threads\":{\"type\":\"integer\",\"minimum\":1},\"samples\":{\"type\":\"integer\",\"minimum\":1},\"iterations_per_sample\":{\"type\":\"integer\",\"minimum\":0},\"values\":{\"type\":\"array\",\"items\":{\"type\":\"integer\",\"minimum\":0}},\"average\":{\"type\":\"integer\",\"minimum\":0},\"min\":{\"type\":\"integer\",\"minimum\":0},\"max\":{\"type\":\"integer\",\"minimum\":0},\"sig\":{\"type\":\"string\"}}}".to_owned()
}

} // verus!
