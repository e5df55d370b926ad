//! Canonical serialization of a result record.
//!
//! A record is rendered as a single-line JSON object with a fixed field
//! order. The canonical form — the byte sequence that is signed and
//! verified — always omits the `sig` field, so the canonical text of a
//! record is a pure function of its measurement fields alone: serializing
//! the same record twice yields identical text, whether or not the record
//! was signed in between.

use vstd::prelude::*;
use vstd::string::StringExecFns;
use crate::record::ResultRecord;

verus! {

/// Relies on std's String::push: appends one character to the string.
pub assume_specification[ String::push ](s: &mut String, c: char)
    ensures
        final(s)@ == old(s)@.push(c),
;

/// The character of one decimal digit.
pub open spec fn digit_char(d: int) -> char {
    if d == 0 {
        '0'
    } else if d == 1 {
        '1'
    } else if d == 2 {
        '2'
    } else if d == 3 {
        '3'
    } else if d == 4 {
        '4'
    } else if d == 5 {
        '5'
    } else if d == 6 {
        '6'
    } else if d == 7 {
        '7'
    } else if d == 8 {
        '8'
    } else {
        '9'
    }
}

/// The decimal rendering of a natural number, most significant digit first,
/// with no leading zeroes (a lone zero for zero itself).
pub open spec fn dec_chars(n: nat) -> Seq<char>
    decreases n,
{
    if n < 10 {
        seq![digit_char(n as int)]
    } else {
        dec_chars(n / 10) + seq![digit_char((n % 10) as int)]
    }
}

/// The rendering of a sample sequence's elements, comma-separated.
pub open spec fn values_chars(vs: Seq<u64>) -> Seq<char>
    decreases vs.len(),
{
    if vs.len() == 0 {
        Seq::empty()
    } else if vs.len() == 1 {
        dec_chars(vs[0] as nat)
    } else {
        values_chars(vs.drop_last()) + seq![','] + dec_chars(vs.last() as nat)
    }
}

/// The rendering of every field of a record except `sig`, without the
/// closing brace.
pub open spec fn fields_chars(rec: ResultRecord) -> Seq<char> {
    "{\"workload\":\""@ + rec.workload.spec_name() + "\",\"threads\":"@ + dec_chars(
        rec.threads as nat,
    ) + ",\"samples\":"@ + dec_chars(rec.samples as nat) + ",\"iterations_per_sample\":"@
        + dec_chars(rec.iterations_per_sample as nat) + ",\"values\":["@ + values_chars(rec.values@)
        + "],\"average\":"@ + dec_chars(rec.average as nat) + ",\"min\":"@ + dec_chars(
        rec.min as nat,
    ) + ",\"max\":"@ + dec_chars(rec.max as nat)
}

/// The canonical form of a record: its rendering with `sig` omitted. This
/// is the exact text that is signed and verified, and it does not depend on
/// the `sig` field at all.
pub open spec fn canon_chars(rec: ResultRecord) -> Seq<char> {
    fields_chars(rec) + "}"@
}

/// The full rendering of a record: the canonical fields, followed by the
/// `sig` field when — and only when — a signature is present.
pub open spec fn json_chars(rec: ResultRecord) -> Seq<char> {
    match rec.sig {
        Option::None => canon_chars(rec),
        Option::Some(s) => fields_chars(rec) + ",\"sig\":\""@ + s@ + "\"}"@,
    }
}

/// Whether a character may stand inside a JSON string without escaping:
/// printable ASCII other than the quote and the backslash.
pub open spec fn json_safe_char(c: char) -> bool {
    32 <= c as u32 <= 126 && c != '"' && c != '\\'
}

/// Whether every character of a string may stand unescaped.
pub open spec fn json_safe(s: Seq<char>) -> bool {
    forall|i: int| 0 <= i < s.len() ==> json_safe_char(#[trigger] s[i])
}

/// The canonical form of a record does not depend on its signature field:
/// two records that agree on every measurement field have the same
/// canonical text, whatever their signatures.
pub proof fn lemma_canonical_ignores_sig(a: ResultRecord, b: ResultRecord)
    requires
        a.workload == b.workload,
        a.threads == b.threads,
        a.samples == b.samples,
        a.iterations_per_sample == b.iterations_per_sample,
        a.values@ == b.values@,
        a.average == b.average,
        a.min == b.min,
        a.max == b.max,
    ensures
        canon_chars(a) == canon_chars(b),
{
}

/// Appends one decimal digit.
fn push_digit(out: &mut String, d: u64)
    requires
        d < 10,
    ensures
        final(out)@ == old(out)@ + seq![digit_char(d as int)],
{
    let c = if d == 0 {
        '0'
    } else if d == 1 {
        '1'
    } else if d == 2 {
        '2'
    } else if d == 3 {
        '3'
    } else if d == 4 {
        '4'
    } else if d == 5 {
        '5'
    } else if d == 6 {
        '6'
    } else if d == 7 {
        '7'
    } else if d == 8 {
        '8'
    } else {
        '9'
    };
    out.push(c);
    proof {
        assert(out@ =~= old(out)@ + seq![digit_char(d as int)]);
    }
}

/// Appends the decimal rendering of `n`.
fn push_u64(out: &mut String, n: u64)
    ensures
        final(out)@ == old(out)@ + dec_chars(n as nat),
    decreases n,
{
    if n >= 10 {
        push_u64(out, n / 10);
        push_digit(out, n % 10);
        proof {
            assert(out@ =~= old(out)@ + dec_chars(n as nat));
        }
    } else {
        push_digit(out, n);
    }
}

/// Appends the comma-separated rendering of the samples.
fn push_values(out: &mut String, vs: &Vec<u64>)
    ensures
        final(out)@ == old(out)@ + values_chars(vs@),
{
    let mut i: usize = 0;
    proof {
        assert(vs@.subrange(0, 0) =~= Seq::<u64>::empty());
        assert(out@ =~= old(out)@ + values_chars(vs@.subrange(0, 0)));
    }
    while i < vs.len()
        invariant
            0 <= i <= vs@.len(),
            out@ == old(out)@ + values_chars(vs@.subrange(0, i as int)),
        decreases vs@.len() - i,
    {
        proof {
            let pre = vs@.subrange(0, i as int);
            let post = vs@.subrange(0, i + 1);
            assert(post.drop_last() =~= pre);
            assert(post.last() == vs@[i as int]);
        }
        if i > 0 {
            out.push(',');
        }
        push_u64(out, vs[i]);
        proof {
            assert(out@ =~= old(out)@ + values_chars(vs@.subrange(0, i + 1)));
        }
        i = i + 1;
    }
    proof {
        assert(vs@.subrange(0, vs@.len() as int) =~= vs@);
    }
}

/// Appends every field of the record except `sig`.
fn push_fields(out: &mut String, rec: &ResultRecord)
    ensures
        final(out)@ == old(out)@ + fields_chars(*rec),
{
    out.append("{\"workload\":\"");
    out.append(rec.workload.name());
    out.append("\",\"threads\":");
    push_u64(out, rec.threads);
    out.append(",\"samples\":");
    push_u64(out, rec.samples);
    out.append(",\"iterations_per_sample\":");
    push_u64(out, rec.iterations_per_sample);
    out.append(",\"values\":[");
    push_values(out, &rec.values);
    out.append("],\"average\":");
    push_u64(out, rec.average);
    out.append(",\"min\":");
    push_u64(out, rec.min);
    out.append(",\"max\":");
    push_u64(out, rec.max);
    proof {
        assert(out@ =~= old(out)@ + fields_chars(*rec));
    }
}

/// Serializes the canonical form of a record: every field but `sig`, in
/// fixed order, as one line of JSON. Two calls on records that agree on the
/// measurement fields yield identical text.
pub fn canonical_json(rec: &ResultRecord) -> (r: String)
    ensures
        r@ == canon_chars(*rec),
{
    let mut out = String::new();
    push_fields(&mut out, rec);
    out.append("}");
    proof {
        assert(out@ =~= canon_chars(*rec));
    }
    out
}

/// Serializes the full record, appending the `sig` field exactly when a
/// signature is present — an absent signature is omitted, never written as
/// null. The signature text must be free of characters that would need
/// escaping; a detached base64url signature always is.
pub fn to_json(rec: &ResultRecord) -> (r: String)
    requires
        rec.sig matches Some(s) ==> json_safe(s@),
    ensures
        r@ == json_chars(*rec),
{
    let mut out = String::new();
    push_fields(&mut out, rec);
    match &rec.sig {
        Option::None => {
            out.append("}");
            proof {
                assert(out@ =~= json_chars(*rec));
            }
        },
        Option::Some(s) => {
            out.append(",\"sig\":\"");
            out.append(s.as_str());
            out.append("\"}");
            proof {
                assert(out@ =~= json_chars(*rec));
            }
        },
    }
    out
}

} // verus!
