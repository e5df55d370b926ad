//! Detached Ed25519 signatures over the canonical record form.
//!
//! A 64-byte signing key is a 32-byte seed followed by the matching 32-byte
//! public key. Signing renders the signature as URL-safe base64 without
//! padding; verification accepts exactly that rendering and answers false —
//! never faults — on malformed encodings, wrong-length keys, or
//! cryptographic mismatch. A record with no signature is reported as
//! unsigned, a distinct outcome from a present-and-invalid signature.

use vstd::prelude::*;
use base64::Engine;
use crate::codec::{canon_chars, canonical_json, json_safe, json_safe_char};
use crate::record::ResultRecord;
use vstd::string::StringSliceAdditionalSpecFns;

verus! {

/// Whether a 64-byte signing key is coherent: the public half matches the
/// key derived from the seed half. Named for what ring's
/// `Ed25519KeyPair::from_seed_and_public_key` accepts, which is a function
/// of the key bytes alone.
pub uninterp spec fn ed25519_key_ok(key: Seq<u8>) -> bool;

/// The Ed25519 signature of a message under a 64-byte key. Named for what
/// ring's `Ed25519KeyPair::sign` returns; Ed25519 signing is deterministic,
/// so the signature is a function of the message and the key alone.
pub uninterp spec fn ed25519_sig_of(msg: Seq<u8>, key: Seq<u8>) -> Seq<u8>;

/// Whether a signature is accepted for a message under a raw public key.
/// Named for what ring's `UnparsedPublicKey::verify` returns, which is a
/// function of its three byte-string arguments alone.
pub uninterp spec fn ed25519_verifies(msg: Seq<u8>, sig: Seq<u8>, pk: Seq<u8>) -> bool;

/// The URL-safe, unpadded base64 rendering of a byte string. Named for what
/// the base64 crate's `URL_SAFE_NO_PAD` engine encodes.
pub uninterp spec fn b64url_of(bytes: Seq<u8>) -> Seq<char>;

/// The public half of a 64-byte signing key.
pub open spec fn pub_key_of(key: Seq<u8>) -> Seq<u8> {
    key.subrange(32, 64)
}

/// The characters the URL-safe base64 alphabet draws from: letters, digits,
/// `-` and `_`.
pub open spec fn is_b64url_char(c: char) -> bool {
    ||| 65 <= c as u32 <= 90  // 'A'..'Z'
    ||| 97 <= c as u32 <= 122  // 'a'..'z'
    ||| 48 <= c as u32 <= 57  // '0'..'9'
    ||| c == '-'
    ||| c == '_'
}

/// Base64url characters never need escaping inside a JSON string.
pub proof fn lemma_b64url_chars_json_safe(s: Seq<char>)
    requires
        forall|i: int| 0 <= i < s.len() ==> is_b64url_char(#[trigger] s[i]),
    ensures
        json_safe(s),
{
    assert forall|i: int| 0 <= i < s.len() implies json_safe_char(#[trigger] s[i]) by {
        assert(is_b64url_char(s[i]));
        assert('"' as u32 == 34 && '\\' as u32 == 92 && '-' as u32 == 45 && '_' as u32 == 95);
        vstd::utf8::char_u32_cast(s[i], s[i] as u32);
    }
}

/// Relies on ring's Ed25519KeyPair::from_seed_and_public_key: it succeeds
/// exactly when the 32-byte public half equals the public key derived from
/// the 32-byte seed, a deterministic check of the key bytes.
#[verifier::external_body]
fn keypair_ok(key: &[u8]) -> (r: bool)
    requires
        key@.len() == 64,
    ensures
        r == ed25519_key_ok(key@),
{
    ring::signature::Ed25519KeyPair::from_seed_and_public_key(&key[..32], &key[32..]).is_ok()
}

/// Relies on ring's Ed25519KeyPair::from_seed_and_public_key and sign:
/// deterministic Ed25519 over the message, producing a 64-byte signature
/// that verifies under the key's public half.
#[verifier::external_body]
fn ed25519_sign_bytes(msg: &[u8], key: &[u8]) -> (r: Vec<u8>)
    requires
        key@.len() == 64,
        ed25519_key_ok(key@),
    ensures
        r@ == ed25519_sig_of(msg@, key@),
        r@.len() == 64,
        ed25519_verifies(msg@, r@, pub_key_of(key@)),
{
    let kp = ring::signature::Ed25519KeyPair::from_seed_and_public_key(&key[..32], &key[32..])
        .expect("coherent key material");
    kp.sign(msg).as_ref().to_vec()
}

/// Relies on ring's UnparsedPublicKey::verify with the ED25519 algorithm: a
/// deterministic accept/reject of the exact message bytes; a key or
/// signature of the wrong length is rejected, never a fault.
#[verifier::external_body]
fn ed25519_verify_bytes(msg: &[u8], sig: &[u8], pk: &[u8]) -> (r: bool)
    ensures
        r == ed25519_verifies(msg@, sig@, pk@),
{
    ring::signature::UnparsedPublicKey::new(&ring::signature::ED25519, pk).verify(msg, sig).is_ok()
}

/// Relies on the base64 crate's URL_SAFE_NO_PAD engine: encodes with the
/// URL-safe alphabet (letters, digits, `-`, `_`) and no padding.
#[verifier::external_body]
fn b64url_encode(bytes: &[u8]) -> (r: String)
    ensures
        r@ == b64url_of(bytes@),
        forall|i: int| 0 <= i < r@.len() ==> is_b64url_char(#[trigger] r@[i]),
{
    base64::engine::general_purpose::URL_SAFE_NO_PAD.encode(bytes)
}

/// Relies on the base64 crate's URL_SAFE_NO_PAD engine: decoding succeeds
/// exactly on canonical unpadded encodings (the engine rejects padding,
/// foreign characters and set trailing bits) and inverts encoding.
#[verifier::external_body]
fn b64url_decode(s: &str) -> (r: Option<Vec<u8>>)
    ensures
        r matches Some(b) ==> s@ == b64url_of(b@),
        r is None ==> forall|b: Seq<u8>| s@ != #[trigger] b64url_of(b),
        r matches Some(rb) ==> forall|b: Seq<u8>| s@ == #[trigger] b64url_of(b) ==> b == rb@,
{
    match base64::engine::general_purpose::URL_SAFE_NO_PAD.decode(s) {
        Ok(v) => Some(v),
        Err(_) => None,
    }
}

/// Whether a signature string is accepted for a message under a raw public
/// key: it is the base64url rendering of signature bytes that Ed25519
/// accepts for exactly that message.
pub open spec fn sig_valid(msg: Seq<u8>, sig_b64: Seq<char>, pk: Seq<u8>) -> bool {
    exists|b: Seq<u8>| sig_b64 == #[trigger] b64url_of(b) && ed25519_verifies(msg, b, pk)
}

/// Signs a message with a raw 64-byte seed-and-public-key signing key and
/// renders the signature as unpadded URL-safe base64. The produced
/// signature verifies under the key's public half.
pub fn sign(msg: &[u8], priv_key: &[u8]) -> (r: String)
    requires
        priv_key@.len() == 64,
        ed25519_key_ok(priv_key@),
    ensures
        r@ == b64url_of(ed25519_sig_of(msg@, priv_key@)),
        ed25519_verifies(msg@, ed25519_sig_of(msg@, priv_key@), pub_key_of(priv_key@)),
        sig_valid(msg@, r@, pub_key_of(priv_key@)),
        json_safe(r@),
{
    let sig = ed25519_sign_bytes(msg, priv_key);
    let out = b64url_encode(sig.as_slice());
    proof {
        lemma_b64url_chars_json_safe(out@);
    }
    out
}

/// Signs a message when — and only when — the key has the right length and
/// is coherent; a malformed key yields `None` rather than a fault.
pub fn try_sign(msg: &[u8], priv_key: &[u8]) -> (r: Option<String>)
    ensures
        r is Some <==> priv_key@.len() == 64 && ed25519_key_ok(priv_key@),
        r matches Some(s) ==> s@ == b64url_of(ed25519_sig_of(msg@, priv_key@)) && sig_valid(
            msg@,
            s@,
            pub_key_of(priv_key@),
        ) && json_safe(s@),
{
    if priv_key.len() != 64 {
        return None;
    }
    if !keypair_ok(priv_key) {
        return None;
    }
    Some(sign(msg, priv_key))
}

/// Verifies a base64url signature string against a message under a raw
/// 32-byte public key: true exactly when the string is the canonical
/// rendering of signature bytes that Ed25519 accepts for those bytes under
/// that key. Malformed base64 and wrong-length keys yield false.
pub fn verify(msg: &[u8], sig_b64: &str, pub_key: &[u8]) -> (r: bool)
    ensures
        r == sig_valid(msg@, sig_b64@, pub_key@),
{
    match b64url_decode(sig_b64) {
        Option::Some(sig) => {
            let ok = ed25519_verify_bytes(msg, sig.as_slice(), pub_key);
            proof {
                if ok {
                    assert(sig_b64@ == b64url_of(sig@) && ed25519_verifies(msg@, sig@, pub_key@));
                } else {
                    assert forall|b: Seq<u8>|
                        !(sig_b64@ == #[trigger] b64url_of(b) && ed25519_verifies(
                            msg@,
                            b,
                            pub_key@,
                        )) by {
                        if sig_b64@ == b64url_of(b) {
                            assert(b == sig@);
                        }
                    }
                }
            }
            ok
        },
        Option::None => {
            proof {
                assert forall|b: Seq<u8>| sig_b64@ != #[trigger] b64url_of(b) by {
                    if sig_b64@ == b64url_of(b) {
                        assert(false);
                    }
                }
            }
            false
        },
    }
}

/// The integrity status of one record under one public key.
#[derive(Clone, Copy, PartialEq, Eq, Structural, Debug)]
pub enum SigStatus {
    /// The record carries no signature: structurally a record, not signed.
    Unsigned,
    /// The record's signature verifies against its own canonical form.
    Valid,
    /// The record carries a signature that does not verify.
    Invalid,
}

impl SigStatus {
    /// A short human-readable account of the status.
    pub fn describe(&self) -> (r: &'static str)
        ensures
            r@ == match self {
                SigStatus::Unsigned => "structurally valid, not signed"@,
                SigStatus::Valid => "signature present and valid"@,
                SigStatus::Invalid => "signature present and invalid"@,
            },
    {
        match self {
            SigStatus::Unsigned => "structurally valid, not signed",
            SigStatus::Valid => "signature present and valid",
            SigStatus::Invalid => "signature present and invalid",
        }
    }
}

/// The verdict the verification protocol owes a record under a public key:
/// unsigned records are reported as unsigned; a signed record is valid
/// exactly when its signature verifies against the record's own canonical
/// bytes — the serialization with the signature cleared.
pub open spec fn verdict_of(rec: ResultRecord, pk: Seq<u8>) -> SigStatus {
    match rec.sig {
        Option::None => SigStatus::Unsigned,
        Option::Some(s) => if sig_valid(
            vstd::utf8::encode_utf8(canon_chars(rec)),
            s@,
            pk,
        ) {
            SigStatus::Valid
        } else {
            SigStatus::Invalid
        },
    }
}

/// Runs the verification protocol on a record: extract the signature,
/// re-serialize the record canonically (the same bytes that were signed),
/// and verify. Reports unsigned, valid, or invalid.
pub fn verify_record(rec: &ResultRecord, pub_key: &[u8]) -> (r: SigStatus)
    ensures
        r == verdict_of(*rec, pub_key@),
{
    match &rec.sig {
        Option::None => SigStatus::Unsigned,
        Option::Some(s) => {
            let canon = canonical_json(rec);
            if verify(canon.as_str().as_bytes(), s.as_str(), pub_key) {
                SigStatus::Valid
            } else {
                SigStatus::Invalid
            }
        },
    }
}

/// Signs a record: serializes its canonical form (with `sig` absent),
/// signs those bytes, and stores the rendered signature in the record. The
/// measurement fields are untouched, the canonical form is unchanged, and
/// the result verifies as valid under the key's public half.
pub fn sign_record(rec: ResultRecord, priv_key: &[u8]) -> (r: ResultRecord)
    requires
        priv_key@.len() == 64,
        ed25519_key_ok(priv_key@),
    ensures
        r.workload == rec.workload && r.threads == rec.threads && r.samples == rec.samples
            && r.iterations_per_sample == rec.iterations_per_sample && r.values@ == rec.values@
            && r.average == rec.average && r.min == rec.min && r.max == rec.max,
        canon_chars(r) == canon_chars(rec),
        r.sig matches Some(s) && s@ == b64url_of(
            ed25519_sig_of(vstd::utf8::encode_utf8(canon_chars(rec)), priv_key@),
        ) && json_safe(s@),
        verdict_of(r, pub_key_of(priv_key@)) == SigStatus::Valid,
{
    let canon = canonical_json(&rec);
    let s = sign(canon.as_str().as_bytes(), priv_key);
    let r = ResultRecord {
        workload: rec.workload,
        threads: rec.threads,
        samples: rec.samples,
        iterations_per_sample: rec.iterations_per_sample,
        values: rec.values,
        average: rec.average,
        min: rec.min,
        max: rec.max,
        sig: Some(s),
    };
    proof {
        assert(canon_chars(r) == canon_chars(rec));
    }
    r
}

/// Signs a record when the key has the right length and is coherent, and
/// returns the record unchanged otherwise: a missing or malformed key means
/// "run unsigned", which is not an error.
pub fn try_sign_record(rec: ResultRecord, priv_key: &[u8]) -> (r: ResultRecord)
    ensures
        priv_key@.len() == 64 && ed25519_key_ok(priv_key@) ==> (r.sig matches Some(s) && s@
            == b64url_of(ed25519_sig_of(vstd::utf8::encode_utf8(canon_chars(rec)), priv_key@))
            && verdict_of(r, pub_key_of(priv_key@)) == SigStatus::Valid),
        !(priv_key@.len() == 64 && ed25519_key_ok(priv_key@)) ==> r == rec,
        r.workload == rec.workload && r.threads == rec.threads && r.samples == rec.samples
            && r.iterations_per_sample == rec.iterations_per_sample && r.values@ == rec.values@
            && r.average == rec.average && r.min == rec.min && r.max == rec.max,
        canon_chars(r) == canon_chars(rec),
{
    if priv_key.len() == 64 && keypair_ok(priv_key) {
        sign_record(rec, priv_key)
    } else {
        rec
    }
}

} // verus!
