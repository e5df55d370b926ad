use threadstone::codec::canonical_json;
use threadstone::record::{ResultRecord, WorkloadId};
use threadstone::signing::{sign, try_sign, verify, sign_record, try_sign_record, verify_record, SigStatus};

fn hex(s: &str) -> Vec<u8> {
    let b = s.as_bytes();
    let mut out = Vec::new();
    let mut i: usize = 0;
    while i + 1 < b.len() {
        let d = |c: u8| -> u8 {
            match c {
                b'0'..=b'9' => c - b'0',
                b'a'..=b'f' => c - b'a' + 10,
                _ => panic!("not a hex digit"),
            }
        };
        out.push(d(b[i]) * 16 + d(b[i + 1]));
        i += 2;
    }
    out
}

/// Test keys: Ed25519 seed and matching public key pairs published in
/// RFC 8032, section 7.1.
fn key1() -> Vec<u8> {
    let mut k = hex("9d61b19deffd5a60ba844af492ec2cc44449c5697b326919703bac031cae7f60");
    k.extend(pub1());
    k
}

fn pub1() -> Vec<u8> {
    hex("d75a980182b10ab7d54bfed3c964073a0ee172f3daa62325af021a68f707511a")
}

fn key2() -> Vec<u8> {
    let mut k = hex("4ccd089b28ff96da9db6c346ec114e0f5b8a319f35aba624da8cf6ed4fb8a6fb");
    k.extend(pub2());
    k
}

fn pub2() -> Vec<u8> {
    hex("3d4017c3e843895a92b70aa74d1b7ebc9c982ccf2ec4968cc0cd55f12af4660c")
}

fn small_record() -> ResultRecord {
    ResultRecord {
        workload: WorkloadId::Dhrystone,
        threads: 2,
        samples: 2,
        iterations_per_sample: 1000,
        values: vec![5, 15],
        average: 10,
        min: 5,
        max: 15,
        sig: None,
    }
}

#[test]
fn signature_matches_the_published_test_vector() {
    // RFC 8032 test vector 2: one-byte message 0x72 under the second key
    let sig = sign(&[0x72], &key2());
    assert_eq!(
        sig,
        "kqAJqfDUyrhyDoILX2QlQKKye1QWUD-Ps3YiI-vbadoIWsHkPhWZbkWPNhPQ8R2MOHsurrQwKu6wDSkWErsMAA"
    );
}

#[test]
fn sign_then_verify_round_trips() {
    let payloads: Vec<Vec<u8>> = vec![
        vec![0x72],
        b"a small payload".to_vec(),
        canonical_json(&small_record()).into_bytes(),
    ];
    for msg in payloads {
        assert!(!msg.is_empty());
        let sig = sign(&msg, &key1());
        assert!(verify(&msg, &sig, &pub1()));
        let sig2 = sign(&msg, &key2());
        assert!(verify(&msg, &sig2, &pub2()));
    }
}

#[test]
fn flipping_any_single_byte_breaks_verification() {
    let msg = canonical_json(&small_record()).into_bytes();
    let sig = sign(&msg, &key1());
    assert!(verify(&msg, &sig, &pub1()));
    for i in 0..msg.len() {
        let mut tampered = msg.clone();
        tampered[i] ^= 0x01;
        assert!(!verify(&tampered, &sig, &pub1()), "byte {} went unnoticed", i);
    }
}

#[test]
fn verifying_under_an_unrelated_key_fails() {
    let msg = b"measurements".to_vec();
    let sig = sign(&msg, &key1());
    assert!(!verify(&msg, &sig, &pub2()));
}

#[test]
fn malformed_signatures_are_rejected_not_faulted() {
    let msg = b"measurements".to_vec();
    assert!(!verify(&msg, "not base64!!", &pub1()));
    assert!(!verify(&msg, "", &pub1()));
    assert!(!verify(&msg, "AAAA", &pub1())); // well-formed base64, wrong length
    let sig = sign(&msg, &key1());
    let padded = format!("{}==", sig);
    assert!(!verify(&msg, &padded, &pub1()), "padding is not canonical");
    assert!(!verify(&msg, &sig, &[0u8; 7]), "wrong-length key is rejected");
}

#[test]
fn try_sign_refuses_malformed_keys() {
    let msg = b"measurements".to_vec();
    assert!(try_sign(&msg, &[0u8; 7]).is_none());
    let mut incoherent = key1();
    incoherent[40] ^= 0xff; // public half no longer matches the seed
    assert!(try_sign(&msg, &incoherent).is_none());
    assert!(try_sign(&msg, &key1()).is_some());
}

#[test]
fn signed_record_verifies_and_tampered_record_does_not() {
    let rec = sign_record(small_record(), &key1());
    assert!(rec.sig.is_some());
    assert_eq!(verify_record(&rec, &pub1()), SigStatus::Valid);
    assert_eq!(verify_record(&rec, &pub2()), SigStatus::Invalid);

    // mutating a sampled value after signing must be noticed
    let mut tampered = rec;
    tampered.values[0] ^= 1;
    assert_eq!(verify_record(&tampered, &pub1()), SigStatus::Invalid);
}

#[test]
fn unsigned_record_is_reported_as_unsigned() {
    let rec = small_record();
    assert_eq!(verify_record(&rec, &pub1()), SigStatus::Unsigned);
    assert_eq!(SigStatus::Unsigned.describe(), "structurally valid, not signed");
}

#[test]
fn try_sign_record_leaves_the_record_unsigned_on_a_bad_key() {
    let rec = try_sign_record(small_record(), &[1, 2, 3]);
    assert!(rec.sig.is_none());
    let signed = try_sign_record(small_record(), &key1());
    assert_eq!(verify_record(&signed, &pub1()), SigStatus::Valid);
}

struct BudgetKernel;

impl threadstone::harness::Kernel for BudgetKernel {
    fn run(&self, budget: u64) -> u64 {
        budget / 2 + 1
    }
}

#[test]
fn measured_signed_and_verified_end_to_end() {
    // all logical cores, five samples, a fixed work budget
    let rec = threadstone::record::run_workload(
        &BudgetKernel,
        WorkloadId::Dhrystone,
        0,
        5,
        50_000,
    )
    .unwrap();
    assert_eq!(rec.threads, num_cpus::get() as u64);
    assert_eq!(rec.samples, 5);
    assert_eq!(rec.values.len(), 5);
    assert!(rec.min <= rec.average && rec.average <= rec.max);

    let signed = sign_record(rec, &key1());
    assert_eq!(verify_record(&signed, &pub1()), SigStatus::Valid);
    assert_eq!(SigStatus::Valid.describe(), "signature present and valid");
    assert_eq!(verify_record(&signed, &pub2()), SigStatus::Invalid);
    assert_eq!(SigStatus::Invalid.describe(), "signature present and invalid");
}

#[test]
fn signing_does_not_disturb_the_measurement_fields() {
    let rec = sign_record(small_record(), &key1());
    let base = small_record();
    assert_eq!(rec.workload, base.workload);
    assert_eq!(rec.threads, base.threads);
    assert_eq!(rec.samples, base.samples);
    assert_eq!(rec.iterations_per_sample, base.iterations_per_sample);
    assert_eq!(rec.values, base.values);
    assert_eq!(rec.average, base.average);
    assert_eq!(rec.min, base.min);
    assert_eq!(rec.max, base.max);
    assert_eq!(canonical_json(&rec), canonical_json(&base));
}
