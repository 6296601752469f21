use rnp::error::Error;
use rnp::key::ProtectOptions;
use rnp::keygen::{GenerateCall, KeyBuilder, SubkeyBuilder};
use rnp::{Algorithm, Cipher, Compression, Curve, KeyUsage, PqcAlgorithm};

fn describe(c: &GenerateCall) -> String {
    match c {
        GenerateCall::SetBits(n) => format!("bits {n}"),
        GenerateCall::SetHash(h) => format!("hash {}", h.as_str()),
        GenerateCall::SetDsaQbits(n) => format!("qbits {n}"),
        GenerateCall::SetCurve(c) => format!("curve {}", c.as_str()),
        GenerateCall::SetUserid(s) => format!("userid {s}"),
        GenerateCall::SetExpiration(n) => format!("expiration {n}"),
        GenerateCall::AddUsage(u) => format!("usage {}", u.as_str()),
        GenerateCall::AddPrefHash(h) => format!("pref-hash {}", h.as_str()),
        GenerateCall::AddPrefCipher(c) => format!("pref-cipher {}", c.as_str()),
        GenerateCall::AddPrefCompression(c) => format!("pref-z {}", c.as_str()),
        GenerateCall::SetPrefKeyserver(s) => format!("keyserver {s}"),
        GenerateCall::SetProtectionPassword(s) => format!("password {s}"),
        GenerateCall::SetProtectionCipher(c) => format!("prot-cipher {}", c.as_str()),
        GenerateCall::SetProtectionHash(h) => format!("prot-hash {}", h.as_str()),
        GenerateCall::SetProtectionMode(s) => format!("prot-mode {s}"),
        GenerateCall::SetProtectionIterations(n) => format!("prot-iter {n}"),
        GenerateCall::SetRequestPassword => "request-password".to_string(),
        GenerateCall::SetV6Key => "v6".to_string(),
    }
}

fn described(calls: &[GenerateCall]) -> Vec<String> {
    calls.iter().map(describe).collect()
}

#[test]
fn key_plan_lists_setters_in_fixed_order() {
    let b = KeyBuilder::new(Algorithm::Rsa)
        .add_usage(KeyUsage::Sign)
        .userid("alice <alice@example.com>")
        .hash(rnp::algorithm::Hash::Sha256)
        .bits(2048)
        .add_usage(KeyUsage::Certify)
        .add_pref_cipher(Cipher::Aes256)
        .expiration(3600)
        .pref_keyserver("hkp://keys")
        .request_password();
    let plan = b.plan();
    assert!(plan.failure.is_none());
    assert_eq!(
        described(&plan.calls),
        vec![
            "bits 2048",
            "hash SHA256",
            "userid alice <alice@example.com>",
            "expiration 3600",
            "usage sign",
            "usage certify",
            "pref-cipher AES256",
            "keyserver hkp://keys",
            "request-password",
        ]
    );
    assert_eq!(b.alg(), Algorithm::Rsa);
}

#[test]
fn clearing_lists_drops_earlier_entries() {
    let b = KeyBuilder::new(Algorithm::Eddsa)
        .add_usage(KeyUsage::Sign)
        .add_pref_hash(rnp::algorithm::Hash::Sha512)
        .add_pref_cipher(Cipher::Aes128)
        .add_pref_compression(Compression::Zlib)
        .clear_usage()
        .clear_pref_hash()
        .clear_pref_cipher()
        .clear_pref_compression()
        .add_usage(KeyUsage::Certify);
    assert_eq!(described(&b.generate_calls()), vec!["usage certify"]);
}

#[test]
fn protection_and_v6_come_last() {
    let opts = ProtectOptions::new()
        .password("pw")
        .cipher(Cipher::Aes128)
        .hash(rnp::algorithm::Hash::Sha512)
        .mode("ocb")
        .iterations(usize::MAX);
    let b = KeyBuilder::new(Algorithm::Ecdsa)
        .curve(Curve::P256)
        .dsa_qbits(256)
        .protection(&opts)
        .v6();
    let calls = described(&b.plan().calls);
    assert_eq!(
        calls,
        vec![
            "qbits 256",
            "curve NIST P-256",
            "password pw",
            "prot-cipher AES128",
            "prot-hash SHA512",
            "prot-mode ocb",
            format!("prot-iter {}", u32::MAX).as_str(),
            "v6",
        ]
    );
}

#[test]
fn nul_in_userid_stops_plan_with_nul_byte() {
    let b = KeyBuilder::new(Algorithm::Rsa).bits(1024).userid("bad\0uid").add_usage(KeyUsage::Sign);
    assert!(!b.mode_unpassable());
    let plan = b.plan();
    assert_eq!(described(&plan.calls), vec!["bits 1024"]);
    assert!(matches!(plan.failure, Some(Error::NulByte)));
}

#[test]
fn nul_in_mode_is_unpassable_unless_an_earlier_nul_stops_first() {
    let opts = ProtectOptions::new().password("pw").mode("c\0fb");
    let b = KeyBuilder::new(Algorithm::Rsa).protection(&opts);
    assert!(b.mode_unpassable());
    let b2 = KeyBuilder::new(Algorithm::Rsa).userid("x\0").protection(&opts);
    assert!(!b2.mode_unpassable());
    assert!(matches!(b2.plan().failure, Some(Error::NulByte)));
    let s = SubkeyBuilder::new(Algorithm::Rsa).add_usage(KeyUsage::Sign);
    assert!(!s.mode_unpassable());
}

#[test]
fn subkey_plan_and_pqc_subkeys() {
    let s = SubkeyBuilder::new(Algorithm::Ecdh)
        .curve(Curve::P256)
        .expiration(10)
        .add_usage(KeyUsage::EncryptComms)
        .bits(0)
        .hash(rnp::algorithm::Hash::Sha384);
    assert_eq!(s.alg_str(), "ECDH");
    assert_eq!(
        described(&s.plan().calls),
        vec!["bits 0", "hash SHA384", "curve NIST P-256", "expiration 10", "usage encrypt"]
    );
    let k = KeyBuilder::new(Algorithm::Eddsa)
        .add_pqc_encryption_subkey(PqcAlgorithm::MlKem768X25519)
        .add_pqc_signing_subkey(PqcAlgorithm::MlDsa65Ed25519)
        .add_subkey(SubkeyBuilder::new_str("RSA").dsa_qbits(5));
    let subs = k.into_subkeys();
    assert_eq!(subs.len(), 3);
    assert_eq!(subs[0].alg_str(), "ML-KEM-768+X25519");
    assert_eq!(described(&subs[0].generate_calls()), vec!["usage encrypt"]);
    assert_eq!(subs[1].alg_str(), "ML-DSA-65+ED25519");
    assert_eq!(described(&subs[1].generate_calls()), vec!["usage sign"]);
    assert_eq!(described(&subs[2].generate_calls()), vec!["qbits 5"]);
}

#[test]
fn empty_builder_plans_nothing() {
    assert!(KeyBuilder::new(Algorithm::Dsa).plan().calls.is_empty());
    assert!(SubkeyBuilder::new(Algorithm::ElGamal).plan().calls.is_empty());
}

#[test]
fn one_call_generator_arguments() {
    let a = rnp::keygen::generate_key_ex_args(Some("RSA"), 2048, None, Some("ECDH"), 0, Some("NIST P-256"), "u")
        .unwrap();
    assert_eq!(a.key_alg.as_deref(), Some("RSA"));
    assert_eq!(a.key_bits, 2048);
    assert_eq!(a.key_curve, None);
    assert_eq!(a.sub_alg.as_deref(), Some("ECDH"));
    assert_eq!(a.sub_bits, 0);
    assert_eq!(a.sub_curve.as_deref(), Some("NIST P-256"));
    assert_eq!(a.userid, "u");
    assert!(matches!(
        rnp::keygen::generate_key_ex_args(None, 0, Some("c\0"), None, 0, None, "u"),
        Err(Error::NulByte)
    ));
    assert!(matches!(
        rnp::keygen::generate_key_ex_args(None, 0, None, None, 0, None, "\0"),
        Err(Error::NulByte)
    ));
}
