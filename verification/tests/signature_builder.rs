use rnp::key::{RevocationCode, RevocationReason};
use rnp::key_signature_builder::{
    CertificationBuilder, ConfiguredBuilder, DirectSignatureBuilder, RevocationSignatureBuilder,
    SignatureCall, SignatureRequest, SignatureSetterOps,
};
use rnp::{Cipher, Compression};

fn describe(c: &SignatureCall<&str>) -> String {
    match c {
        SignatureCall::SetHash(h) => format!("hash {}", h.as_str()),
        SignatureCall::SetCreation(t) => format!("creation {t}"),
        SignatureCall::SetKeyFlags(f) => format!("flags {f}"),
        SignatureCall::SetKeyExpiration(s) => format!("expiration {s}"),
        SignatureCall::SetFeatures(b) => format!("features {b}"),
        SignatureCall::AddPreferredCipher(c) => format!("pref-cipher {}", c.as_str()),
        SignatureCall::AddPreferredHash(h) => format!("pref-hash {}", h.as_str()),
        SignatureCall::AddPreferredCompression(c) => format!("pref-z {}", c.as_str()),
        SignatureCall::SetPrimaryUid(p) => format!("primary {p}"),
        SignatureCall::SetKeyServer(u) => format!("keyserver {u}"),
        SignatureCall::SetKeyServerPrefs(p) => format!("keyserver-prefs {p}"),
        SignatureCall::SetRevocationReason(c, t) => format!("reason {} {:?}", c.as_str(), t),
        SignatureCall::SetRevoker(k) => format!("revoker {k}"),
        SignatureCall::SetTrustLevel(l, a) => format!("trust {l} {a}"),
    }
}

fn described(b: &ConfiguredBuilder<&str, &str>) -> Vec<String> {
    b.calls.iter().map(describe).collect()
}

#[test]
fn certification_records_setters_in_chain_order() {
    let b = CertificationBuilder::with_type_str("alice", "uid0", "positive")
        .configure()
        .hash(rnp::algorithm::Hash::Sha256)
        .creation(100)
        .key_flags(3)
        .key_expiration(86400)
        .features(1)
        .add_preferred_cipher(Cipher::Aes256)
        .add_preferred_hash(rnp::algorithm::Hash::Sha512)
        .add_preferred_compression(Compression::Zip)
        .primary_uid(true)
        .key_server("hkps://keys.example")
        .key_server_prefs(0x80)
        .trust_level(1, 120);
    match &b.request {
        SignatureRequest::Certification { signer, uid, cert_type } => {
            assert_eq!(*signer, "alice");
            assert_eq!(*uid, "uid0");
            assert_eq!(cert_type.as_deref(), Some("positive"));
        }
        _ => panic!("wrong request"),
    }
    assert_eq!(
        described(&b),
        vec![
            "hash SHA256",
            "creation 100",
            "flags 3",
            "expiration 86400",
            "features 1",
            "pref-cipher AES256",
            "pref-hash SHA512",
            "pref-z ZIP",
            "primary true",
            "keyserver hkps://keys.example",
            "keyserver-prefs 128",
            "trust 1 120",
        ]
    );
}

#[test]
fn nul_url_is_skipped_and_nul_reason_text_dropped() {
    let b: ConfiguredBuilder<&str, &str> = RevocationSignatureBuilder::new("alice", None)
        .configure()
        .key_server("bad\0url")
        .revocation_reason(RevocationReason::new(RevocationCode::Compromised).with_reason("lost\0key"))
        .revocation_reason(RevocationReason::new(RevocationCode::Retired).with_reason("old"))
        .revocation_reason(RevocationReason::new(RevocationCode::NoReason))
        .revoker("bob");
    assert!(matches!(b.request, SignatureRequest::Revocation { signer: "alice", target: None }));
    assert_eq!(
        described(&b),
        vec![
            "reason compromised None",
            "reason retired Some(\"old\")",
            "reason no None",
            "revoker bob",
        ]
    );
}

#[test]
fn direct_and_plain_certification_requests() {
    let d: ConfiguredBuilder<&str, &str> = DirectSignatureBuilder::new("alice", Some("bob")).configure();
    assert!(matches!(d.request, SignatureRequest::Direct { signer: "alice", target: Some("bob") }));
    assert!(d.calls.is_empty());
    let c = CertificationBuilder::new("alice", "uid").configure();
    assert!(matches!(c.request, SignatureRequest::Certification { cert_type: None, .. }));
}
