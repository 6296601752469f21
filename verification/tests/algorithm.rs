use rnp::algorithm::librnp_supports_pqc;
use rnp::error::Error;
use rnp::{Algorithm, Cipher, Compression, Curve, KeyUsage, PqcAlgorithm};

#[test]
fn algorithm_names_match_librnp() {
    assert_eq!(Algorithm::Rsa.as_str(), "RSA");
    assert_eq!(Algorithm::ElGamal.as_str(), "ELGAMAL");
    assert_eq!(Algorithm::Dsa.as_str(), "DSA");
    assert_eq!(Algorithm::Ecdh.as_str(), "ECDH");
    assert_eq!(Algorithm::Ecdsa.as_str(), "ECDSA");
    assert_eq!(Algorithm::Eddsa.as_str(), "EDDSA");
    assert_eq!(Algorithm::Sm2.as_str(), "SM2");
}

#[test]
fn algorithm_capabilities() {
    let all = [
        Algorithm::Rsa,
        Algorithm::ElGamal,
        Algorithm::Dsa,
        Algorithm::Ecdh,
        Algorithm::Ecdsa,
        Algorithm::Eddsa,
        Algorithm::Sm2,
    ];
    for a in all {
        // every algorithm can do at least one of the two
        assert!(a.is_signature() || a.is_encryption(), "{:?}", a);
    }
    assert!(Algorithm::Rsa.is_signature() && Algorithm::Rsa.is_encryption());
    assert!(Algorithm::Sm2.is_signature() && Algorithm::Sm2.is_encryption());
    assert!(!Algorithm::ElGamal.is_signature());
    assert!(!Algorithm::Ecdh.is_signature());
    assert!(!Algorithm::Dsa.is_encryption());
    assert!(!Algorithm::Eddsa.is_encryption());
}

#[test]
fn hash_names_and_digest_sizes() {
    assert_eq!(rnp::algorithm::Hash::Sha256.as_str(), "SHA256");
    assert_eq!(rnp::algorithm::Hash::Sha3_256.as_str(), "SHA3-256");
    assert_eq!(rnp::algorithm::Hash::Ripemd160.as_str(), "RIPEMD160");
    assert_eq!(rnp::algorithm::Hash::Sha256.digest_size(), 32);
    assert_eq!(rnp::algorithm::Hash::Sha1.digest_size(), 20);
    assert_eq!(rnp::algorithm::Hash::Sha224.digest_size(), 28);
    assert_eq!(rnp::algorithm::Hash::Sha384.digest_size(), 48);
    assert_eq!(rnp::algorithm::Hash::Sha512.digest_size(), 64);
    assert_eq!(rnp::algorithm::Hash::Sha3_512.digest_size(), 64);
    assert_eq!(rnp::algorithm::Hash::Md5.digest_size(), 16);
    assert_eq!(rnp::algorithm::Hash::Sm3.digest_size(), 32);
}

#[test]
fn cipher_names_and_sizes() {
    assert_eq!(Cipher::Aes256.as_str(), "AES256");
    assert_eq!(Cipher::Tripledes.as_str(), "TRIPLEDES");
    assert_eq!(Cipher::Camellia192.as_str(), "CAMELLIA192");
    assert_eq!(Cipher::Aes128.key_size(), 16);
    assert_eq!(Cipher::Aes192.key_size(), 24);
    assert_eq!(Cipher::Aes256.key_size(), 32);
    assert_eq!(Cipher::Tripledes.key_size(), 24);
    assert_eq!(Cipher::Twofish.key_size(), 32);
    // SM4 takes a 128-bit key
    assert_eq!(Cipher::Sm4.key_size(), 16);
    assert_eq!(Cipher::Idea.key_size(), 16);
    assert_eq!(Cipher::Camellia128.key_size(), 16);
    assert_eq!(Cipher::Camellia192.key_size(), 24);
    assert_eq!(Cipher::Camellia256.key_size(), 32);
    assert_eq!(Cipher::Aes256.block_size(), 16);
    assert_eq!(Cipher::Cast5.block_size(), 8);
    assert_eq!(Cipher::Idea.block_size(), 8);
    assert_eq!(Cipher::Sm4.block_size(), 16);
}

#[test]
fn curve_compression_usage_names() {
    assert_eq!(Curve::P256.as_str(), "NIST P-256");
    assert_eq!(Compression::Zip.as_str(), "ZIP");
    assert_eq!(Compression::Zlib.as_str(), "ZLIB");
    assert_eq!(Compression::Bzip2.as_str(), "BZIP2");
    assert_eq!(KeyUsage::Certify.as_str(), "certify");
    assert_eq!(KeyUsage::Sign.as_str(), "sign");
    assert_eq!(KeyUsage::EncryptComms.as_str(), "encrypt");
    assert_eq!(KeyUsage::EncryptStorage.as_str(), "encrypt");
}

#[test]
fn pqc_names_and_probe() {
    assert_eq!(PqcAlgorithm::MlKem768X25519.as_str(), "ML-KEM-768+X25519");
    assert_eq!(PqcAlgorithm::MlDsa65Ed25519.as_str(), "ML-DSA-65+ED25519");
    assert_eq!(PqcAlgorithm::SlhDsaShake256s.as_str(), "SLH-DSA-SHAKE-256s");
    assert!(librnp_supports_pqc(Ok(true)));
    assert!(!librnp_supports_pqc(Ok(false)));
    assert!(!librnp_supports_pqc(Err(Error::NullPointer)));
}
