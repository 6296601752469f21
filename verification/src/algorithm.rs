//! Domain primitives: public-key algorithms, curves, hashes, ciphers,
//! compression, key usage.
//!
//! Each enum maps to the algorithm-name strings of `rnp.h`; the mapping is
//! stated by a spec function beside it, and `as_str` returns exactly that
//! name.

use vstd::prelude::*;

verus! {

// ---------------------------------------------------------------------------
// Public-key algorithms
// ---------------------------------------------------------------------------

/// Public-key algorithm. Maps to the `RNP_ALGNAME_*` string constants.
#[derive(Clone, Copy, Debug, PartialEq, Eq, Structural)]
#[non_exhaustive]
pub enum Algorithm {
    /// `"RSA"`. Used for primary or subkey; supports sign + encrypt (legacy).
    Rsa,
    /// `"ELGAMAL"`. Subkey only, encryption.
    ElGamal,
    /// `"DSA"`. Primary only, signing.
    Dsa,
    /// `"ECDH"`. Subkey only, encryption.
    Ecdh,
    /// `"ECDSA"`. Primary or subkey, signing.
    Ecdsa,
    /// `"EDDSA"`. Primary or subkey, signing (Ed25519 curve).
    Eddsa,
    /// `"SM2"`. Primary or subkey, sign + encrypt.
    Sm2,
}

/// The librnp name of a public-key algorithm.
pub open spec fn algorithm_name(a: Algorithm) -> Seq<char> {
    match a {
        Algorithm::Rsa => "RSA"@,
        Algorithm::ElGamal => "ELGAMAL"@,
        Algorithm::Dsa => "DSA"@,
        Algorithm::Ecdh => "ECDH"@,
        Algorithm::Ecdsa => "ECDSA"@,
        Algorithm::Eddsa => "EDDSA"@,
        Algorithm::Sm2 => "SM2"@,
    }
}

/// The signing-capable public-key algorithms.
pub open spec fn signs(a: Algorithm) -> bool {
    a is Rsa || a is Dsa || a is Ecdsa || a is Eddsa || a is Sm2
}

/// The encryption-capable public-key algorithms.
pub open spec fn encrypts(a: Algorithm) -> bool {
    a is Rsa || a is Ecdh || a is ElGamal || a is Sm2
}

impl Algorithm {
    pub fn as_str(self) -> (s: &'static str)
        ensures
            s@ == algorithm_name(self),
    {
        match self {
            Algorithm::Rsa => "RSA",
            Algorithm::ElGamal => "ELGAMAL",
            Algorithm::Dsa => "DSA",
            Algorithm::Ecdh => "ECDH",
            Algorithm::Ecdsa => "ECDSA",
            Algorithm::Eddsa => "EDDSA",
            Algorithm::Sm2 => "SM2",
        }
    }

    /// Whether this algorithm can produce signatures (DSA, ECDSA, EdDSA,
    /// SM2, RSA).
    pub fn is_signature(self) -> (r: bool)
        ensures
            r == signs(self),
    {
        match self {
            Algorithm::Rsa | Algorithm::Dsa | Algorithm::Ecdsa | Algorithm::Eddsa
            | Algorithm::Sm2 => true,
            _ => false,
        }
    }

    /// Whether this algorithm can perform public-key encryption / key
    /// encapsulation (RSA, ECDH, ElGamal, SM2).
    pub fn is_encryption(self) -> (r: bool)
        ensures
            r == encrypts(self),
    {
        match self {
            Algorithm::Rsa | Algorithm::Ecdh | Algorithm::ElGamal | Algorithm::Sm2 => true,
            _ => false,
        }
    }
}

/// Every public-key algorithm can sign, encrypt, or both; exactly RSA and
/// SM2 can do both.
pub proof fn law_algorithm_capabilities(a: Algorithm)
    ensures
        signs(a) || encrypts(a),
        (signs(a) && encrypts(a)) <==> (a is Rsa || a is Sm2),
{
}

/// Each algorithm's capability: RSA and SM2 sign and encrypt; DSA, ECDSA
/// and EdDSA only sign; ECDH and ElGamal only encrypt. By name: the
/// algorithms named `...DSA` sign and do not encrypt, and `ECDH` and
/// `ELGAMAL` encrypt and do not sign.
pub proof fn law_algorithm_capability_table(a: Algorithm)
    ensures
        signs(Algorithm::Rsa) && encrypts(Algorithm::Rsa),
        signs(Algorithm::Sm2) && encrypts(Algorithm::Sm2),
        signs(Algorithm::Dsa) && !encrypts(Algorithm::Dsa),
        signs(Algorithm::Ecdsa) && !encrypts(Algorithm::Ecdsa),
        signs(Algorithm::Eddsa) && !encrypts(Algorithm::Eddsa),
        !signs(Algorithm::Ecdh) && encrypts(Algorithm::Ecdh),
        !signs(Algorithm::ElGamal) && encrypts(Algorithm::ElGamal),
        algorithm_name(a).len() >= 3 && algorithm_name(a).subrange(
            algorithm_name(a).len() - 3,
            algorithm_name(a).len() as int,
        ) == "DSA"@ ==> signs(a) && !encrypts(a),
        (algorithm_name(a) == "ECDH"@ || algorithm_name(a) == "ELGAMAL"@) ==> encrypts(a) && !signs(
            a,
        ),
{
    reveal_strlit("RSA");
    reveal_strlit("ELGAMAL");
    reveal_strlit("DSA");
    reveal_strlit("ECDH");
    reveal_strlit("ECDSA");
    reveal_strlit("EDDSA");
    reveal_strlit("SM2");
    let n = algorithm_name(a);
    match a {
        Algorithm::Rsa => {
            assert(n.subrange(0, 3) =~= n);
            assert(n[0] != "DSA"@[0]);
            assert(n.len() != "ECDH"@.len());
            assert(n.len() != "ELGAMAL"@.len());
        },
        Algorithm::Sm2 => {
            assert(n.subrange(0, 3) =~= n);
            assert(n[0] != "DSA"@[0]);
            assert(n.len() != "ECDH"@.len());
            assert(n.len() != "ELGAMAL"@.len());
        },
        Algorithm::Ecdh => {
            assert(n.subrange(1, 4)[0] != "DSA"@[0]);
        },
        Algorithm::ElGamal => {
            assert(n.subrange(4, 7)[0] != "DSA"@[0]);
        },
        Algorithm::Dsa => {
            assert(n.len() != "ECDH"@.len());
            assert(n.len() != "ELGAMAL"@.len());
        },
        Algorithm::Ecdsa => {
            assert(n.len() != "ECDH"@.len());
            assert(n.len() != "ELGAMAL"@.len());
        },
        Algorithm::Eddsa => {
            assert(n.len() != "ECDH"@.len());
            assert(n.len() != "ELGAMAL"@.len());
        },
    }
}

// ---------------------------------------------------------------------------
// PQC composite algorithms
// ---------------------------------------------------------------------------

/// PQC composite algorithms. Meaningful only with a librnp built with
/// `ENABLE_PQC=ON`; these wrap the `RNP_ALGNAME_*` PQC string constants.
#[derive(Clone, Copy, Debug, PartialEq, Eq, Structural)]
pub enum PqcAlgorithm {
    MlKem768X25519,
    MlKem1024X448,
    MlKem768P384,
    MlKem1024P521,
    MlKem768Bp384,
    MlKem1024Bp512,
    MlDsa65Ed25519,
    MlDsa87Ed448,
    MlDsa65P384,
    MlDsa87P521,
    MlDsa65Bp384,
    MlDsa87Bp512,
    SlhDsaShake128f,
    SlhDsaShake128s,
    SlhDsaShake256s,
}

/// The librnp name of a PQC composite algorithm.
pub open spec fn pqc_algorithm_name(a: PqcAlgorithm) -> Seq<char> {
    match a {
        PqcAlgorithm::MlKem768X25519 => "ML-KEM-768+X25519"@,
        PqcAlgorithm::MlKem1024X448 => "ML-KEM-1024+X448"@,
        PqcAlgorithm::MlKem768P384 => "ML-KEM-768+ECDH-P384"@,
        PqcAlgorithm::MlKem1024P521 => "ML-KEM-1024+ECDH-P521"@,
        PqcAlgorithm::MlKem768Bp384 => "ML-KEM-768+ECDH-BP384"@,
        PqcAlgorithm::MlKem1024Bp512 => "ML-KEM-1024+ECDH-BP512"@,
        PqcAlgorithm::MlDsa65Ed25519 => "ML-DSA-65+ED25519"@,
        PqcAlgorithm::MlDsa87Ed448 => "ML-DSA-87+ED448"@,
        PqcAlgorithm::MlDsa65P384 => "ML-DSA-65+ECDSA-P384"@,
        PqcAlgorithm::MlDsa87P521 => "ML-DSA-87+ECDSA-P521"@,
        PqcAlgorithm::MlDsa65Bp384 => "ML-DSA-65+ECDSA-BP384"@,
        PqcAlgorithm::MlDsa87Bp512 => "ML-DSA-87+ECDSA-BP512"@,
        PqcAlgorithm::SlhDsaShake128f => "SLH-DSA-SHAKE-128f"@,
        PqcAlgorithm::SlhDsaShake128s => "SLH-DSA-SHAKE-128s"@,
        PqcAlgorithm::SlhDsaShake256s => "SLH-DSA-SHAKE-256s"@,
    }
}

impl PqcAlgorithm {
    pub fn as_str(self) -> (s: &'static str)
        ensures
            s@ == pqc_algorithm_name(self),
    {
        match self {
            PqcAlgorithm::MlKem768X25519 => "ML-KEM-768+X25519",
            PqcAlgorithm::MlKem1024X448 => "ML-KEM-1024+X448",
            PqcAlgorithm::MlKem768P384 => "ML-KEM-768+ECDH-P384",
            PqcAlgorithm::MlKem1024P521 => "ML-KEM-1024+ECDH-P521",
            PqcAlgorithm::MlKem768Bp384 => "ML-KEM-768+ECDH-BP384",
            PqcAlgorithm::MlKem1024Bp512 => "ML-KEM-1024+ECDH-BP512",
            PqcAlgorithm::MlDsa65Ed25519 => "ML-DSA-65+ED25519",
            PqcAlgorithm::MlDsa87Ed448 => "ML-DSA-87+ED448",
            PqcAlgorithm::MlDsa65P384 => "ML-DSA-65+ECDSA-P384",
            PqcAlgorithm::MlDsa87P521 => "ML-DSA-87+ECDSA-P521",
            PqcAlgorithm::MlDsa65Bp384 => "ML-DSA-65+ECDSA-BP384",
            PqcAlgorithm::MlDsa87Bp512 => "ML-DSA-87+ECDSA-BP512",
            PqcAlgorithm::SlhDsaShake128f => "SLH-DSA-SHAKE-128f",
            PqcAlgorithm::SlhDsaShake128s => "SLH-DSA-SHAKE-128s",
            PqcAlgorithm::SlhDsaShake256s => "SLH-DSA-SHAKE-256s",
        }
    }
}

/// The algorithm name whose support shows that the linked librnp was built
/// with PQC enabled.
pub open spec fn pqc_probe_name() -> Seq<char> {
    "ML-KEM-768+X25519"@
}

/// Runtime PQC probe, given librnp's answer to "is the public-key
/// algorithm [`pqc_probe_name`] supported?": a failed query counts as
/// "not supported".
pub fn librnp_supports_pqc(probe_answer: Result<bool, crate::error::Error>) -> (r: bool)
    ensures
        r == (probe_answer matches Ok(b) && b),
{
    match probe_answer {
        Ok(b) => b,
        Err(_) => false,
    }
}

// ---------------------------------------------------------------------------
// Curves
// ---------------------------------------------------------------------------

/// Elliptic curve name.
#[derive(Clone, Copy, Debug, PartialEq, Eq, Structural)]
#[non_exhaustive]
pub enum Curve {
    /// `"NIST P-256"` (secp256r1).
    P256,
    /// `"NIST P-384"` (secp384r1).
    P384,
    /// `"NIST P-521"` (secp521r1).
    P521,
    /// `"Ed25519"` — used with `Algorithm::Eddsa`.
    Ed25519,
    /// `"Curve25519"` — used with `Algorithm::Ecdh`.
    Curve25519,
    /// `"brainpoolP256r1"`.
    Bp256,
    /// `"brainpoolP384r1"`.
    Bp384,
    /// `"brainpoolP512r1"`.
    Bp512,
    /// `"secp256k1"` — Bitcoin curve.
    Secp256k1,
    /// `"SM2 P-256"`.
    Sm2P256,
}

/// The librnp name of a curve.
pub open spec fn curve_name(c: Curve) -> Seq<char> {
    match c {
        Curve::P256 => "NIST P-256"@,
        Curve::P384 => "NIST P-384"@,
        Curve::P521 => "NIST P-521"@,
        Curve::Ed25519 => "Ed25519"@,
        Curve::Curve25519 => "Curve25519"@,
        Curve::Bp256 => "brainpoolP256r1"@,
        Curve::Bp384 => "brainpoolP384r1"@,
        Curve::Bp512 => "brainpoolP512r1"@,
        Curve::Secp256k1 => "secp256k1"@,
        Curve::Sm2P256 => "SM2 P-256"@,
    }
}

impl Curve {
    pub fn as_str(self) -> (s: &'static str)
        ensures
            s@ == curve_name(self),
    {
        match self {
            Curve::P256 => "NIST P-256",
            Curve::P384 => "NIST P-384",
            Curve::P521 => "NIST P-521",
            Curve::Ed25519 => "Ed25519",
            Curve::Curve25519 => "Curve25519",
            Curve::Bp256 => "brainpoolP256r1",
            Curve::Bp384 => "brainpoolP384r1",
            Curve::Bp512 => "brainpoolP512r1",
            Curve::Secp256k1 => "secp256k1",
            Curve::Sm2P256 => "SM2 P-256",
        }
    }
}

// ---------------------------------------------------------------------------
// Hashes
// ---------------------------------------------------------------------------

/// Hash algorithm.
#[derive(Clone, Copy, Debug, PartialEq, Eq, Structural)]
#[non_exhaustive]
pub enum Hash {
    Sha1,
    Sha224,
    Sha256,
    Sha384,
    Sha512,
    Sha3_256,
    Sha3_512,
    Md5,
    Ripemd160,
    Sm3,
}

/// The librnp name of a hash algorithm.
pub open spec fn hash_name(h: Hash) -> Seq<char> {
    match h {
        Hash::Sha1 => "SHA1"@,
        Hash::Sha224 => "SHA224"@,
        Hash::Sha256 => "SHA256"@,
        Hash::Sha384 => "SHA384"@,
        Hash::Sha512 => "SHA512"@,
        Hash::Sha3_256 => "SHA3-256"@,
        Hash::Sha3_512 => "SHA3-512"@,
        Hash::Md5 => "MD5"@,
        Hash::Ripemd160 => "RIPEMD160"@,
        Hash::Sm3 => "SM3"@,
    }
}

/// Digest size in bytes.
pub open spec fn digest_bytes(h: Hash) -> nat {
    match h {
        Hash::Sha1 | Hash::Ripemd160 => 20,
        Hash::Sha224 => 28,
        Hash::Sha256 | Hash::Sha3_256 | Hash::Sm3 => 32,
        Hash::Sha384 => 48,
        Hash::Sha512 | Hash::Sha3_512 => 64,
        Hash::Md5 => 16,
    }
}

impl Hash {
    pub fn as_str(self) -> (s: &'static str)
        ensures
            s@ == hash_name(self),
    {
        match self {
            Hash::Sha1 => "SHA1",
            Hash::Sha224 => "SHA224",
            Hash::Sha256 => "SHA256",
            Hash::Sha384 => "SHA384",
            Hash::Sha512 => "SHA512",
            Hash::Sha3_256 => "SHA3-256",
            Hash::Sha3_512 => "SHA3-512",
            Hash::Md5 => "MD5",
            Hash::Ripemd160 => "RIPEMD160",
            Hash::Sm3 => "SM3",
        }
    }

    /// Digest size in bytes (e.g. SHA-256 → 32).
    pub fn digest_size(self) -> (n: usize)
        ensures
            n == digest_bytes(self),
    {
        match self {
            Hash::Sha1 | Hash::Ripemd160 => 20,
            Hash::Sha224 => 28,
            Hash::Sha256 | Hash::Sha3_256 | Hash::Sm3 => 32,
            Hash::Sha384 => 48,
            Hash::Sha512 | Hash::Sha3_512 => 64,
            Hash::Md5 => 16,
        }
    }
}

// ---------------------------------------------------------------------------
// Symmetric ciphers
// ---------------------------------------------------------------------------

/// Symmetric cipher. Used in protection, encryption, AEAD.
#[derive(Clone, Copy, Debug, PartialEq, Eq, Structural)]
#[non_exhaustive]
pub enum Cipher {
    Idea,
    Tripledes,
    Cast5,
    Blowfish,
    Aes128,
    Aes192,
    Aes256,
    Twofish,
    Camellia128,
    Camellia192,
    Camellia256,
    Sm4,
}

/// The librnp name of a symmetric cipher.
pub open spec fn cipher_name(c: Cipher) -> Seq<char> {
    match c {
        Cipher::Idea => "IDEA"@,
        Cipher::Tripledes => "TRIPLEDES"@,
        Cipher::Cast5 => "CAST5"@,
        Cipher::Blowfish => "BLOWFISH"@,
        Cipher::Aes128 => "AES128"@,
        Cipher::Aes192 => "AES192"@,
        Cipher::Aes256 => "AES256"@,
        Cipher::Twofish => "TWOFISH"@,
        Cipher::Camellia128 => "CAMELLIA128"@,
        Cipher::Camellia192 => "CAMELLIA192"@,
        Cipher::Camellia256 => "CAMELLIA256"@,
        Cipher::Sm4 => "SM4"@,
    }
}

/// Symmetric key size in bytes.
pub open spec fn cipher_key_bytes(c: Cipher) -> nat {
    match c {
        Cipher::Idea | Cipher::Cast5 | Cipher::Blowfish => 16,
        Cipher::Tripledes => 24,
        Cipher::Aes128 | Cipher::Camellia128 | Cipher::Sm4 => 16,
        Cipher::Aes192 | Cipher::Camellia192 => 24,
        Cipher::Aes256 | Cipher::Camellia256 | Cipher::Twofish => 32,
    }
}

/// Block size in bytes: 8 for the 64-bit block ciphers, 16 for the rest.
pub open spec fn cipher_block_bytes(c: Cipher) -> nat {
    match c {
        Cipher::Blowfish | Cipher::Cast5 | Cipher::Tripledes | Cipher::Idea => 8,
        _ => 16,
    }
}

impl Cipher {
    pub fn as_str(self) -> (s: &'static str)
        ensures
            s@ == cipher_name(self),
    {
        match self {
            Cipher::Idea => "IDEA",
            Cipher::Tripledes => "TRIPLEDES",
            Cipher::Cast5 => "CAST5",
            Cipher::Blowfish => "BLOWFISH",
            Cipher::Aes128 => "AES128",
            Cipher::Aes192 => "AES192",
            Cipher::Aes256 => "AES256",
            Cipher::Twofish => "TWOFISH",
            Cipher::Camellia128 => "CAMELLIA128",
            Cipher::Camellia192 => "CAMELLIA192",
            Cipher::Camellia256 => "CAMELLIA256",
            Cipher::Sm4 => "SM4",
        }
    }

    /// Symmetric key size in bytes (e.g. AES-256 → 32).
    pub fn key_size(self) -> (n: usize)
        ensures
            n == cipher_key_bytes(self),
    {
        match self {
            Cipher::Idea | Cipher::Cast5 | Cipher::Blowfish => 16,
            Cipher::Tripledes => 24,
            Cipher::Aes128 | Cipher::Camellia128 | Cipher::Sm4 => 16,
            Cipher::Aes192 | Cipher::Camellia192 => 24,
            Cipher::Aes256 | Cipher::Camellia256 | Cipher::Twofish => 32,
        }
    }

    /// Block size in bytes (e.g. AES → 16).
    pub fn block_size(self) -> (n: usize)
        ensures
            n == cipher_block_bytes(self),
    {
        match self {
            Cipher::Blowfish | Cipher::Cast5 | Cipher::Tripledes | Cipher::Idea => 8,
            Cipher::Aes128
            | Cipher::Aes192
            | Cipher::Aes256
            | Cipher::Camellia128
            | Cipher::Camellia192
            | Cipher::Camellia256
            | Cipher::Twofish
            | Cipher::Sm4 => 16,
        }
    }
}

// ---------------------------------------------------------------------------
// Compression
// ---------------------------------------------------------------------------

/// Compression algorithm.
#[derive(Clone, Copy, Debug, PartialEq, Eq, Structural)]
#[non_exhaustive]
pub enum Compression {
    Zip,
    Zlib,
    Bzip2,
}

/// The librnp name of a compression algorithm.
pub open spec fn compression_name(c: Compression) -> Seq<char> {
    match c {
        Compression::Zip => "ZIP"@,
        Compression::Zlib => "ZLIB"@,
        Compression::Bzip2 => "BZIP2"@,
    }
}

impl Compression {
    pub fn as_str(self) -> (s: &'static str)
        ensures
            s@ == compression_name(self),
    {
        match self {
            Compression::Zip => "ZIP",
            Compression::Zlib => "ZLIB",
            Compression::Bzip2 => "BZIP2",
        }
    }
}

// ---------------------------------------------------------------------------
// Key usage flags
// ---------------------------------------------------------------------------

/// Key usage flag.
#[derive(Clone, Copy, Debug, PartialEq, Eq, Structural)]
#[non_exhaustive]
pub enum KeyUsage {
    Certify,
    Sign,
    EncryptComms,
    EncryptStorage,
}

/// The librnp name of a key usage. Both encryption usages map to the one
/// librnp usage `"encrypt"`.
pub open spec fn key_usage_name(u: KeyUsage) -> Seq<char> {
    match u {
        KeyUsage::Certify => "certify"@,
        KeyUsage::Sign => "sign"@,
        KeyUsage::EncryptComms => "encrypt"@,
        KeyUsage::EncryptStorage => "encrypt"@,
    }
}

impl KeyUsage {
    pub fn as_str(self) -> (s: &'static str)
        ensures
            s@ == key_usage_name(self),
    {
        match self {
            KeyUsage::Certify => "certify",
            KeyUsage::Sign => "sign",
            KeyUsage::EncryptComms => "encrypt",
            KeyUsage::EncryptStorage => "encrypt",
        }
    }
}

} // verus!
