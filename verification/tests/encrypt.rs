use rnp::encrypt::{AddPasswordOptions, AeadType, DecryptResult, Decryptor, EncryptCall, EncryptFlags, Encryptor};
use rnp::{Cipher, Compression};

fn describe(c: &EncryptCall<u8>) -> String {
    match c {
        EncryptCall::AddRecipient(k) => format!("recipient {k}"),
        EncryptCall::AddSignature(k) => format!("signer {k}"),
        EncryptCall::AddPassword { password, hash, iterations, cipher } => {
            format!("password {:?} {hash} {iterations} {cipher}", password)
        }
        EncryptCall::SetArmor => "armor".into(),
        EncryptCall::SetCipher(c) => format!("cipher {}", c.as_str()),
        EncryptCall::SetHash(h) => format!("hash {}", h.as_str()),
        EncryptCall::SetCompression(c, l) => format!("z {} {l}", c.as_str()),
        EncryptCall::SetAead(a) => format!("aead {}", a.as_str()),
        EncryptCall::SetAeadBits(b) => format!("aead-bits {b}"),
        EncryptCall::SetFileName(n) => format!("name {n:?}"),
        EncryptCall::SetFileMtime(t) => format!("mtime {t}"),
        EncryptCall::SetCreationTime(t) => format!("created {t}"),
        EncryptCall::SetExpirationTime(t) => format!("expires {t}"),
        EncryptCall::SetFlags(f) => format!("flags {f}"),
        EncryptCall::PreferPqcEncSubkey => "prefer-pqc".into(),
        EncryptCall::EnablePkeskV6 => "pkesk-v6".into(),
        EncryptCall::EnableSkeskV6 => "skesk-v6".into(),
    }
}

#[test]
fn calls_list_keys_then_passwords_then_options() {
    let e: Encryptor<u8> = Encryptor::new()
        .armor(true)
        .add_password(b"pw", AddPasswordOptions::default())
        .add_recipient(1)
        .cipher(Cipher::Aes128)
        .add_signature(7)
        .add_recipient(2)
        .add_password(
            b"second",
            AddPasswordOptions::default().hash(rnp::algorithm::Hash::Sha512).iterations(65536).cipher(Cipher::Camellia256),
        )
        .compression(Compression::Zlib, 6)
        .file_name("msg.txt")
        .flags(EncryptFlags::nowrap());
    let calls: Vec<String> = e.into_calls().iter().map(describe).collect();
    assert_eq!(
        calls,
        vec![
            "recipient 1".to_string(),
            "recipient 2".to_string(),
            "signer 7".to_string(),
            "password [112, 119] SHA256 0 AES256".to_string(),
            "password [115, 101, 99, 111, 110, 100] SHA512 65536 CAMELLIA256".to_string(),
            "armor".to_string(),
            "cipher AES128".to_string(),
            "z ZLIB 6".to_string(),
            "name \"msg.txt\"".to_string(),
            format!("flags {}", EncryptFlags::nowrap().bits()),
        ]
    );
}

#[test]
fn unset_options_make_no_calls() {
    let e: Encryptor<u8> = Encryptor::new().armor(false).flags(EncryptFlags::default());
    assert!(e.into_calls().is_empty());
}

#[test]
fn nul_password_and_file_name_are_emptied() {
    let e: Encryptor<u8> = Encryptor::new()
        .add_password(b"a\0b", AddPasswordOptions::default())
        .file_name("x\0y")
        .aead(AeadType::Ocb)
        .aead_bits(12)
        .file_mtime(5)
        .creation_time(6)
        .expiration_time(7)
        .hash(rnp::algorithm::Hash::Sha384)
        .prefer_pqc_enc_subkey()
        .enable_pkesk_v6()
        .enable_skesk_v6();
    let calls: Vec<String> = e.into_calls().iter().map(describe).collect();
    assert_eq!(
        calls,
        vec![
            "password [] SHA256 0 AES256",
            "hash SHA384",
            "aead OCB",
            "aead-bits 12",
            "name \"\"",
            "mtime 5",
            "created 6",
            "expires 7",
            "prefer-pqc",
            "pkesk-v6",
            "skesk-v6",
        ]
    );
}

#[test]
fn compression_level_passes_as_i32() {
    let e: Encryptor<u8> = Encryptor::new().compression(Compression::Bzip2, u32::MAX);
    let calls: Vec<String> = e.into_calls().iter().map(describe).collect();
    assert_eq!(calls, vec!["z BZIP2 -1"]);
}

#[test]
fn aead_names() {
    assert_eq!(AeadType::Ocb.as_str(), "OCB");
    assert_eq!(AeadType::Eax.as_str(), "EAX");
    assert_eq!(AeadType::Gcm.as_str(), "GCM");
}

#[test]
fn decryptor_and_result_accessors() {
    let ct = [1u8, 2, 3];
    let d = Decryptor::new("ctx", &ct);
    assert_eq!(d.ctx, "ctx");
    assert_eq!(d.ciphertext, &[1, 2, 3]);
    let r = DecryptResult { verify_result: 42u32, plaintext: b"hello".to_vec() };
    assert_eq!(r.plaintext(), b"hello");
    assert_eq!(*r.verify_result(), 42);
    assert_eq!(r.into_plaintext(), b"hello".to_vec());
}
