use rnp::dump::{DumpFlags, JsonDumpFlags, JsonFlags};
use rnp::encrypt::EncryptFlags;
use rnp::key::flags::{ExportFlags, LoadSaveFlags, RemoveFlags, RemoveSignaturesFlags, UnloadFlags};

#[test]
fn flag_words_match_librnp() {
    assert_eq!(LoadSaveFlags::public().bits(), 1);
    assert_eq!(LoadSaveFlags::secret().bits(), 2);
    assert_eq!(LoadSaveFlags::permissive().bits(), 256);
    assert_eq!(LoadSaveFlags::single().bits(), 512);
    assert_eq!(LoadSaveFlags::base64().bits(), 1024);
    assert_eq!(ExportFlags::armored().bits(), 1);
    assert_eq!(ExportFlags::subkeys().bits(), 8);
    assert_eq!(RemoveFlags::subkeys().bits(), 4);
    assert_eq!(RemoveSignaturesFlags::non_self_sig().bits(), 4);
    assert_eq!(UnloadFlags::secret().bits(), 2);
    assert_eq!(DumpFlags::grip().bits(), 4);
    assert_eq!(JsonDumpFlags::raw().bits(), 2);
    assert_eq!(JsonFlags::signature_mpis().bits(), 8);
}

#[test]
fn flags_union_is_bitwise_or() {
    let both = LoadSaveFlags::public() | LoadSaveFlags::secret();
    assert_eq!(both.bits(), 3);
    // union is commutative, associative and idempotent
    let a = ExportFlags::armored();
    let b = ExportFlags::public();
    let c = ExportFlags::secret();
    assert_eq!((a | b).bits(), (b | a).bits());
    assert_eq!(((a | b) | c).bits(), (a | (b | c)).bits());
    assert_eq!((a | a).bits(), a.bits());
    assert_eq!((RemoveFlags::public() | RemoveFlags::secret()).bits(), 3);
    assert_eq!((UnloadFlags::public() | UnloadFlags::secret()).bits(), 3);
    assert_eq!((DumpFlags::mpi() | DumpFlags::raw()).bits(), 3);
    assert_eq!((JsonDumpFlags::mpi() | JsonDumpFlags::grip()).bits(), 5);
    assert_eq!((JsonFlags::public_mpis() | JsonFlags::signatures()).bits(), 5);
    assert_eq!(
        (RemoveSignaturesFlags::invalid() | RemoveSignaturesFlags::unknown_key()).bits(),
        3
    );
    assert_eq!((EncryptFlags::nowrap() | EncryptFlags::nowrap()).bits(), EncryptFlags::nowrap().bits());
}
