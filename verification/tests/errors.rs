use rnp::error::{check, Error, RNP_ERROR_BAD_PARAMETERS, RNP_ERROR_NOT_FOUND, RNP_SUCCESS};
use rnp::ffi_safe::{
    c_string, call_for_bool, collect_indexed, call_for_optional_string, call_for_owned_bytes, call_for_string,
    call_for_u32, call_for_u64, call_for_usize, collect_next, cstr_to_string, optional_c_string,
    revoked_reason_flag,
};

fn is_rnp(e: &Error, code: u32, msg: &str) -> bool {
    matches!(e, Error::Rnp { code: c, message: m } if *c == code && m == msg)
}

#[test]
fn check_maps_codes() {
    assert!(check(RNP_SUCCESS, String::new()).is_ok());
    let e = check(0x1000_0000, "Unknown error".to_string()).unwrap_err();
    assert!(is_rnp(&e, 0x1000_0000, "Unknown error"));
    assert!(e.has_code(0x1000_0000));
    assert!(!e.has_code(RNP_SUCCESS));
    assert!(!Error::NullPointer.has_code(0));
}

#[test]
fn string_getters() {
    assert_eq!(call_for_string(RNP_SUCCESS, Some("RSA".to_string()), String::new()).unwrap(), "RSA");
    assert!(matches!(
        call_for_string(RNP_SUCCESS, None, String::new()),
        Err(Error::NullPointer)
    ));
    let e = call_for_string(RNP_ERROR_BAD_PARAMETERS, Some("x".into()), "Bad parameters".into())
        .unwrap_err();
    assert!(is_rnp(&e, RNP_ERROR_BAD_PARAMETERS, "Bad parameters"));
    assert_eq!(cstr_to_string(Some("a".into())).unwrap(), "a");
    assert!(matches!(cstr_to_string(None), Err(Error::NullPointer)));
}

#[test]
fn optional_string_getter() {
    assert_eq!(
        call_for_optional_string(RNP_ERROR_NOT_FOUND, Some("ignored".into()), String::new())
            .unwrap(),
        None
    );
    assert_eq!(
        call_for_optional_string(RNP_SUCCESS, Some("uid".into()), String::new()).unwrap(),
        Some("uid".to_string())
    );
    assert_eq!(call_for_optional_string(RNP_SUCCESS, None, String::new()).unwrap(), None);
    assert!(call_for_optional_string(RNP_ERROR_BAD_PARAMETERS, None, String::new()).is_err());
}

#[test]
fn scalar_getters() {
    assert_eq!(call_for_u32(RNP_SUCCESS, 2048, String::new()).unwrap(), 2048);
    assert_eq!(call_for_u64(RNP_SUCCESS, 1 << 40, String::new()).unwrap(), 1 << 40);
    assert_eq!(call_for_usize(RNP_SUCCESS, 3, String::new()).unwrap(), 3);
    assert!(call_for_bool(RNP_SUCCESS, true, String::new()).unwrap());
    assert!(call_for_u32(RNP_ERROR_NOT_FOUND, 7, String::new()).is_err());
    assert!(call_for_bool(RNP_ERROR_NOT_FOUND, true, String::new()).is_err());
}

#[test]
fn owned_bytes_getter() {
    assert_eq!(
        call_for_owned_bytes(RNP_SUCCESS, Some(vec![1, 2, 3]), String::new()).unwrap(),
        vec![1, 2, 3]
    );
    assert!(call_for_owned_bytes(RNP_SUCCESS, None, String::new()).unwrap().is_empty());
    assert!(call_for_owned_bytes(RNP_ERROR_BAD_PARAMETERS, Some(vec![1]), String::new()).is_err());
}

#[test]
fn revoked_reason_flag_reads_bad_parameters_as_not_revoked() {
    assert!(revoked_reason_flag(RNP_SUCCESS, true, String::new()).unwrap());
    assert!(!revoked_reason_flag(RNP_ERROR_BAD_PARAMETERS, true, String::new()).unwrap());
    let e = revoked_reason_flag(RNP_ERROR_NOT_FOUND, true, "Not found".into()).unwrap_err();
    assert!(is_rnp(&e, RNP_ERROR_NOT_FOUND, "Not found"));
}

#[test]
fn c_strings_refuse_nul() {
    assert_eq!(c_string("abc").unwrap(), "abc");
    assert!(matches!(c_string("a\0b"), Err(Error::NulByte)));
    assert_eq!(optional_c_string(None).unwrap(), None);
    assert_eq!(optional_c_string(Some("x")).unwrap(), Some("x".to_string()));
    assert!(matches!(optional_c_string(Some("\0")), Err(Error::NulByte)));
}

#[test]
fn collect_next_steps() {
    let v = collect_next(vec![1], Ok(Some(2))).unwrap();
    assert_eq!(v, vec![1, 2]);
    assert!(matches!(collect_next(vec![1], Ok(None)), Err(Error::NullPointer)));
    assert!(matches!(
        collect_next::<i32>(vec![], Err(Error::SignatureInvalid)),
        Err(Error::SignatureInvalid)
    ));
}

#[test]
fn collect_indexed_stops_at_first_failure() {
    let items = ["a", "b", "c"];
    let all = collect_indexed(3, |i| Ok(Some(items[i].to_string()))).unwrap();
    assert_eq!(all, vec!["a", "b", "c"]);
    assert!(collect_indexed::<u8, _>(0, |_| Err(Error::NullPointer)).unwrap().is_empty());
    let asked = std::cell::Cell::new(0usize);
    let r = collect_indexed(5, |i| {
        asked.set(asked.get() + 1);
        if i == 1 { Ok(None) } else { Ok(Some(i)) }
    });
    assert!(matches!(r, Err(Error::NullPointer)));
    assert_eq!(asked.get(), 2);
    let r = collect_indexed(5, |i| if i == 2 { Err(Error::SignatureInvalid) } else { Ok(Some(i)) });
    assert!(matches!(r, Err(Error::SignatureInvalid)));
}
