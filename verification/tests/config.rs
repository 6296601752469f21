use rnp::rnp_src::config::{csv_env, BuildConfig, BuildEnv, BuildTarget, ModuleSet};

const PQC_MODULES: [&str; 4] = ["ml_kem", "ml_dsa", "slh_dsa_sha2", "slh_dsa_shake"];

fn unix() -> BuildTarget {
    BuildTarget { windows: false, pqc: false }
}

fn env_with(f: impl FnOnce(&mut BuildEnv)) -> BuildEnv {
    let mut e = BuildEnv::default();
    f(&mut e);
    e
}

#[test]
fn caller_cc_is_respected_everywhere() {
    let env = env_with(|e| e.cc = Some("cl".to_string()));
    for target in [
        unix(),
        BuildTarget { windows: true, pqc: false },
        BuildTarget { windows: true, pqc: true },
    ] {
        let cfg = BuildConfig::detect_with_env(target, &env);
        assert_eq!(cfg.botan_cc.as_deref(), Some("cl"));
    }
}

#[test]
fn caller_cc_bin_is_respected() {
    let env = env_with(|e| e.cc_bin = Some("clang++-19".to_string()));
    let cfg = BuildConfig::detect_with_env(unix(), &env);
    assert_eq!(cfg.botan_cc_bin.as_deref(), Some("clang++-19"));
    let cfg = BuildConfig::detect_with_env(BuildTarget { windows: true, pqc: false }, &env);
    assert_eq!(cfg.botan_cc_bin.as_deref(), Some("clang++-19"));
}

#[test]
fn pqc_feature_unions_with_caller_modules() {
    let env = env_with(|e| e.enable_modules = Some("zlib,foo".to_string()));
    for pqc in [false, true] {
        let cfg = BuildConfig::detect_with_env(BuildTarget { windows: false, pqc }, &env);
        assert!(cfg.botan_enable_modules.contains("zlib"));
        assert!(cfg.botan_enable_modules.contains("foo"));
        if pqc {
            for m in PQC_MODULES {
                assert!(
                    cfg.botan_enable_modules.contains(m),
                    "pqc module {m} must be unioned in, not replace the caller's set"
                );
            }
        }
    }
}

#[test]
fn disable_modules_union_with_caller_set() {
    let env = env_with(|e| e.disable_modules = Some("something_else".to_string()));
    for windows in [false, true] {
        let cfg = BuildConfig::detect_with_env(BuildTarget { windows, pqc: false }, &env);
        assert!(cfg.botan_disable_modules.contains("something_else"));
        if windows {
            assert!(
                cfg.botan_disable_modules.contains("certstor_system_windows"),
                "windows disable must append, not replace"
            );
        }
    }
}

#[test]
fn env_csv_is_trimmed_and_empties_dropped() {
    let parsed = csv_env(Some(" a , ,b,, "));
    assert_eq!(parsed, vec!["a".to_string(), "b".to_string()]);
    let env = env_with(|e| e.enable_modules = Some(" a , ,b,, ".to_string()));
    let cfg = BuildConfig::detect_with_env(unix(), &env);
    assert!(cfg.botan_enable_modules.contains("a"));
    assert!(cfg.botan_enable_modules.contains("b"));
    assert!(!cfg.botan_enable_modules.contains(""));
}

#[test]
fn windows_default_cc_only_when_caller_silent() {
    let env = BuildEnv::default();
    let cfg = BuildConfig::detect_with_env(BuildTarget { windows: true, pqc: false }, &env);
    assert_eq!(cfg.botan_cc.as_deref(), Some("gcc"));
    assert_eq!(cfg.botan_cc_bin.as_deref(), Some("g++"));
    let cfg = BuildConfig::detect_with_env(unix(), &env);
    assert_eq!(cfg.botan_cc, None);
}

#[test]
fn detect_without_env_matches_platform_default() {
    let env = BuildEnv::default();
    let cfg = BuildConfig::detect_with_env(BuildTarget { windows: true, pqc: false }, &env);
    assert!(cfg.botan_disable_modules.contains("certstor_system_windows"));
    let cfg = BuildConfig::detect_with_env(unix(), &env);
    assert!(!cfg.botan_disable_modules.contains("certstor_system_windows"));
    assert_eq!(cfg.disable_modules_value(), None);
    assert_eq!(cfg.enable_modules_value(), None);
}

#[test]
fn module_values_are_sorted_and_deduplicated() {
    let env = env_with(|e| e.enable_modules = Some("zlib, ml_kem ,aes,zlib".to_string()));
    let cfg = BuildConfig::detect_with_env(BuildTarget { windows: false, pqc: true }, &env);
    assert_eq!(
        cfg.enable_modules_value().as_deref(),
        Some("aes,ml_dsa,ml_kem,slh_dsa_sha2,slh_dsa_shake,zlib")
    );
}

#[test]
fn module_set_insert_and_contains() {
    let mut s = ModuleSet::new();
    assert!(s.is_empty());
    assert_eq!(s.joined_value(), None);
    s.insert("b".to_string());
    s.insert("a".to_string());
    s.insert("b".to_string());
    assert!(!s.is_empty());
    assert!(s.contains("a"));
    assert!(!s.contains("c"));
    assert_eq!(s.joined_value().as_deref(), Some("a,b"));
}

#[test]
fn csv_env_of_unset_value_is_empty() {
    assert!(csv_env(None).is_empty());
    assert!(csv_env(Some("")).is_empty());
    assert_eq!(csv_env(Some("x")), vec!["x".to_string()]);
}

#[test]
fn empty_config_applies_nothing() {
    // Every value the build writes to the environment is absent.
    let cfg = BuildConfig::default();
    assert_eq!(cfg.botan_cc, None);
    assert_eq!(cfg.botan_cc_bin, None);
    assert_eq!(cfg.enable_modules_value(), None);
    assert_eq!(cfg.disable_modules_value(), None);
}
