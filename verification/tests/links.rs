use rnp::rnp_src::links::{json_c, zlib, CmakeDep, Deps};

#[test]
fn deps_cmake_prefix_path_joins_with_semicolon() {
    let mut deps = Deps::new();
    deps.push("botan", "/a/botan".to_string());
    deps.push("jsonc", "/b/json-c".to_string());
    assert_eq!(deps.cmake_prefix_path(), "/a/botan;/b/json-c");
}

#[test]
fn empty_deps_yields_empty_prefix_path() {
    let deps = Deps::new();
    assert_eq!(deps.cmake_prefix_path(), "");
}

#[test]
fn deps_by_name_finds_pushed_entry() {
    let mut deps = Deps::new();
    deps.push("botan", "/x/botan".to_string());
    assert_eq!(
        deps.by_name("botan").map(|d| d.prefix.clone()),
        Some("/x/botan".to_string())
    );
    assert!(deps.by_name("jsonc").is_none());
}

#[test]
fn cmake_dep_source_and_build_dirs() {
    let dep = CmakeDep {
        name: "json-c",
        version: "0.17",
        url_template: "",
        extra_cmake_args: &[],
        cmake_policy_minimum: None,
        installed_lib_aliases: &[],
    };
    let root = "/tmp/src";
    assert_eq!(dep.source_dir(root), "/tmp/src/json-c-0.17");
    assert_eq!(dep.build_dir(root), "/tmp/src/json-c-build");
}

#[test]
fn cmake_dep_url_substitutes_version() {
    assert_eq!(
        json_c().url(),
        "https://s3.amazonaws.com/json-c_releases/releases/json-c-0.17.tar.gz"
    );
    assert_eq!(
        zlib().url(),
        "https://github.com/madler/zlib/releases/download/v1.3.1/zlib-1.3.1.tar.gz"
    );
}

#[test]
fn lib_dirs_follow_registration_order() {
    let mut deps = Deps::new();
    deps.push("zlib", "/p/zlib".to_string());
    deps.push("botan", "/p/botan/".to_string());
    assert_eq!(
        deps.lib_dirs(),
        vec!["/p/zlib/lib".to_string(), "/p/botan/lib".to_string()]
    );
    let names: Vec<&str> = deps.iter().iter().map(|d| d.name).collect();
    assert_eq!(names, vec!["zlib", "botan"]);
}

#[test]
fn by_name_returns_first_registration() {
    let mut deps = Deps::new();
    deps.push("zlib", "/first".to_string());
    deps.push("zlib", "/second".to_string());
    assert_eq!(deps.by_name("zlib").map(|d| d.prefix.as_str()), Some("/first"));
    assert_eq!(deps.cmake_prefix_path(), "/first;/second");
}

#[test]
fn source_dir_under_empty_or_slash_root() {
    let dep = zlib();
    assert_eq!(dep.source_dir(""), "zlib-1.3.1");
    assert_eq!(dep.source_dir("/build/"), "/build/zlib-1.3.1");
    assert_eq!(dep.build_dir("/build/"), "/build/zlib-build");
}

#[test]
fn url_with_no_placeholder_is_unchanged() {
    let dep = CmakeDep {
        name: "x",
        version: "9",
        url_template: "https://example.org/x.tar.gz",
        extra_cmake_args: &[],
        cmake_policy_minimum: None,
        installed_lib_aliases: &[],
    };
    assert_eq!(dep.url(), "https://example.org/x.tar.gz");
}

#[test]
fn bundled_dep_descriptions() {
    assert_eq!(json_c().name, "json-c");
    assert_eq!(json_c().cmake_policy_minimum, Some("3.5"));
    assert_eq!(zlib().cmake_policy_minimum, None);
    assert_eq!(zlib().installed_lib_aliases.len(), 2);
    assert!(rnp::rnp_src::links::is_dep_name("bzip2"));
    assert!(!rnp::rnp_src::links::is_dep_name("nonexistent"));
}

#[test]
fn pushing_extends_prefix_path() {
    let mut deps = Deps::new();
    deps.push("botan", "/a".to_string());
    assert_eq!(deps.cmake_prefix_path(), "/a");
    deps.push("bzip2", "/b".to_string());
    assert_eq!(deps.cmake_prefix_path(), "/a;/b");
    assert_eq!(deps.by_name("bzip2").map(|d| d.prefix.as_str()), Some("/b"));
    assert_eq!(deps.by_name("botan").map(|d| d.prefix.as_str()), Some("/a"));
}
