//! Shared types for the vendored build: the registry of dependency install
//! prefixes, and the description of a cmake-built tarball dependency.

use vstd::prelude::*;
use crate::text::{host_joined, join, join_path, joined, replace_all, replaced, str_eq, views};

verus! {

// ---------------------------------------------------------------------------
// Dependency registry
// ---------------------------------------------------------------------------

/// All dependency names the vendored build installs, in cmake-prefix order.
pub open spec fn dep_names() -> Seq<Seq<char>> {
    seq!["botan"@, "jsonc"@, "zlib"@, "bzip2"@]
}

/// Whether `name` is one of the dependencies the vendored build installs.
pub fn is_dep_name(name: &str) -> (r: bool)
    ensures
        r == dep_names().contains(name@),
{
    let r = str_eq(name, "botan") || str_eq(name, "jsonc") || str_eq(name, "zlib") || str_eq(
        name,
        "bzip2",
    );
    proof {
        if r {
            if name@ == "botan"@ {
                assert(dep_names()[0] == name@);
            } else if name@ == "jsonc"@ {
                assert(dep_names()[1] == name@);
            } else if name@ == "zlib"@ {
                assert(dep_names()[2] == name@);
            } else {
                assert(dep_names()[3] == name@);
            }
        }
    }
    r
}

/// One installed dependency: its name and install prefix.
#[derive(Debug, Clone)]
pub struct Dep {
    pub name: &'static str,
    pub prefix: String,
}

/// The install prefixes of the dependencies, in registration order.
#[derive(Debug, Clone)]
pub struct Deps {
    items: Vec<Dep>,
}

/// A dependency entry as text: name and prefix.
pub open spec fn dep_view(d: Dep) -> (Seq<char>, Seq<char>) {
    (d.name@, d.prefix@)
}

impl View for Deps {
    type V = Seq<(Seq<char>, Seq<char>)>;

    closed spec fn view(&self) -> Seq<(Seq<char>, Seq<char>)> {
        self.items@.map_values(|d: Dep| dep_view(d))
    }
}

/// The first entry registered under `name`, if any.
pub open spec fn lookup(entries: Seq<(Seq<char>, Seq<char>)>, name: Seq<char>) -> Option<
    (Seq<char>, Seq<char>),
>
    decreases entries.len(),
{
    if entries.len() == 0 {
        None
    } else if entries[0].0 == name {
        Some(entries[0])
    } else {
        lookup(entries.drop_first(), name)
    }
}

proof fn lemma_lookup_first(entries: Seq<(Seq<char>, Seq<char>)>, name: Seq<char>, i: int)
    requires
        0 <= i <= entries.len(),
        forall|j: int| 0 <= j < i ==> entries[j].0 != name,
    ensures
        i < entries.len() && entries[i].0 == name ==> lookup(entries, name) == Some(entries[i]),
        i == entries.len() ==> lookup(entries, name) is None,
    decreases i,
{
    if i > 0 {
        assert(entries[0].0 != name);
        let rest = entries.drop_first();
        assert forall|j: int| 0 <= j < i - 1 implies rest[j].0 != name by {
            assert(rest[j] == entries[j + 1]);
        }
        lemma_lookup_first(rest, name, i - 1);
        if i < entries.len() {
            assert(rest[i - 1] == entries[i]);
        }
    } else if entries.len() > 0 {
    }
}

/// Registering an entry changes what a name looks up to only where the
/// name had no entry yet: the first registration under a name is the one
/// found.
pub proof fn law_lookup_after_push(
    entries: Seq<(Seq<char>, Seq<char>)>,
    name: Seq<char>,
    prefix: Seq<char>,
    other: Seq<char>,
)
    ensures
        lookup(entries.push((name, prefix)), other) == if lookup(entries, other) is Some {
            lookup(entries, other)
        } else if other == name {
            Some((name, prefix))
        } else {
            None
        },
    decreases entries.len(),
{
    let pushed = entries.push((name, prefix));
    if entries.len() > 0 {
        assert(pushed.drop_first() =~= entries.drop_first().push((name, prefix)));
        assert(pushed[0] == entries[0]);
        law_lookup_after_push(entries.drop_first(), name, prefix, other);
    } else {
        assert(pushed.drop_first() =~= Seq::<(Seq<char>, Seq<char>)>::empty());
        assert(pushed[0] == (name, prefix));
        assert(lookup(pushed.drop_first(), other) is None);
        assert(lookup(entries, other) is None);
    }
}

/// Registering a prefix appends it to the cmake prefix path, after a `;`
/// unless it is the first.
pub proof fn law_prefix_path_after_push(
    entries: Seq<(Seq<char>, Seq<char>)>,
    name: Seq<char>,
    prefix: Seq<char>,
)
    ensures
        joined(prefixes(entries.push((name, prefix))), ";"@) == if entries.len() == 0 {
            prefix
        } else {
            joined(prefixes(entries), ";"@) + ";"@ + prefix
        },
{
    let ps = prefixes(entries.push((name, prefix)));
    assert(ps =~= prefixes(entries).push(prefix));
    assert(ps.drop_last() =~= prefixes(entries));
}

/// The prefixes of the entries, in order.
pub open spec fn prefixes(entries: Seq<(Seq<char>, Seq<char>)>) -> Seq<Seq<char>> {
    entries.map_values(|e: (Seq<char>, Seq<char>)| e.1)
}

proof fn lemma_take_push(entries: Seq<(Seq<char>, Seq<char>)>, i: int)
    requires
        0 <= i < entries.len(),
    ensures
        prefixes(entries.take(i + 1)) == prefixes(entries.take(i)).push(entries[i].1),
{
    assert(entries.take(i + 1) =~= entries.take(i).push(entries[i]));
    assert(prefixes(entries.take(i + 1)) =~= prefixes(entries.take(i)).push(entries[i].1));
}

impl Deps {
    pub fn new() -> (r: Deps)
        ensures
            r@ == Seq::<(Seq<char>, Seq<char>)>::empty(),
    {
        let r = Deps { items: Vec::new() };
        assert(r@ =~= Seq::<(Seq<char>, Seq<char>)>::empty());
        r
    }

    /// Register `name`'s install prefix. `name` must be one of the
    /// registered dependency names.
    pub fn push(&mut self, name: &'static str, prefix: String)
        requires
            dep_names().contains(name@),
        ensures
            final(self)@ == old(self)@.push((name@, prefix@)),
    {
        let ghost before = self.items@;
        self.items.push(Dep { name, prefix });
        assert(self.items@.map_values(|d: Dep| dep_view(d)) =~= before.map_values(
            |d: Dep| dep_view(d),
        ).push((name@, prefix@)));
    }

    /// The first entry registered under `name`, if any.
    pub fn by_name(&self, name: &str) -> (r: Option<&Dep>)
        ensures
            match r {
                Some(d) => lookup(self@, name@) == Some(dep_view(*d)),
                None => lookup(self@, name@) is None,
            },
            r is None ==> forall|i: int| 0 <= i < self@.len() ==> self@[i].0 != name@,
            r matches Some(d) ==> exists|i: int|
                0 <= i < self@.len() && self@[i] == dep_view(*d) && self@[i].0 == name@ && forall|
                    j: int,
                | 0 <= j < i ==> self@[j].0 != name@,
    {
        let mut i: usize = 0;
        while i < self.items.len()
            invariant
                i <= self.items@.len(),
                self@.len() == self.items@.len(),
                forall|k: int| 0 <= k < self@.len() ==> self@[k] == dep_view(#[trigger] self.items@[k]),
                forall|j: int| 0 <= j < i ==> self@[j].0 != name@,
            decreases self.items.len() - i,
        {
            if str_eq(self.items[i].name, name) {
                let d = &self.items[i];
                assert(self@[i as int] == dep_view(*d));
                proof {
                    lemma_lookup_first(self@, name@, i as int);
                }
                return Some(d);
            }
            i += 1;
        }
        proof {
            lemma_lookup_first(self@, name@, i as int);
        }
        None
    }

    /// The dependency prefixes joined by `;`, as cmake's
    /// `CMAKE_PREFIX_PATH` expects.
    pub fn cmake_prefix_path(&self) -> (r: String)
        ensures
            r@ == joined(prefixes(self@), ";"@),
    {
        let mut ps: Vec<String> = Vec::new();
        let mut i: usize = 0;
        while i < self.items.len()
            invariant
                i <= self.items@.len(),
                self@.len() == self.items@.len(),
                forall|k: int| 0 <= k < self@.len() ==> self@[k] == dep_view(#[trigger] self.items@[k]),
                views(ps@) == prefixes(self@.take(i as int)),
            decreases self.items.len() - i,
        {
            let p = self.items[i].prefix.clone();
            proof {
                lemma_take_push(self@, i as int);
            }
            ps.push(p);
            assert(views(ps@) =~= prefixes(self@.take(i + 1)));
            i += 1;
        }
        assert(self@.take(self@.len() as int) =~= self@);
        join(ps.as_slice(), ";")
    }

    /// Per-dependency library directories (`<prefix>` joined with `lib`)
    /// in registration order, for the linker search path.
    pub fn lib_dirs(&self) -> (r: Vec<String>)
        ensures
            r@.len() == self@.len(),
            forall|i: int| 0 <= i < self@.len() ==> host_joined(self@[i].1, "lib"@, #[trigger] r@[i]@),
    {
        let mut out: Vec<String> = Vec::new();
        let mut i: usize = 0;
        while i < self.items.len()
            invariant
                i <= self.items@.len(),
                self@.len() == self.items@.len(),
                forall|k: int| 0 <= k < self@.len() ==> self@[k] == dep_view(#[trigger] self.items@[k]),
                out@.len() == i,
                forall|k: int| 0 <= k < i ==> host_joined(self@[k].1, "lib"@, #[trigger] out@[k]@),
            decreases self.items.len() - i,
        {
            let d = join_path(self.items[i].prefix.as_str(), "lib");
            assert(self@[i as int] == dep_view(self.items@[i as int]));
            out.push(d);
            i += 1;
        }
        out
    }

    /// The registered dependencies, in order.
    pub fn iter(&self) -> (r: &[Dep])
        ensures
            r@.map_values(|d: Dep| dep_view(d)) == self@,
    {
        self.items.as_slice()
    }
}

// ---------------------------------------------------------------------------
// Cmake-built tarball dependencies
// ---------------------------------------------------------------------------

/// Config-driven description of a cmake-built tarball dependency.
#[derive(Debug, Clone)]
pub struct CmakeDep {
    pub name: &'static str,
    pub version: &'static str,
    /// Download URL template; `{version}` is substituted by the version.
    pub url_template: &'static str,
    /// Extra `-D` flags beyond the standard install prefix, shared-library
    /// switch and build type.
    pub extra_cmake_args: &'static [&'static str],
    /// cmake policy version floor; some old libraries need it below 3.5.
    pub cmake_policy_minimum: Option<&'static str>,
    /// `(actual, expected)` library file names under `<prefix>/lib/`: if
    /// `actual` exists and `expected` doesn't, `actual` is copied to
    /// `expected` after installation.
    pub installed_lib_aliases: &'static [(&'static str, &'static str)],
}

impl CmakeDep {
    /// `<src_root>` joined with `<name>-<version>`, as the host joins paths.
    pub fn source_dir(&self, src_root: &str) -> (r: String)
        ensures
            host_joined(src_root@, self.name@ + "-"@ + self.version@, r@),
    {
        let mut leaf = crate::text::owned(self.name);
        let dash = crate::text::chars_of("-");
        let version = crate::text::chars_of(self.version);
        crate::text::push_chars(&mut leaf, dash.as_slice());
        crate::text::push_chars(&mut leaf, version.as_slice());
        join_path(src_root, leaf.as_str())
    }

    /// `<src_root>` joined with `<name>-build`, as the host joins paths.
    pub fn build_dir(&self, src_root: &str) -> (r: String)
        ensures
            host_joined(src_root@, self.name@ + "-build"@, r@),
    {
        let mut leaf = crate::text::owned(self.name);
        let suffix = crate::text::chars_of("-build");
        crate::text::push_chars(&mut leaf, suffix.as_slice());
        join_path(src_root, leaf.as_str())
    }

    /// The download URL: the template with every `{version}` replaced by
    /// the version.
    pub fn url(&self) -> (r: String)
        ensures
            r@ == replaced(self.url_template@, "{version}"@, self.version@),
    {
        proof {
            reveal_strlit("{version}");
        }
        replace_all(self.url_template, "{version}", self.version)
    }
}

/// json-c, the JSON parser librnp needs.
pub fn json_c() -> (r: CmakeDep)
    ensures
        r.name@ == "json-c"@,
        r.version@ == "0.17"@,
        r.url_template@ == "https://s3.amazonaws.com/json-c_releases/releases/json-c-{version}.tar.gz"@,
        r.cmake_policy_minimum matches Some(p) && p@ == "3.5"@,
        r.extra_cmake_args@.len() == 2,
        r.extra_cmake_args@[0]@ == "-DBUILD_TESTING=OFF"@,
        r.extra_cmake_args@[1]@ == "-DJSONC_BUILD_APPS=OFF"@,
        r.installed_lib_aliases@.len() == 0,
{
    CmakeDep {
        name: "json-c",
        version: "0.17",
        url_template: "https://s3.amazonaws.com/json-c_releases/releases/json-c-{version}.tar.gz",
        // The sample apps are not gated by BUILD_TESTING, and linking
        // executables on cross builds brings the host's linking
        // assumptions in.
        extra_cmake_args: &["-DBUILD_TESTING=OFF", "-DJSONC_BUILD_APPS=OFF"],
        cmake_policy_minimum: Some("3.5"),
        installed_lib_aliases: &[],
    }
}

/// zlib, for compression.
pub fn zlib() -> (r: CmakeDep)
    ensures
        r.name@ == "zlib"@,
        r.version@ == "1.3.1"@,
        r.url_template@ == "https://github.com/madler/zlib/releases/download/v{version}/zlib-{version}.tar.gz"@,
        r.cmake_policy_minimum is None,
        r.extra_cmake_args@.len() == 0,
        r.installed_lib_aliases@.len() == 2,
        r.installed_lib_aliases@[0].0@ == "libzlib.a"@,
        r.installed_lib_aliases@[0].1@ == "libz.a"@,
        r.installed_lib_aliases@[1].0@ == "libzlibstatic.a"@,
        r.installed_lib_aliases@[1].1@ == "libz.a"@,
{
    CmakeDep {
        name: "zlib",
        version: "1.3.1",
        url_template: "https://github.com/madler/zlib/releases/download/v{version}/zlib-{version}.tar.gz",
        extra_cmake_args: &[],
        cmake_policy_minimum: None,
        // MinGW builds name the static library libzlib.a or
        // libzlibstatic.a where the linker looks for libz.a.
        installed_lib_aliases: &[("libzlib.a", "libz.a"), ("libzlibstatic.a", "libz.a")],
    }
}

impl Default for Deps {
    /// No dependency registered.
    fn default() -> (r: Deps)
        ensures
            r@ == Seq::<(Seq<char>, Seq<char>)>::empty(),
    {
        Deps::new()
    }
}

} // verus!
