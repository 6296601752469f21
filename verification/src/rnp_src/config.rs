//! Build configuration for the Botan dependency: everything the vendored
//! build writes to the `BOTAN_CONFIGURE_*` process environment.
//!
//! Resolution has one precedence — *defaults < env < feature-merge* — where
//! feature-merge is a **union**: the `pqc` modules are added to the
//! caller's set, never replace it, and the Windows module disables are
//! appended to the caller's. Resolution is a function of the platform, the
//! features and the caller's environment values; reading and writing the
//! process environment is left to the build script.

use vstd::prelude::*;
use crate::text::{csv_entries, csv_split, join, joined, opt_view, owned, str_eq, views};

verus! {

// ---------------------------------------------------------------------------
// Lexicographic order on text
// ---------------------------------------------------------------------------

/// `a` sorts strictly before `b`, comparing characters by code point (the
/// order of `String`'s `Ord`, since UTF-8 preserves code point order).
pub open spec fn lex_lt(a: Seq<char>, b: Seq<char>) -> bool
    decreases a.len(),
{
    if b.len() == 0 {
        false
    } else if a.len() == 0 {
        true
    } else if a[0] != b[0] {
        (a[0] as u32) < (b[0] as u32)
    } else {
        lex_lt(a.drop_first(), b.drop_first())
    }
}

proof fn lemma_lex_irreflexive(a: Seq<char>)
    ensures
        !lex_lt(a, a),
    decreases a.len(),
{
    if a.len() > 0 {
        lemma_lex_irreflexive(a.drop_first());
    }
}

proof fn lemma_lex_transitive(a: Seq<char>, b: Seq<char>, c: Seq<char>)
    requires
        lex_lt(a, b),
        lex_lt(b, c),
    ensures
        lex_lt(a, c),
    decreases a.len(),
{
    if a.len() > 0 && b.len() > 0 && c.len() > 0 && a[0] == b[0] && b[0] == c[0] {
        lemma_lex_transitive(a.drop_first(), b.drop_first(), c.drop_first());
    }
}

proof fn lemma_lex_total(a: Seq<char>, b: Seq<char>)
    requires
        a != b,
    ensures
        lex_lt(a, b) || lex_lt(b, a),
    decreases a.len(),
{
    if a.len() > 0 && b.len() > 0 {
        if a[0] == b[0] {
            if a.drop_first() == b.drop_first() {
                assert(a =~= seq![a[0]] + a.drop_first());
                assert(b =~= seq![b[0]] + b.drop_first());
            }
            lemma_lex_total(a.drop_first(), b.drop_first());
        } else {
            vstd::utf8::char_u32_cast(a[0], a[0] as u32);
            vstd::utf8::char_u32_cast(b[0], b[0] as u32);
        }
    } else if a.len() == 0 && b.len() == 0 {
        assert(a =~= b);
    }
}

/// Whether `a` sorts strictly before `b`.
fn lex_less(a: &[char], b: &[char]) -> (r: bool)
    ensures
        r == lex_lt(a@, b@),
{
    let mut i: usize = 0;
    assert(a@.skip(0) =~= a@);
    assert(b@.skip(0) =~= b@);
    while i < a.len() && i < b.len()
        invariant
            i <= a@.len(),
            i <= b@.len(),
            lex_lt(a@, b@) == lex_lt(a@.skip(i as int), b@.skip(i as int)),
        decreases a.len() - i,
    {
        assert(a@.skip(i as int)[0] == a@[i as int]);
        assert(b@.skip(i as int)[0] == b@[i as int]);
        if a[i] != b[i] {
            return (a[i] as u32) < (b[i] as u32);
        }
        assert(a@.skip(i as int).drop_first() =~= a@.skip(i + 1));
        assert(b@.skip(i as int).drop_first() =~= b@.skip(i + 1));
        i += 1;
    }
    i < b.len()
}

// ---------------------------------------------------------------------------
// Sorted set of module names
// ---------------------------------------------------------------------------

/// Whether the names are in strictly increasing order (so also distinct).
pub open spec fn strictly_sorted(s: Seq<Seq<char>>) -> bool {
    forall|i: int, j: int| 0 <= i < j < s.len() ==> lex_lt(#[trigger] s[i], #[trigger] s[j])
}

/// A set of Botan module names, kept in ascending order.
#[derive(Debug)]
pub struct ModuleSet {
    names: Vec<String>,
}

impl ModuleSet {
    #[verifier::type_invariant]
    spec fn sorted(self) -> bool {
        strictly_sorted(views(self.names@))
    }

    /// The names in ascending order.
    pub closed spec fn in_order(&self) -> Seq<Seq<char>> {
        views(self.names@)
    }
}

impl View for ModuleSet {
    type V = Set<Seq<char>>;

    closed spec fn view(&self) -> Set<Seq<char>> {
        views(self.names@).to_set()
    }
}

impl ModuleSet {
    pub fn new() -> (r: ModuleSet)
        ensures
            r@ == Set::<Seq<char>>::empty(),
    {
        let r = ModuleSet { names: Vec::new() };
        assert(views(r.names@) =~= Seq::<Seq<char>>::empty());
        assert(r@ =~= Set::<Seq<char>>::empty());
        r
    }

    pub fn is_empty(&self) -> (r: bool)
        ensures
            r == (self@ == Set::<Seq<char>>::empty()),
    {
        let r = self.names.len() == 0;
        if !r {
            assert(self@.contains(views(self.names@)[0]));
        } else {
            assert(self@ =~= Set::<Seq<char>>::empty());
        }
        r
    }

    pub fn contains(&self, name: &str) -> (r: bool)
        ensures
            r == self@.contains(name@),
    {
        let mut i: usize = 0;
        while i < self.names.len()
            invariant
                i <= self.names@.len(),
                forall|j: int| 0 <= j < i ==> views(self.names@)[j] != name@,
            decreases self.names.len() - i,
        {
            if str_eq(self.names[i].as_str(), name) {
                assert(views(self.names@)[i as int] == name@);
                return true;
            }
            i += 1;
        }
        false
    }

    /// Add `name` to the set.
    pub fn insert(&mut self, name: String)
        ensures
            final(self)@ == old(self)@.insert(name@),
    {
        proof {
            use_type_invariant(&*self);
        }
        let nc = crate::text::chars_of(name.as_str());
        let ghost old_names = views(self.names@);
        let mut i: usize = 0;
        while i < self.names.len()
            invariant
                i <= self.names@.len(),
                old_names == views(self.names@),
                strictly_sorted(old_names),
                nc@ == name@,
                forall|j: int| 0 <= j < i ==> lex_lt(#[trigger] old_names[j], name@),
            ensures
                i <= self.names@.len(),
                forall|j: int| 0 <= j < i ==> lex_lt(#[trigger] old_names[j], name@),
                i < self.names@.len() ==> !lex_lt(old_names[i as int], name@),
            decreases self.names.len() - i,
        {
            let cur = crate::text::chars_of(self.names[i].as_str());
            if !lex_less(cur.as_slice(), nc.as_slice()) {
                break;
            }
            i += 1;
        }
        if i < self.names.len() && str_eq(self.names[i].as_str(), name.as_str()) {
            assert(old_names[i as int] == name@);
            assert(self@ =~= self@.insert(name@));
            return;
        }
        let ghost new_names = old_names.insert(i as int, name@);
        proof {
            if i < old_names.len() {
                assert(!lex_lt(old_names[i as int], name@));
                assert(old_names[i as int] != name@);
                lemma_lex_total(old_names[i as int], name@);
            }
            assert forall|a: int, b: int| 0 <= a < b < new_names.len() implies lex_lt(
                #[trigger] new_names[a],
                #[trigger] new_names[b],
            ) by {
                if b < i {
                } else if a < i && b == i {
                } else if a < i && b > i {
                    assert(new_names[b] == old_names[b - 1]);
                } else if a == i {
                    assert(new_names[b] == old_names[b - 1]);
                    if b - 1 > i {
                        lemma_lex_transitive(name@, old_names[i as int], old_names[b - 1]);
                    }
                } else {
                    assert(new_names[a] == old_names[a - 1]);
                    assert(new_names[b] == old_names[b - 1]);
                }
            }
        }
        let mut names: Vec<String> = Vec::new();
        std::mem::swap(&mut names, &mut self.names);
        names.insert(i, name);
        assert(views(names@) =~= new_names);
        self.names = names;
        proof {
            assert forall|x: Seq<char>| self@.contains(x) <==> old(self)@.insert(name@).contains(
                x,
            ) by {
                if old(self)@.contains(x) {
                    let k = choose|k: int| 0 <= k < old_names.len() && old_names[k] == x;
                    if k < i {
                        assert(new_names[k] == x);
                    } else {
                        assert(new_names[k + 1] == x);
                    }
                }
                if x == name@ {
                    assert(new_names[i as int] == x);
                }
                if self@.contains(x) {
                    let k = choose|k: int| 0 <= k < new_names.len() && new_names[k] == x;
                    if k < i {
                        assert(old_names[k] == x);
                    } else if k > i {
                        assert(old_names[k - 1] == x);
                    }
                }
            }
            assert(self@ =~= old(self)@.insert(name@));
        }
    }

    /// The names joined by `,` in ascending order, or `None` for the empty
    /// set (what the `BOTAN_CONFIGURE_*_MODULES` variables are set to).
    pub fn joined_value(&self) -> (r: Option<String>)
        ensures
            strictly_sorted(self.in_order()),
            self.in_order().to_set() == self@,
            r is None <==> self@ == Set::<Seq<char>>::empty(),
            r matches Some(s) ==> s@ == joined(self.in_order(), ","@),
    {
        proof {
            use_type_invariant(self);
        }
        if self.is_empty() {
            None
        } else {
            Some(join(self.names.as_slice(), ","))
        }
    }
}

impl Default for ModuleSet {
    fn default() -> (r: ModuleSet)
        ensures
            r@ == Set::<Seq<char>>::empty(),
    {
        ModuleSet::new()
    }
}

// ---------------------------------------------------------------------------
// Build configuration
// ---------------------------------------------------------------------------

/// Modules the `pqc` feature adds to the Botan build.
pub open spec fn pqc_modules() -> Set<Seq<char>> {
    set!["ml_kem"@, "ml_dsa"@, "slh_dsa_sha2"@, "slh_dsa_shake"@]
}

/// Modules disabled on Windows: the cert-store module pulls crypt32
/// symbols the static link does not provide.
pub open spec fn windows_disabled_modules() -> Set<Seq<char>> {
    set!["certstor_system_windows"@]
}

/// The platform and features the build is for.
#[derive(Clone, Copy, Debug, PartialEq, Eq, Structural)]
pub struct BuildTarget {
    pub windows: bool,
    pub pqc: bool,
}

/// The caller's `BOTAN_CONFIGURE_*` environment values, where set.
#[derive(Clone, Debug)]
pub struct BuildEnv {
    pub cc: Option<String>,
    pub cc_bin: Option<String>,
    pub enable_modules: Option<String>,
    pub disable_modules: Option<String>,
}

/// The Botan build configuration.
#[derive(Debug)]
pub struct BuildConfig {
    /// `BOTAN_CONFIGURE_CC` — C compiler for Botan's build.
    pub botan_cc: Option<String>,
    /// `BOTAN_CONFIGURE_CC_BIN` — C++ compiler for Botan's build.
    pub botan_cc_bin: Option<String>,
    /// `BOTAN_CONFIGURE_ENABLE_MODULES` — extra Botan modules to enable.
    pub botan_enable_modules: ModuleSet,
    /// `BOTAN_CONFIGURE_DISABLE_MODULES` — Botan modules to leave out.
    pub botan_disable_modules: ModuleSet,
}

/// The entries of an optional comma-separated value, as a set.
pub open spec fn csv_set(v: Option<Seq<char>>) -> Set<Seq<char>> {
    match v {
        Some(t) => csv_entries(t).to_set(),
        None => Set::empty(),
    }
}

/// A compiler setting: the caller's value wins; otherwise the platform
/// default applies on Windows.
pub open spec fn resolved_compiler(
    target: BuildTarget,
    env: Option<Seq<char>>,
    windows_default: Seq<char>,
) -> Option<Seq<char>> {
    match env {
        Some(c) => Some(c),
        None => if target.windows {
            Some(windows_default)
        } else {
            None
        },
    }
}

/// The enabled modules: the caller's, united with the PQC modules when the
/// `pqc` feature is on.
pub open spec fn resolved_enable(target: BuildTarget, env: Option<Seq<char>>) -> Set<Seq<char>> {
    if target.pqc {
        csv_set(env).union(pqc_modules())
    } else {
        csv_set(env)
    }
}

/// The disabled modules: the caller's, united with the Windows disables on
/// Windows.
pub open spec fn resolved_disable(target: BuildTarget, env: Option<Seq<char>>) -> Set<Seq<char>> {
    if target.windows {
        csv_set(env).union(windows_disabled_modules())
    } else {
        csv_set(env)
    }
}

/// A caller-named compiler is never overridden by a platform default, and
/// the caller's module sets are kept whole: features add to them, never
/// replace them.
pub proof fn law_caller_settings_survive(
    target: BuildTarget,
    env_cc: Option<Seq<char>>,
    env_enable: Option<Seq<char>>,
    env_disable: Option<Seq<char>>,
    windows_default: Seq<char>,
)
    ensures
        env_cc matches Some(c) ==> resolved_compiler(target, env_cc, windows_default) == Some(c),
        csv_set(env_enable).subset_of(resolved_enable(target, env_enable)),
        target.pqc ==> pqc_modules().subset_of(resolved_enable(target, env_enable)),
        csv_set(env_disable).subset_of(resolved_disable(target, env_disable)),
        target.windows ==> windows_disabled_modules().subset_of(
            resolved_disable(target, env_disable),
        ),
{
}

/// Features and platform only ever add what they are for: every enabled
/// module is the caller's or, on a PQC build only, a PQC module, so a
/// build without the `pqc` feature enables exactly the caller's modules;
/// every disabled module is the caller's or, on Windows only, a Windows
/// disable; and off Windows a compiler is set only where the caller set
/// one.
pub proof fn law_features_add_only_their_own(
    target: BuildTarget,
    env_cc: Option<Seq<char>>,
    env_enable: Option<Seq<char>>,
    env_disable: Option<Seq<char>>,
    windows_default: Seq<char>,
)
    ensures
        forall|m: Seq<char>|
            #[trigger] resolved_enable(target, env_enable).contains(m) ==> csv_set(env_enable).contains(m)
                || (target.pqc && pqc_modules().contains(m)),
        !target.pqc ==> resolved_enable(target, env_enable) == csv_set(env_enable),
        forall|m: Seq<char>|
            #[trigger] resolved_disable(target, env_disable).contains(m) ==> csv_set(env_disable).contains(m)
                || (target.windows && windows_disabled_modules().contains(m)),
        !target.windows ==> resolved_disable(target, env_disable) == csv_set(env_disable),
        !target.windows ==> resolved_compiler(target, env_cc, windows_default) == env_cc,
{
}

/// Split an optional comma-separated environment value into trimmed,
/// non-empty entries.
pub fn csv_env(value: Option<&str>) -> (r: Vec<String>)
    ensures
        views(r@) == match value {
            Some(v) => csv_entries(v@),
            None => Seq::<Seq<char>>::empty(),
        },
{
    match value {
        Some(v) => csv_split(v),
        None => {
            let r: Vec<String> = Vec::new();
            assert(views(r@) =~= Seq::<Seq<char>>::empty());
            r
        },
    }
}

fn insert_all(set: &mut ModuleSet, names: Vec<String>)
    ensures
        final(set)@ == old(set)@.union(views(names@).to_set()),
{
    let ghost all = names@;
    let ghost start = set@;
    for n in it: names.into_iter()
        invariant
            it.seq() == all,
            set@ == start.union(views(all.take(it.index() as int)).to_set()),
    {
        let ghost i = it.index();
        set.insert(n);
        assert(views(all.take(i + 1)) =~= views(all.take(i as int)).push(all[i as int]@));
        proof {
            views(all.take(i as int)).lemma_push_to_set_commute(all[i as int]@);
        }
        assert(set@ =~= start.union(views(all.take(i + 1)).to_set()));
    }
    assert(all.take(all.len() as int) =~= all);
}

fn opt_str(o: &Option<String>) -> (r: Option<&str>)
    ensures
        match (o, r) {
            (Some(s), Some(t)) => t@ == s@,
            (None, None) => true,
            _ => false,
        },
{
    match o {
        Some(s) => Some(s.as_str()),
        None => None,
    }
}

fn clone_opt(o: &Option<String>) -> (r: Option<String>)
    ensures
        opt_view(r) == opt_view(*o),
{
    match o {
        Some(s) => Some(s.clone()),
        None => None,
    }
}

impl Default for BuildConfig {
    /// The configuration that sets nothing.
    fn default() -> (r: BuildConfig)
        ensures
            r.botan_cc is None,
            r.botan_cc_bin is None,
            r.botan_enable_modules@ == Set::<Seq<char>>::empty(),
            r.botan_disable_modules@ == Set::<Seq<char>>::empty(),
    {
        BuildConfig {
            botan_cc: None,
            botan_cc_bin: None,
            botan_enable_modules: ModuleSet::new(),
            botan_disable_modules: ModuleSet::new(),
        }
    }
}

impl BuildConfig {
    /// The configuration for `target` and the caller's environment values.
    ///
    /// Precedence, lowest to highest: platform defaults (Windows uses
    /// `gcc`/`g++`), then the caller's values (scalars override, module
    /// sets are seeded from the comma-separated lists), then the feature
    /// merge (PQC modules united into the enabled set; the Windows disables
    /// united into the disabled set).
    pub fn detect_with_env(target: BuildTarget, env: &BuildEnv) -> (r: BuildConfig)
        ensures
            opt_view(r.botan_cc) == resolved_compiler(target, opt_view(env.cc), "gcc"@),
            opt_view(r.botan_cc_bin) == resolved_compiler(target, opt_view(env.cc_bin), "g++"@),
            r.botan_enable_modules@ == resolved_enable(target, opt_view(env.enable_modules)),
            r.botan_disable_modules@ == resolved_disable(target, opt_view(env.disable_modules)),
    {
        let mut botan_cc: Option<String> = None;
        let mut botan_cc_bin: Option<String> = None;
        if target.windows {
            botan_cc = Some(owned("gcc"));
            botan_cc_bin = Some(owned("g++"));
        }
        if env.cc.is_some() {
            botan_cc = clone_opt(&env.cc);
        }
        if env.cc_bin.is_some() {
            botan_cc_bin = clone_opt(&env.cc_bin);
        }
        let mut enable = ModuleSet::new();
        let enable_entries = csv_env(opt_str(&env.enable_modules));
        insert_all(&mut enable, enable_entries);
        let mut disable = ModuleSet::new();
        let disable_entries = csv_env(opt_str(&env.disable_modules));
        insert_all(&mut disable, disable_entries);
        if target.pqc {
            let ghost before = enable@;
            enable.insert(owned("ml_kem"));
            enable.insert(owned("ml_dsa"));
            enable.insert(owned("slh_dsa_sha2"));
            enable.insert(owned("slh_dsa_shake"));
            assert(enable@ =~= before.union(pqc_modules()));
        }
        if target.windows {
            let ghost before = disable@;
            disable.insert(owned("certstor_system_windows"));
            assert(disable@ =~= before.union(windows_disabled_modules()));
        }
        proof {
            assert(Set::<Seq<char>>::empty().union(csv_set(opt_view(env.enable_modules))) =~= csv_set(
                opt_view(env.enable_modules),
            ));
            assert(Set::<Seq<char>>::empty().union(csv_set(opt_view(env.disable_modules))) =~= csv_set(
                opt_view(env.disable_modules),
            ));
        }
        BuildConfig {
            botan_cc,
            botan_cc_bin,
            botan_enable_modules: enable,
            botan_disable_modules: disable,
        }
    }

    /// The value `BOTAN_CONFIGURE_ENABLE_MODULES` is set to, if any.
    pub fn enable_modules_value(&self) -> (r: Option<String>)
        ensures
            strictly_sorted(self.botan_enable_modules.in_order()),
            self.botan_enable_modules.in_order().to_set() == self.botan_enable_modules@,
            r is None <==> self.botan_enable_modules@ == Set::<Seq<char>>::empty(),
            r matches Some(s) ==> s@ == joined(self.botan_enable_modules.in_order(), ","@),
    {
        self.botan_enable_modules.joined_value()
    }

    /// The value `BOTAN_CONFIGURE_DISABLE_MODULES` is set to, if any.
    pub fn disable_modules_value(&self) -> (r: Option<String>)
        ensures
            strictly_sorted(self.botan_disable_modules.in_order()),
            self.botan_disable_modules.in_order().to_set() == self.botan_disable_modules@,
            r is None <==> self.botan_disable_modules@ == Set::<Seq<char>>::empty(),
            r matches Some(s) ==> s@ == joined(self.botan_disable_modules.in_order(), ","@),
    {
        self.botan_disable_modules.joined_value()
    }
}

impl Default for BuildEnv {
    /// No value set.
    fn default() -> (r: BuildEnv)
        ensures
            r.cc is None,
            r.cc_bin is None,
            r.enable_modules is None,
            r.disable_modules is None,
    {
        BuildEnv { cc: None, cc_bin: None, enable_modules: None, disable_modules: None }
    }
}

} // verus!
