//! Character-level text helpers shared by the rest of the library: string
//! equality, NUL detection, trimming, comma-separated lists, placeholder
//! substitution, joining and Unix path composition.

use vstd::prelude::*;

verus! {

broadcast use vstd::string::group_string_axioms;

// ---------------------------------------------------------------------------
// Specifications
// ---------------------------------------------------------------------------

/// Whether `c` has the Unicode `White_Space` property (what
/// `char::is_whitespace` decides): U+0009 to U+000D, U+0020, U+0085,
/// U+00A0, U+1680, U+2000 to U+200A, U+2028, U+2029, U+202F, U+205F and
/// U+3000.
pub open spec fn is_white_space(c: char) -> bool {
    let u = c as u32;
    (0x9 <= u <= 0xd) || u == 0x20 || u == 0x85 || u == 0xa0 || u == 0x1680 || (0x2000 <= u
        <= 0x200a) || u == 0x2028 || u == 0x2029 || u == 0x202f || u == 0x205f || u == 0x3000
}

/// Whether the text holds a NUL character, which a C string cannot carry.
pub open spec fn has_nul(s: Seq<char>) -> bool {
    s.contains('\0')
}

/// `s` with leading white space removed.
pub open spec fn trim_start(s: Seq<char>) -> Seq<char>
    decreases s.len(),
{
    if s.len() > 0 && is_white_space(s[0]) {
        trim_start(s.drop_first())
    } else {
        s
    }
}

/// `s` with trailing white space removed.
pub open spec fn trim_end(s: Seq<char>) -> Seq<char>
    decreases s.len(),
{
    if s.len() > 0 && is_white_space(s.last()) {
        trim_end(s.drop_last())
    } else {
        s
    }
}

/// `s` with white space removed at both ends (what `str::trim` gives).
pub open spec fn trimmed(s: Seq<char>) -> Seq<char> {
    trim_end(trim_start(s))
}

/// The pieces of `s` between the separators `sep`, where `cur` is the
/// piece already begun. Splitting the empty text gives one empty piece.
pub open spec fn split_from(s: Seq<char>, sep: char, cur: Seq<char>) -> Seq<Seq<char>>
    decreases s.len(),
{
    if s.len() == 0 {
        seq![cur]
    } else if s[0] == sep {
        seq![cur] + split_from(s.drop_first(), sep, Seq::empty())
    } else {
        split_from(s.drop_first(), sep, cur.push(s[0]))
    }
}

/// The pieces of `s` between the separators `sep` (what `str::split` gives).
pub open spec fn split_on(s: Seq<char>, sep: char) -> Seq<Seq<char>> {
    split_from(s, sep, Seq::empty())
}

/// The trimmed pieces that are not empty, in order.
pub open spec fn nonempty_trimmed(pieces: Seq<Seq<char>>) -> Seq<Seq<char>>
    decreases pieces.len(),
{
    if pieces.len() == 0 {
        Seq::empty()
    } else {
        let rest = nonempty_trimmed(pieces.drop_last());
        let t = trimmed(pieces.last());
        if t.len() == 0 {
            rest
        } else {
            rest.push(t)
        }
    }
}

/// The entries of a comma-separated list: split on `,`, each entry
/// trimmed, empty entries dropped.
pub open spec fn csv_entries(s: Seq<char>) -> Seq<Seq<char>> {
    nonempty_trimmed(split_on(s, ','))
}

/// Every occurrence of the non-empty `pat` in `s`, scanning from the left,
/// replaced by `rep` (what `str::replace` gives).
pub open spec fn replaced(s: Seq<char>, pat: Seq<char>, rep: Seq<char>) -> Seq<char>
    recommends
        pat.len() > 0,
    decreases s.len(),
{
    if pat.len() == 0 || s.len() < pat.len() {
        s
    } else if s.take(pat.len() as int) == pat {
        rep + replaced(s.skip(pat.len() as int), pat, rep)
    } else {
        seq![s[0]] + replaced(s.drop_first(), pat, rep)
    }
}

/// The parts written one after another with `sep` between neighbours.
pub open spec fn joined(parts: Seq<Seq<char>>, sep: Seq<char>) -> Seq<char>
    decreases parts.len(),
{
    if parts.len() == 0 {
        Seq::empty()
    } else if parts.len() == 1 {
        parts[0]
    } else {
        joined(parts.drop_last(), sep) + sep + parts.last()
    }
}

/// A path component every host joins alike: not empty, not `.` or `..`,
/// and holding no `/`, `\` or `:` (so neither a root nor a prefix).
pub open spec fn plain_component(c: Seq<char>) -> bool {
    &&& c.len() > 0
    &&& c != seq!['.']
    &&& c != seq!['.', '.']
    &&& !c.contains('/')
    &&& !c.contains('\\')
    &&& !c.contains(':')
}

/// A root path every host parses alike: holding no `\` or `:` and not
/// starting with `//` (so without a Windows prefix).
pub open spec fn plain_root(r: Seq<char>) -> bool {
    &&& !r.contains('\\')
    &&& !r.contains(':')
    &&& !(r.len() >= 2 && r[0] == '/' && r[1] == '/')
}

/// `component` joined onto `root` with separator `sep`: an empty root is
/// dropped, and `sep` is put between the two unless the root already ends
/// in `/`.
pub open spec fn joined_with(root: Seq<char>, component: Seq<char>, sep: char) -> Seq<char> {
    if root.len() == 0 {
        component
    } else if root.last() == '/' {
        root + component
    } else {
        root + seq![sep] + component
    }
}

/// Whether `joined` can be what `Path::join` gives for `root` and
/// `component`: for a plain root and component, the two joined with the
/// host's separator, `/` on Unix and `\` on Windows.
pub open spec fn host_joined(root: Seq<char>, component: Seq<char>, joined: Seq<char>) -> bool {
    plain_root(root) && plain_component(component) ==> (joined == joined_with(root, component, '/')
        || joined == joined_with(root, component, '\\'))
}

/// The view of an optional string.
pub open spec fn opt_view(o: Option<String>) -> Option<Seq<char>> {
    match o {
        Some(s) => Some(s@),
        None => None,
    }
}

/// The views of a sequence of strings.
pub open spec fn views(v: Seq<String>) -> Seq<Seq<char>> {
    v.map_values(|s: String| s@)
}

// ---------------------------------------------------------------------------
// Trusted std items
// ---------------------------------------------------------------------------

/// `String::push`: appends the character to the end of the string.
#[verifier::external_body]
fn push_char(s: &mut String, c: char)
    ensures
        final(s)@ == old(s)@.push(c),
{
    s.push(c);
}

/// `Path::join`, as text: `component` adjoined to `root`. For a plain root
/// and component (see [`host_joined`]) std documents the result as the
/// root, the host's separator (`MAIN_SEPARATOR`: `/` on Unix, `\` on
/// Windows) unless the root is empty or already ends in a separator, then
/// the component. Nothing is claimed of other inputs (absolute or prefixed
/// components, Windows prefixes in the root), where the hosts differ.
#[verifier::external_body]
fn path_join(root: &str, component: &str) -> (r: String)
    ensures
        host_joined(root@, component@, r@),
{
    std::path::Path::new(root).join(component).to_string_lossy().into_owned()
}

/// Whether `c` is a white-space character.
pub fn char_is_whitespace(c: char) -> (r: bool)
    ensures
        r == is_white_space(c),
{
    let u = c as u32;
    (0x9 <= u && u <= 0xd) || u == 0x20 || u == 0x85 || u == 0xa0 || u == 0x1680 || (0x2000 <= u
        && u <= 0x200a) || u == 0x2028 || u == 0x2029 || u == 0x202f || u == 0x205f || u == 0x3000
}

// ---------------------------------------------------------------------------
// Verified helpers
// ---------------------------------------------------------------------------

/// The characters of `s`, in order.
pub fn chars_of(s: &str) -> (v: Vec<char>)
    ensures
        v@ == s@,
{
    let mut v: Vec<char> = Vec::new();
    for c in it: s.chars()
        invariant
            v@ == it.seq().take(it.index() as int),
            it.seq() == s@,
    {
        v.push(c);
    }
    v
}

/// A string made of the characters `cs[from..to]`.
pub fn string_of_range(cs: &[char], from: usize, to: usize) -> (s: String)
    requires
        from <= to <= cs@.len(),
    ensures
        s@ == cs@.subrange(from as int, to as int),
{
    let mut s = String::new();
    let mut i: usize = from;
    while i < to
        invariant
            from <= i <= to <= cs@.len(),
            s@ == cs@.subrange(from as int, i as int),
        decreases to - i,
    {
        push_char(&mut s, cs[i]);
        assert(cs@.subrange(from as int, i + 1) == cs@.subrange(from as int, i as int).push(cs@[i as int]));
        i += 1;
    }
    s
}

/// A string made of the characters `cs`.
pub fn string_of_chars(cs: &[char]) -> (s: String)
    ensures
        s@ == cs@,
{
    let s = string_of_range(cs, 0, cs.len());
    assert(cs@.subrange(0, cs@.len() as int) == cs@);
    s
}

/// A string with the characters of `s`.
pub fn owned(s: &str) -> (r: String)
    ensures
        r@ == s@,
{
    let cs = chars_of(s);
    string_of_chars(cs.as_slice())
}

/// Whether the two character sequences are equal.
pub fn chars_equal(a: &[char], b: &[char]) -> (r: bool)
    ensures
        r == (a@ == b@),
{
    if a.len() != b.len() {
        return false;
    }
    let mut i: usize = 0;
    while i < a.len()
        invariant
            a@.len() == b@.len(),
            i <= a@.len(),
            forall|j: int| 0 <= j < i ==> a@[j] == b@[j],
        decreases a.len() - i,
    {
        if a[i] != b[i] {
            return false;
        }
        i += 1;
    }
    assert(a@ =~= b@);
    true
}

/// Whether the two strings hold the same text.
pub fn str_eq(a: &str, b: &str) -> (r: bool)
    ensures
        r == (a@ == b@),
{
    let x = chars_of(a);
    let y = chars_of(b);
    chars_equal(x.as_slice(), y.as_slice())
}

/// Whether `s` holds a NUL character.
pub fn contains_nul(s: &str) -> (r: bool)
    ensures
        r == has_nul(s@),
{
    let cs = chars_of(s);
    let mut i: usize = 0;
    while i < cs.len()
        invariant
            cs@ == s@,
            i <= cs@.len(),
            forall|j: int| 0 <= j < i ==> cs@[j] != '\0',
        decreases cs.len() - i,
    {
        if cs[i] == '\0' {
            return true;
        }
        i += 1;
    }
    false
}

/// Whether the bytes hold a zero byte, which a C string cannot carry.
pub fn bytes_contain_nul(b: &[u8]) -> (r: bool)
    ensures
        r == b@.contains(0u8),
{
    let mut i: usize = 0;
    while i < b.len()
        invariant
            i <= b@.len(),
            forall|j: int| 0 <= j < i ==> b@[j] != 0u8,
        decreases b.len() - i,
    {
        if b[i] == 0 {
            return true;
        }
        i += 1;
    }
    false
}

proof fn lemma_trim_start_step(s: Seq<char>, lo: int, hi: int)
    requires
        0 <= lo < hi <= s.len(),
        is_white_space(s[lo]),
    ensures
        trim_start(s.subrange(lo, hi)) == trim_start(s.subrange(lo + 1, hi)),
{
    assert(s.subrange(lo, hi).drop_first() =~= s.subrange(lo + 1, hi));
}

proof fn lemma_trim_end_step(s: Seq<char>, lo: int, hi: int)
    requires
        0 <= lo < hi <= s.len(),
        is_white_space(s[hi - 1]),
    ensures
        trim_end(s.subrange(lo, hi)) == trim_end(s.subrange(lo, hi - 1)),
{
    assert(s.subrange(lo, hi).drop_last() =~= s.subrange(lo, hi - 1));
}

/// The bounds of `cs[from..to]` with white space removed at both ends.
pub fn trim_bounds(cs: &[char], from: usize, to: usize) -> (r: (usize, usize))
    requires
        from <= to <= cs@.len(),
    ensures
        from <= r.0 <= r.1 <= to,
        cs@.subrange(r.0 as int, r.1 as int) == trimmed(cs@.subrange(from as int, to as int)),
{
    let mut lo = from;
    while lo < to && char_is_whitespace(cs[lo])
        invariant
            from <= lo <= to <= cs@.len(),
            trim_start(cs@.subrange(from as int, to as int)) == trim_start(
                cs@.subrange(lo as int, to as int),
            ),
        decreases to - lo,
    {
        proof {
            lemma_trim_start_step(cs@, lo as int, to as int);
        }
        lo += 1;
    }
    // The remaining text starts with a non-white character, or is empty.
    assert(trim_start(cs@.subrange(lo as int, to as int)) == cs@.subrange(lo as int, to as int));
    let mut hi = to;
    while hi > lo && char_is_whitespace(cs[hi - 1])
        invariant
            from <= lo <= hi <= to <= cs@.len(),
            trim_end(cs@.subrange(lo as int, to as int)) == trim_end(
                cs@.subrange(lo as int, hi as int),
            ),
        decreases hi - lo,
    {
        proof {
            lemma_trim_end_step(cs@, lo as int, hi as int);
        }
        hi -= 1;
    }
    assert(trim_end(cs@.subrange(lo as int, hi as int)) == cs@.subrange(lo as int, hi as int));
    (lo, hi)
}

/// `s` with white space removed at both ends.
pub fn trim(s: &str) -> (r: String)
    ensures
        r@ == trimmed(s@),
{
    let cs = chars_of(s);
    let (lo, hi) = trim_bounds(cs.as_slice(), 0, cs.len());
    assert(cs@.subrange(0, cs@.len() as int) == cs@);
    string_of_range(cs.as_slice(), lo, hi)
}

proof fn lemma_split_step(s: Seq<char>, i: int, sep: char, cur: Seq<char>)
    requires
        0 <= i < s.len(),
    ensures
        split_from(s.skip(i), sep, cur) == if s[i] == sep {
            seq![cur] + split_from(s.skip(i + 1), sep, Seq::empty())
        } else {
            split_from(s.skip(i + 1), sep, cur.push(s[i]))
        },
{
    assert(s.skip(i).drop_first() =~= s.skip(i + 1));
}

proof fn lemma_nonempty_trimmed_push(pieces: Seq<Seq<char>>, p: Seq<char>)
    ensures
        nonempty_trimmed(pieces.push(p)) == if trimmed(p).len() == 0 {
            nonempty_trimmed(pieces)
        } else {
            nonempty_trimmed(pieces).push(trimmed(p))
        },
{
    assert(pieces.push(p).drop_last() =~= pieces);
}

/// The entries of the comma-separated list `s`: each trimmed, empty ones
/// dropped, in order.
pub fn csv_split(s: &str) -> (r: Vec<String>)
    ensures
        views(r@) == csv_entries(s@),
{
    let cs = chars_of(s);
    let ghost pieces: Seq<Seq<char>> = Seq::empty();
    let mut out: Vec<String> = Vec::new();
    let mut start: usize = 0;
    let mut i: usize = 0;
    proof {
        assert(cs@.skip(0) =~= cs@);
        assert(cs@.subrange(0, 0) =~= Seq::<char>::empty());
    }
    while i < cs.len()
        invariant
            cs@ == s@,
            start <= i <= cs@.len(),
            pieces + split_from(cs@.skip(i as int), ',', cs@.subrange(start as int, i as int))
                == split_on(s@, ','),
            views(out@) == nonempty_trimmed(pieces),
        decreases cs.len() - i,
    {
        proof {
            lemma_split_step(cs@, i as int, ',', cs@.subrange(start as int, i as int));
        }
        if cs[i] == ',' {
            let (lo, hi) = trim_bounds(cs.as_slice(), start, i);
            let ghost piece = cs@.subrange(start as int, i as int);
            proof {
                lemma_nonempty_trimmed_push(pieces, piece);
            }
            if lo < hi {
                let entry = string_of_range(cs.as_slice(), lo, hi);
                proof {
                    assert(views(out@.push(entry)) =~= views(out@).push(entry@));
                }
                out.push(entry);
            }
            proof {
                pieces = pieces.push(piece);
                assert(pieces + split_from(cs@.skip(i + 1), ',', Seq::empty()) =~= pieces.drop_last()
                    + (seq![piece] + split_from(cs@.skip(i + 1), ',', Seq::empty())));
                assert(cs@.subrange(i + 1, i + 1) =~= Seq::<char>::empty());
            }
            start = i + 1;
        } else {
            proof {
                assert(cs@.subrange(start as int, i + 1) =~= cs@.subrange(start as int, i as int).push(
                    cs@[i as int],
                ));
            }
        }
        i += 1;
    }
    let ghost last = cs@.subrange(start as int, i as int);
    proof {
        assert(cs@.skip(i as int) =~= Seq::<char>::empty());
        assert(split_on(s@, ',') =~= pieces.push(last));
        lemma_nonempty_trimmed_push(pieces, last);
    }
    let (lo, hi) = trim_bounds(cs.as_slice(), start, i);
    if lo < hi {
        let entry = string_of_range(cs.as_slice(), lo, hi);
        proof {
            assert(views(out@.push(entry)) =~= views(out@).push(entry@));
        }
        out.push(entry);
    }
    out
}

/// Appends the characters `cs` to `s`.
pub fn push_chars(s: &mut String, cs: &[char])
    ensures
        final(s)@ == old(s)@ + cs@,
{
    let mut i: usize = 0;
    while i < cs.len()
        invariant
            i <= cs@.len(),
            s@ == old(s)@ + cs@.take(i as int),
        decreases cs.len() - i,
    {
        push_char(s, cs[i]);
        assert(cs@.take(i + 1) =~= cs@.take(i as int).push(cs@[i as int]));
        i += 1;
    }
    assert(cs@.take(cs@.len() as int) =~= cs@);
}

/// Appends the characters `cs[from..to]` to `s`.
pub fn push_range(s: &mut String, cs: &[char], from: usize, to: usize)
    requires
        from <= to <= cs@.len(),
    ensures
        final(s)@ == old(s)@ + cs@.subrange(from as int, to as int),
{
    let mut i: usize = from;
    while i < to
        invariant
            from <= i <= to <= cs@.len(),
            s@ == old(s)@ + cs@.subrange(from as int, i as int),
        decreases to - i,
    {
        push_char(s, cs[i]);
        assert(cs@.subrange(from as int, i + 1) =~= cs@.subrange(from as int, i as int).push(cs@[i as int]));
        i += 1;
    }
}

/// Whether `pat` occurs in `cs` at position `at`.
fn occurs_at(cs: &[char], at: usize, pat: &[char]) -> (r: bool)
    requires
        at <= cs@.len(),
    ensures
        r == (pat@.len() <= cs@.len() - at && cs@.subrange(at as int, at + pat@.len()) == pat@),
{
    if pat.len() > cs.len() - at {
        return false;
    }
    let n = cs.len();
    let mut j: usize = 0;
    while j < pat.len()
        invariant
            n == cs@.len(),
            at <= cs@.len(),
            pat@.len() <= cs@.len() - at,
            j <= pat@.len(),
            forall|k: int| 0 <= k < j ==> cs@[at + k] == pat@[k],
        decreases pat.len() - j,
    {
        if cs[at + j] != pat[j] {
            assert(cs@.subrange(at as int, at + pat@.len())[j as int] != pat@[j as int]);
            return false;
        }
        j += 1;
    }
    assert(cs@.subrange(at as int, at + pat@.len()) =~= pat@);
    true
}

proof fn lemma_replaced_step(s: Seq<char>, i: int, pat: Seq<char>, rep: Seq<char>)
    requires
        0 <= i < s.len(),
        pat.len() > 0,
    ensures
        replaced(s.skip(i), pat, rep) == if pat.len() <= s.len() - i && s.subrange(i, i + pat.len())
            == pat {
            rep + replaced(s.skip(i + pat.len()), pat, rep)
        } else if s.len() - i < pat.len() {
            s.skip(i)
        } else {
            seq![s[i]] + replaced(s.skip(i + 1), pat, rep)
        },
{
    if pat.len() <= s.len() - i {
        assert(s.skip(i).take(pat.len() as int) =~= s.subrange(i, i + pat.len()));
        assert(s.skip(i).skip(pat.len() as int) =~= s.skip(i + pat.len()));
    }
    assert(s.skip(i).drop_first() =~= s.skip(i + 1));
}

/// `s` with every occurrence of the non-empty `pat` replaced by `rep`,
/// scanning from the left.
pub fn replace_all(s: &str, pat: &str, rep: &str) -> (r: String)
    requires
        pat@.len() > 0,
    ensures
        r@ == replaced(s@, pat@, rep@),
{
    let cs = chars_of(s);
    let ps = chars_of(pat);
    let rs = chars_of(rep);
    let mut out = String::new();
    let mut i: usize = 0;
    assert(cs@.skip(0) =~= cs@);
    while i < cs.len()
        invariant
            cs@ == s@,
            ps@ == pat@,
            rs@ == rep@,
            ps@.len() > 0,
            i <= cs@.len(),
            out@ + replaced(cs@.skip(i as int), ps@, rs@) == replaced(s@, pat@, rep@),
        decreases cs.len() - i,
    {
        proof {
            lemma_replaced_step(cs@, i as int, ps@, rs@);
        }
        if occurs_at(cs.as_slice(), i, ps.as_slice()) {
            let ghost before = out@;
            push_chars(&mut out, rs.as_slice());
            assert(out@ + replaced(cs@.skip(i + ps@.len()), ps@, rs@) =~= before + (rs@
                + replaced(cs@.skip(i + ps@.len()), ps@, rs@)));
            i = i + ps.len();
        } else if cs.len() - i < ps.len() {
            let ghost before = out@;
            push_range(&mut out, cs.as_slice(), i, cs.len());
            assert(cs@.subrange(i as int, cs@.len() as int) =~= cs@.skip(i as int));
            assert(replaced(cs@.skip(cs@.len() as int), ps@, rs@) == Seq::<char>::empty()) by {
                assert(cs@.skip(cs@.len() as int) =~= Seq::<char>::empty());
            }
            assert(out@ + Seq::<char>::empty() =~= out@);
            i = cs.len();
        } else {
            let ghost before = out@;
            push_char(&mut out, cs[i]);
            assert(out@ + replaced(cs@.skip(i + 1), ps@, rs@) =~= before + (seq![cs@[i as int]]
                + replaced(cs@.skip(i + 1), ps@, rs@)));
            i = i + 1;
        }
    }
    proof {
        assert(cs@.skip(i as int) =~= Seq::<char>::empty());
        assert(out@ + Seq::<char>::empty() =~= out@);
    }
    out
}

/// The strings `parts` written one after another with `sep` between
/// neighbours.
pub fn join(parts: &[String], sep: &str) -> (r: String)
    ensures
        r@ == joined(views(parts@), sep@),
{
    let sep_chars = chars_of(sep);
    let mut out = String::new();
    let mut i: usize = 0;
    while i < parts.len()
        invariant
            sep_chars@ == sep@,
            i <= parts@.len(),
            out@ == joined(views(parts@.take(i as int)), sep@),
        decreases parts.len() - i,
    {
        let part = chars_of(parts[i].as_str());
        if i > 0 {
            push_chars(&mut out, sep_chars.as_slice());
        }
        push_chars(&mut out, part.as_slice());
        proof {
            let prefix = views(parts@.take(i + 1));
            assert(prefix.drop_last() =~= views(parts@.take(i as int)));
            assert(prefix.last() == parts@[i as int]@);
            if i == 0 {
                assert(out@ =~= prefix[0]);
            }
        }
        i += 1;
    }
    assert(parts@.take(parts@.len() as int) =~= parts@);
    out
}

/// `root` extended by `component`, as the host joins paths.
pub fn join_path(root: &str, component: &str) -> (r: String)
    ensures
        host_joined(root@, component@, r@),
{
    path_join(root, component)
}

} // verus!
