use vstd::prelude::*;
use vstd::string::*;

verus! {

/// Whether a character has the Unicode `White_Space` property, which is
/// what `char::is_whitespace` tests.
pub open spec fn is_space(c: char) -> bool {
    let u = c as u32;
    (9 <= u && u <= 13) || u == 32 || u == 0x85 || u == 0xa0 || u == 0x1680
        || (0x2000 <= u && u <= 0x200a) || u == 0x2028 || u == 0x2029 || u == 0x202f
        || u == 0x205f || u == 0x3000
}

/// A string with its trailing whitespace removed.
pub open spec fn trimmed_end(s: Seq<char>) -> Seq<char>
    decreases s.len(),
{
    if s.len() > 0 && is_space(s.last()) {
        trimmed_end(s.drop_last())
    } else {
        s
    }
}

/// The words of a string: its maximal runs of characters that are not
/// whitespace, in order.
pub open spec fn words_of(s: Seq<char>) -> Seq<Seq<char>>
    decreases s.len(),
{
    if s.len() == 0 {
        seq![]
    } else {
        let ws = words_of(s.drop_last());
        let c = s.last();
        if is_space(c) {
            ws
        } else if s.len() >= 2 && !is_space(s[s.len() - 2]) {
            ws.drop_last().push(ws.last().push(c))
        } else {
            ws.push(seq![c])
        }
    }
}

/// The version triple and whether a pre-release part is present, as
/// `semver::Version::parse` reads them from a string, or `None` where it
/// rejects the string.
pub uninterp spec fn semver_of(s: Seq<char>) -> Option<(u64, u64, u64, bool)>;

/// Whether `c` is whitespace.
pub fn char_is_space(c: char) -> (r: bool)
    ensures
        r == is_space(c),
{
    let u = c as u32;
    (9 <= u && u <= 13) || u == 32 || u == 0x85 || u == 0xa0 || u == 0x1680
        || (0x2000 <= u && u <= 0x200a) || u == 0x2028 || u == 0x2029 || u == 0x202f
        || u == 0x205f || u == 0x3000
}

/// Removes the trailing whitespace of `s`.
pub fn trim_end(s: &str) -> (r: &str)
    ensures
        r@ == trimmed_end(s@),
{
    let n = s.unicode_len();
    let mut k: usize = n;
    assert(s@.subrange(0, n as int) =~= s@);
    while k > 0 && char_is_space(s.get_char(k - 1))
        invariant
            k <= n == s@.len(),
            trimmed_end(s@.subrange(0, k as int)) == trimmed_end(s@),
        decreases k,
    {
        assert(s@.subrange(0, k as int).drop_last() =~= s@.subrange(0, k - 1));
        k = k - 1;
    }
    s.substring_char(0, k)
}

/// The words of `s`, in order.
pub fn split_words(s: &str) -> (r: Vec<String>)
    ensures
        r.deep_view() == words_of(s@),
{
    let n = s.unicode_len();
    let mut r: Vec<String> = Vec::new();
    let mut start: usize = 0;
    let mut in_word = false;
    let mut k: usize = 0;
    assert(s@.subrange(0, 0) =~= seq![]);
    while k < n
        invariant
            n == s@.len(),
            start <= k <= n,
            in_word == (k > 0 && !is_space(s@[k - 1])),
            in_word ==> start < k && (start == 0 || is_space(s@[start - 1])),
            forall|j: int| start <= j < k ==> !is_space(s@[j]),
            r.deep_view() + (if in_word { seq![s@.subrange(start as int, k as int)] } else { seq![] })
                == words_of(s@.subrange(0, k as int)),
        decreases n - k,
    {
        let c = s.get_char(k);
        let ghost pre = s@.subrange(0, k + 1);
        let ghost ws = words_of(s@.subrange(0, k as int));
        let ghost before = r.deep_view();
        assert(pre.drop_last() =~= s@.subrange(0, k as int));
        assert(pre.last() == c);
        if char_is_space(c) {
            if in_word {
                r.push(s.substring_char(start, k).to_string());
                assert(r.deep_view() =~= before.push(s@.subrange(start as int, k as int)));
            }
            assert(r.deep_view() =~= ws);
            in_word = false;
            start = k + 1;
        } else {
            if in_word {
                assert(pre[pre.len() - 2] == s@[k - 1]);
                assert(ws =~= before.push(s@.subrange(start as int, k as int)));
                assert(s@.subrange(start as int, k + 1) =~= s@.subrange(start as int, k as int).push(c));
                assert(before.push(s@.subrange(start as int, k + 1)) =~= ws.drop_last().push(ws.last().push(c)));
            } else {
                assert(k > 0 ==> pre[pre.len() - 2] == s@[k - 1]);
                assert(before =~= ws);
                assert(s@.subrange(k as int, k + 1) =~= seq![c]);
                start = k;
            }
            in_word = true;
        }
        k = k + 1;
    }
    if in_word {
        let ghost before = r.deep_view();
        r.push(s.substring_char(start, n).to_string());
        assert(r.deep_view() =~= before.push(s@.subrange(start as int, n as int)));
    }
    assert(s@.subrange(0, n as int) =~= s@);
    r
}

/// Relies on `semver::Version::parse`, which rejects the empty string: the
/// major, minor and patch numbers and whether a pre-release part is present.
#[verifier::external_body]
pub(crate) fn parse_semver(s: &str) -> (r: Option<(u64, u64, u64, bool)>)
    ensures
        r == semver_of(s@),
        s@.len() == 0 ==> r is None,
{
    match semver::Version::parse(s) {
        Ok(v) => Some((v.major, v.minor, v.patch, !v.pre.is_empty())),
        Err(_) => None,
    }
}

/// `s` with every leading occurrence of `p` removed, as
/// `str::trim_start_matches` does with a string pattern.
pub open spec fn strip_repeated(s: Seq<char>, p: Seq<char>) -> Seq<char>
    decreases s.len(),
{
    if p.len() > 0 && p.len() <= s.len() && s.subrange(0, p.len() as int) == p {
        strip_repeated(s.subrange(p.len() as int, s.len() as int), p)
    } else {
        s
    }
}

/// Whether `p` occurs in `s` at character index `at`.
fn occurs_at(s: &str, p: &str, at: usize) -> (r: bool)
    requires
        at <= s@.len(),
    ensures
        r == (at + p@.len() <= s@.len() && s@.subrange(at as int, at + p@.len()) == p@),
{
    let n = s.unicode_len();
    let m = p.unicode_len();
    if m > n - at {
        return false;
    }
    let mut k: usize = 0;
    while k < m
        invariant
            n == s@.len(),
            m == p@.len(),
            at + m <= n,
            0 <= k <= m,
            forall|j: int| 0 <= j < k ==> s@[at + j] == p@[j],
        decreases m - k,
    {
        if s.get_char(at + k) != p.get_char(k) {
            assert(s@.subrange(at as int, at + m)[k as int] != p@[k as int]);
            return false;
        }
        k = k + 1;
    }
    assert(s@.subrange(at as int, at + m) =~= p@);
    true
}

/// Removes every leading occurrence of `p` from `s`.
pub fn trim_start_repeated<'a>(s: &'a str, p: &str) -> (r: &'a str)
    ensures
        r@ == strip_repeated(s@, p@),
{
    let n = s.unicode_len();
    let m = p.unicode_len();
    let mut at: usize = 0;
    assert(s@.subrange(0, n as int) =~= s@);
    if m > 0 {
        while occurs_at(s, p, at)
            invariant
                n == s@.len(),
                m == p@.len(),
                m > 0,
                at <= n,
                strip_repeated(s@.subrange(at as int, n as int), p@) == strip_repeated(s@, p@),
            decreases n - at,
        {
            let ghost rest = s@.subrange(at as int, n as int);
            assert(rest.subrange(0, m as int) =~= s@.subrange(at as int, at + m));
            assert(rest.subrange(m as int, rest.len() as int) =~= s@.subrange(at + m, n as int));
            at = at + m;
        }
        let ghost rest = s@.subrange(at as int, n as int);
        assert(at + m <= n ==> rest.subrange(0, m as int) =~= s@.subrange(at as int, at + m));
    } else {
        assert(s@.subrange(0, n as int) =~= s@);
    }
    s.substring_char(at, n)
}

/// A path joined with a relative one, as `Path::join` forms it: a separator
/// is put between them unless the first is empty or already ends with one.
pub open spec fn path_join(base: Seq<char>, rel: Seq<char>) -> Seq<char> {
    if base.len() == 0 {
        rel
    } else if base.last() == '/' {
        base + rel
    } else {
        base + seq!['/'] + rel
    }
}

/// Joins a relative path to `base`.
pub fn join_path(base: &str, rel: &str) -> (r: String)
    ensures
        r@ == path_join(base@, rel@),
{
    let n = base.unicode_len();
    let mut r = String::from_str(base);
    if n == 0 {
        let r2 = String::from_str(rel);
        return r2;
    }
    if base.get_char(n - 1) != '/' {
        proof {
            reveal_strlit("/");
        }
        r.append("/");
    }
    r.append(rel);
    r
}

/// `s` with every whitespace character replaced by a no-break space.
pub open spec fn protect_spaces(s: Seq<char>) -> Seq<char> {
    s.map_values(|c: char| if is_space(c) { '\u{a0}' } else { c })
}

/// Replaces every whitespace character of `s` by a no-break space, so that a
/// program that splits its arguments on whitespace keeps `s` in one piece.
pub fn protect_whitespace(s: &str) -> (r: String)
    ensures
        r@ == protect_spaces(s@),
{
    let n = s.unicode_len();
    let mut r = String::new();
    let mut start: usize = 0;
    let mut k: usize = 0;
    while k < n
        invariant
            n == s@.len(),
            start <= k <= n,
            r@ + s@.subrange(start as int, k as int) == protect_spaces(s@.subrange(0, k as int)),
            forall|j: int| start <= j < k ==> !is_space(s@[j]),
        decreases n - k,
    {
        let c = s.get_char(k);
        if char_is_space(c) {
            let piece = s.substring_char(start, k);
            r.append(piece);
            proof {
                reveal_strlit("\u{a0}");
            }
            r.append("\u{a0}");
            assert(r@ =~= protect_spaces(s@.subrange(0, k + 1)));
            start = k + 1;
        } else {
            assert(s@.subrange(start as int, k + 1) =~= s@.subrange(start as int, k as int).push(c));
            assert(protect_spaces(s@.subrange(0, k + 1)) =~= protect_spaces(s@.subrange(0, k as int)).push(c));
            assert(r@ + s@.subrange(start as int, k + 1) =~= (r@ + s@.subrange(start as int, k as int)).push(c));
        }
        k = k + 1;
    }
    let piece = s.substring_char(start, n);
    r.append(piece);
    assert(s@.subrange(0, n as int) =~= s@);
    r
}

} // verus!
