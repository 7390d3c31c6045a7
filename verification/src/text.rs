//! Text manipulation for template substitution: first-occurrence search,
//! exactly-once replacement, and trailing-whitespace trimming.

use vstd::prelude::*;

verus! {

/// Index of the leftmost occurrence of `pat` in `s` at or after position `i`,
/// or `None` when `pat` does not occur there.
pub open spec fn first_match_from(s: Seq<char>, pat: Seq<char>, i: nat) -> Option<int>
    decreases s.len() - i,
    when i <= s.len()
{
    if i + pat.len() > s.len() {
        None
    } else if pat.len() == 0 {
        Some(i as int)
    } else if s.subrange(i as int, i + pat.len() as int) == pat {
        Some(i as int)
    } else {
        first_match_from(s, pat, (i + 1) as nat)
    }
}

/// Index of the leftmost occurrence of `pat` in `s`.
pub open spec fn first_match(s: Seq<char>, pat: Seq<char>) -> Option<int> {
    first_match_from(s, pat, 0)
}

/// `s` with the leftmost occurrence of `pat` replaced by `rep`; `s` itself
/// when `pat` does not occur. Later occurrences are left untouched.
pub open spec fn replaced(s: Seq<char>, pat: Seq<char>, rep: Seq<char>) -> Seq<char> {
    match first_match(s, pat) {
        None => s,
        Some(i) => s.take(i) + rep + s.skip(i + pat.len() as int),
    }
}

/// What `first_match_from` returns is an occurrence, and the leftmost one.
pub proof fn lemma_first_match_from(s: Seq<char>, pat: Seq<char>, k: nat)
    requires
        k <= s.len(),
    ensures
        match first_match_from(s, pat, k) {
            Some(i) => {
                &&& k <= i
                &&& i + pat.len() <= s.len()
                &&& s.subrange(i, i + pat.len() as int) == pat
                &&& forall|j: int|
                    k <= j < i ==> #[trigger] s.subrange(j, j + pat.len() as int) != pat
            },
            None => forall|j: int|
                k <= j && j + pat.len() <= s.len() ==> #[trigger] s.subrange(
                    j,
                    j + pat.len() as int,
                ) != pat,
        },
    decreases s.len() - k,
{
    if k + pat.len() > s.len() {
    } else if pat.len() == 0 {
        assert(s.subrange(k as int, k as int) =~= pat);
    } else if s.subrange(k as int, k + pat.len() as int) == pat {
    } else {
        lemma_first_match_from(s, pat, (k + 1) as nat);
    }
}

/// Exactly-once substitution: when `i` is the leftmost occurrence of `pat`
/// in `s`, replacement rewrites that occurrence alone; everything before it
/// and everything after it — any literal look-alikes of `pat` there
/// among the rest — is carried over unchanged.
pub proof fn lemma_replace_first_exactly_once(
    s: Seq<char>,
    pat: Seq<char>,
    rep: Seq<char>,
    i: int,
)
    requires
        0 <= i,
        i + pat.len() <= s.len(),
        s.subrange(i, i + pat.len() as int) == pat,
        forall|j: int| 0 <= j < i ==> #[trigger] s.subrange(j, j + pat.len() as int) != pat,
    ensures
        first_match(s, pat) == Some(i),
        replaced(s, pat, rep) == s.take(i) + rep + s.skip(i + pat.len() as int),
{
    lemma_first_match_from(s, pat, 0);
}

/// Whether `pat` occurs in `s` starting at position `i`.
fn matches_at(s: &str, pat: &str, i: usize, n: usize, m: usize) -> (r: bool)
    requires
        n == s@.len(),
        m == pat@.len(),
        i + m <= n,
    ensures
        r == (s@.subrange(i as int, i + m) == pat@),
{
    let mut j: usize = 0;
    while j < m
        invariant
            j <= m,
            i + m <= n,
            n == s@.len(),
            m == pat@.len(),
            forall|k: int| 0 <= k < j ==> s@[i + k] == pat@[k],
        decreases m - j,
    {
        if s.get_char(i + j) != pat.get_char(j) {
            proof {
                assert(s@.subrange(i as int, i + m)[j as int] != pat@[j as int]);
            }
            return false;
        }
        j += 1;
    }
    proof {
        assert(s@.subrange(i as int, i + m) =~= pat@);
    }
    true
}

/// Position of the leftmost occurrence of `pat` in `s`, scanning characters
/// left to right.
pub fn find_first(s: &str, pat: &str) -> (r: Option<usize>)
    ensures
        match r {
            Some(i) => first_match(s@, pat@) == Some(i as int),
            None => first_match(s@, pat@) is None,
        },
{
    let n = s.unicode_len();
    let m = pat.unicode_len();
    let mut i: usize = 0;
    loop
        invariant
            i <= n,
            n == s@.len(),
            m == pat@.len(),
            first_match(s@, pat@) == first_match_from(s@, pat@, i as nat),
        decreases n - i,
    {
        if m > n - i {
            return None;
        }
        if matches_at(s, pat, i, n, m) {
            return Some(i);
        }
        proof {
            if m == 0 {
                assert(s@.subrange(i as int, i as int) =~= pat@);
            }
        }
        i += 1;
    }
}

/// `s` with the leftmost occurrence of `pat` replaced by `rep`; later
/// occurrences, and `s` without any occurrence, are left as they are.
pub fn replace_first(s: &str, pat: &str, rep: &str) -> (r: String)
    ensures
        r@ == replaced(s@, pat@, rep@),
{
    let n = s.unicode_len();
    let m = pat.unicode_len();
    match find_first(s, pat) {
        None => s.to_owned(),
        Some(i) => {
            proof {
                lemma_first_match_from(s@, pat@, 0);
            }
            let head = s.substring_char(0, i);
            let tail = s.substring_char(i + m, n);
            let mut out = head.to_owned();
            out.append(rep);
            out.append(tail);
            proof {
                assert(s@.subrange(0, i as int) =~= s@.take(i as int));
                assert(s@.subrange(i + m, n as int) =~= s@.skip(i + m));
            }
            out
        },
    }
}

/// A character the end-trimming pass removes: one of the twenty-five
/// characters with the Unicode White_Space property (spaces, tabs, line
/// breaks, and the non-ASCII space and separator characters).
pub open spec fn is_trailing_ws(c: char) -> bool {
    ||| c == '\u{9}'
    ||| c == '\u{a}'
    ||| c == '\u{b}'
    ||| c == '\u{c}'
    ||| c == '\u{d}'
    ||| c == ' '
    ||| c == '\u{85}'
    ||| c == '\u{a0}'
    ||| c == '\u{1680}'
    ||| c == '\u{2000}'
    ||| c == '\u{2001}'
    ||| c == '\u{2002}'
    ||| c == '\u{2003}'
    ||| c == '\u{2004}'
    ||| c == '\u{2005}'
    ||| c == '\u{2006}'
    ||| c == '\u{2007}'
    ||| c == '\u{2008}'
    ||| c == '\u{2009}'
    ||| c == '\u{200a}'
    ||| c == '\u{2028}'
    ||| c == '\u{2029}'
    ||| c == '\u{202f}'
    ||| c == '\u{205f}'
    ||| c == '\u{3000}'
}

/// Whether `c` has the Unicode White_Space property.
fn is_ws_char(c: char) -> (r: bool)
    ensures
        r == is_trailing_ws(c),
{
    c == '\u{9}' || c == '\u{a}' || c == '\u{b}' || c == '\u{c}' || c == '\u{d}' || c == ' '
        || c == '\u{85}' || c == '\u{a0}' || c == '\u{1680}' || c == '\u{2000}' || c == '\u{2001}'
        || c == '\u{2002}' || c == '\u{2003}' || c == '\u{2004}' || c == '\u{2005}'
        || c == '\u{2006}' || c == '\u{2007}' || c == '\u{2008}' || c == '\u{2009}'
        || c == '\u{200a}' || c == '\u{2028}' || c == '\u{2029}' || c == '\u{202f}'
        || c == '\u{205f}' || c == '\u{3000}'
}

/// `s` without its trailing whitespace characters.
pub open spec fn trimmed_end(s: Seq<char>) -> Seq<char>
    decreases s.len(),
{
    if s.len() == 0 {
        s
    } else if is_trailing_ws(s[s.len() - 1]) {
        trimmed_end(s.drop_last())
    } else {
        s
    }
}

/// The longest prefix of `s` that ends in a non-whitespace character.
pub fn trim_end_ws<'a>(s: &'a str) -> (r: &'a str)
    ensures
        r@ == trimmed_end(s@),
{
    let n = s.unicode_len();
    let mut end = n;
    proof {
        assert(s@.take(n as int) =~= s@);
    }
    loop
        invariant
            end <= n,
            n == s@.len(),
            trimmed_end(s@) == trimmed_end(s@.take(end as int)),
        ensures
            end <= n,
            n == s@.len(),
            trimmed_end(s@) == s@.take(end as int),
        decreases end,
    {
        if end == 0 {
            proof {
                assert(s@.take(0) =~= Seq::<char>::empty());
            }
            break;
        }
        let c = s.get_char(end - 1);
        if is_ws_char(c) {
            proof {
                assert(s@.take(end as int).drop_last() =~= s@.take(end - 1));
            }
            end -= 1;
        } else {
            break;
        }
    }
    let r = s.substring_char(0, end);
    proof {
        assert(r@ =~= s@.take(end as int));
    }
    r
}

} // verus!
