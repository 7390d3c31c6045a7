//! Compilation-triple handling: a triple is a `-`-delimited tuple whose
//! third component, when present, names the operating system. The derived
//! payload file name gets a `.exe` extension exactly when that component is
//! the literal "windows".

use vstd::prelude::*;

verus! {

/// Index of the first occurrence of `c` in `s` at or after position `i`.
pub open spec fn find_char_from(s: Seq<char>, c: char, i: nat) -> Option<int>
    decreases s.len() - i,
    when i <= s.len()
{
    if i >= s.len() {
        None
    } else if s[i as int] == c {
        Some(i as int)
    } else {
        find_char_from(s, c, (i + 1) as nat)
    }
}

/// What `find_char_from` returns is an occurrence of `c`, and the leftmost one.
pub proof fn lemma_find_char_from(s: Seq<char>, c: char, k: nat)
    requires
        k <= s.len(),
    ensures
        match find_char_from(s, c, k) {
            Some(i) => k <= i < s.len() && s[i] == c && forall|j: int|
                k <= j < i ==> s[j] != c,
            None => forall|j: int| k <= j < s.len() ==> s[j] != c,
        },
    decreases s.len() - k,
{
    if k < s.len() && s[k as int] != c {
        lemma_find_char_from(s, c, (k + 1) as nat);
    }
}

/// The `k`-th `-`-delimited component of `s`, counting from zero; splitting
/// keeps empty components, so a string without any dash has exactly one
/// component, itself.
pub open spec fn dash_component(s: Seq<char>, k: nat) -> Option<Seq<char>>
    decreases s.len(),
    via dash_component_decreases
{
    match find_char_from(s, '-', 0) {
        None => if k == 0 {
            Some(s)
        } else {
            None
        },
        Some(i) => if k == 0 {
            Some(s.take(i))
        } else {
            dash_component(s.skip(i + 1), (k - 1) as nat)
        },
    }
}

#[via_fn]
proof fn dash_component_decreases(s: Seq<char>, k: nat) {
    lemma_find_char_from(s, '-', 0);
}

/// Position of the leftmost `-` in `s`.
fn find_dash(s: &str) -> (r: Option<usize>)
    ensures
        match r {
            Some(i) => find_char_from(s@, '-', 0) == Some(i as int),
            None => find_char_from(s@, '-', 0) is None,
        },
{
    let n = s.unicode_len();
    let mut i: usize = 0;
    loop
        invariant
            i <= n,
            n == s@.len(),
            find_char_from(s@, '-', 0) == find_char_from(s@, '-', i as nat),
        decreases n - i,
    {
        if i == n {
            return None;
        }
        if s.get_char(i) == '-' {
            return Some(i);
        }
        i += 1;
    }
}

/// The `k`-th `-`-delimited component of `s`, as owned text.
pub fn nth_dash_component(s: &str, k: usize) -> (r: Option<String>)
    ensures
        match r {
            Some(t) => dash_component(s@, k as nat) == Some(t@),
            None => dash_component(s@, k as nat) is None,
        },
    decreases s@.len(),
{
    let n = s.unicode_len();
    match find_dash(s) {
        None => if k == 0 {
            Some(s.to_owned())
        } else {
            None
        },
        Some(i) => {
            proof {
                lemma_find_char_from(s@, '-', 0);
            }
            if k == 0 {
                Some(s.substring_char(0, i).to_owned())
            } else {
                let rest = s.substring_char(i + 1, n);
                proof {
                    assert(rest@ =~= s@.skip(i + 1));
                }
                nth_dash_component(rest, k - 1)
            }
        },
    }
}

/// The triple's operating-system component is the literal "windows".
pub open spec fn os_is_windows(t: Seq<char>) -> bool {
    dash_component(t, 2) == Some("windows"@)
}

/// The extension the derived payload file name carries for this triple:
/// `.exe` for a Windows triple, nothing otherwise.
pub open spec fn ext_of(t: Seq<char>) -> Seq<char> {
    if os_is_windows(t) {
        ".exe"@
    } else {
        ""@
    }
}

/// The platform extension for a compilation triple: `.exe` exactly when the
/// third `-`-delimited component equals "windows"; empty for any other
/// component, and when the triple has fewer than three components.
pub fn extension_for(triple: &str) -> (r: &'static str)
    ensures
        r@ == ext_of(triple@),
{
    match nth_dash_component(triple, 2) {
        Some(os) => {
            let windows: String = "windows".to_owned();
            if os == windows {
                ".exe"
            } else {
                ""
            }
        },
        None => "",
    }
}

} // verus!
