//! The two output dialects for the generated dropper file, and the
//! case-insensitive parser that selects one.

use vstd::prelude::*;

verus! {

/// Output dialect of the generated source file.
#[derive(Clone, Copy, Debug, PartialEq, Eq, Structural)]
pub enum Language {
    Rust,
    Python,
}

/// `s` spells "rust", each letter in either case.
pub open spec fn spells_rust(s: Seq<char>) -> bool {
    &&& s.len() == 4
    &&& (s[0] == 'r' || s[0] == 'R')
    &&& (s[1] == 'u' || s[1] == 'U')
    &&& (s[2] == 's' || s[2] == 'S')
    &&& (s[3] == 't' || s[3] == 'T')
}

/// `s` spells "python", each letter in either case.
pub open spec fn spells_python(s: Seq<char>) -> bool {
    &&& s.len() == 6
    &&& (s[0] == 'p' || s[0] == 'P')
    &&& (s[1] == 'y' || s[1] == 'Y')
    &&& (s[2] == 't' || s[2] == 'T')
    &&& (s[3] == 'h' || s[3] == 'H')
    &&& (s[4] == 'o' || s[4] == 'O')
    &&& (s[5] == 'n' || s[5] == 'N')
}

impl Language {
    /// Parses a dialect name, ignoring ASCII case; any other string is
    /// rejected.
    pub fn parse(s: &str) -> (r: Option<Language>)
        ensures
            r == Some(Language::Rust) <==> spells_rust(s@),
            r == Some(Language::Python) <==> spells_python(s@),
            r is None <==> !spells_rust(s@) && !spells_python(s@),
    {
        let n = s.unicode_len();
        if n == 4 {
            let c0 = s.get_char(0);
            let c1 = s.get_char(1);
            let c2 = s.get_char(2);
            let c3 = s.get_char(3);
            if (c0 == 'r' || c0 == 'R') && (c1 == 'u' || c1 == 'U') && (c2 == 's' || c2 == 'S')
                && (c3 == 't' || c3 == 'T') {
                Some(Language::Rust)
            } else {
                None
            }
        } else if n == 6 {
            let c0 = s.get_char(0);
            let c1 = s.get_char(1);
            let c2 = s.get_char(2);
            let c3 = s.get_char(3);
            let c4 = s.get_char(4);
            let c5 = s.get_char(5);
            if (c0 == 'p' || c0 == 'P') && (c1 == 'y' || c1 == 'Y') && (c2 == 't' || c2 == 'T')
                && (c3 == 'h' || c3 == 'H') && (c4 == 'o' || c4 == 'O')
                && (c5 == 'n' || c5 == 'N') {
                Some(Language::Python)
            } else {
                None
            }
        } else {
            None
        }
    }
}

impl core::str::FromStr for Language {
    type Err = &'static str;

    /// The command-line form of `parse`, with the fixed failure message.
    fn from_str(s: &str) -> Result<Language, &'static str> {
        match Language::parse(s) {
            Some(lang) => Ok(lang),
            None => Err("Could not parse Language"),
        }
    }
}

} // verus!
