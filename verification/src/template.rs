//! The fixed dropper templates, one per output dialect. Each contains
//! exactly one occurrence of the three placeholder tokens; after
//! substitution the text stands alone in its dialect, decodes the payload
//! to a file and runs it.

use vstd::prelude::*;

use crate::lang::Language;

verus! {

/// The Rust-dialect template text; its payload is unpadded base64.
pub open spec fn rust_template() -> Seq<char> {
    r#"/* Original source:

{{SOURCE_CODE}}

*/

use std::{env, fs, process};
use std::{os::unix::fs::PermissionsExt};

const PAYLOAD: &str = "{{BINARY}}";

fn val(c: u8) -> u32 {
    match c {
        b'A'..=b'Z' => (c - b'A') as u32,
        b'a'..=b'z' => (c - b'a') as u32 + 26,
        b'0'..=b'9' => (c - b'0') as u32 + 52,
        b'+' => 62,
        b'/' => 63,
        _ => panic!("bad payload"),
    }
}

fn main() {
    let mut bytes = Vec::new();
    let mut acc: u32 = 0;
    let mut nbits: u32 = 0;
    for &c in PAYLOAD.as_bytes() {
        acc = (acc << 6) | val(c);
        nbits += 6;
        if nbits >= 8 {
            nbits -= 8;
            bytes.push((acc >> nbits) as u8);
        }
    }
    let path = env::temp_dir().join("{{NAME}}");
    fs::write(&path, &bytes).expect("write payload");
    let mut perms = fs::metadata(&path).expect("stat payload").permissions();
    perms.set_mode(0o755);
    fs::set_permissions(&path, perms).expect("mark payload executable");
    let status = process::Command::new(&path)
        .args(env::args().skip(1))
        .status()
        .expect("run payload");
    process::exit(status.code().unwrap_or(1));
}
"#@
}

/// The Python-dialect template text; its payload is padded base64.
pub open spec fn python_template() -> Seq<char> {
    r#"import base64
import os
import stat
import subprocess
import sys
import tempfile

PAYLOAD = "{{BINARY}}"

SOURCE = r"""
{{SOURCE_CODE}}
"""

def main():
    path = os.path.join(tempfile.gettempdir(), "{{NAME}}")
    with open(path, "wb") as out:
        out.write(base64.b64decode(PAYLOAD))
    os.chmod(path, os.stat(path).st_mode | stat.S_IEXEC)
    raise SystemExit(subprocess.call([path] + sys.argv[1:]))

main()
"#@
}

/// The template text for a dialect.
pub open spec fn template_text(lang: Language) -> Seq<char> {
    match lang {
        Language::Rust => rust_template(),
        Language::Python => python_template(),
    }
}

/// The fixed template for a dialect.
pub fn template_for(lang: Language) -> (r: &'static str)
    ensures
        r@ == template_text(lang),
{
    match lang {
        Language::Rust => r#"/* Original source:

{{SOURCE_CODE}}

*/

use std::{env, fs, process};
use std::{os::unix::fs::PermissionsExt};

const PAYLOAD: &str = "{{BINARY}}";

fn val(c: u8) -> u32 {
    match c {
        b'A'..=b'Z' => (c - b'A') as u32,
        b'a'..=b'z' => (c - b'a') as u32 + 26,
        b'0'..=b'9' => (c - b'0') as u32 + 52,
        b'+' => 62,
        b'/' => 63,
        _ => panic!("bad payload"),
    }
}

fn main() {
    let mut bytes = Vec::new();
    let mut acc: u32 = 0;
    let mut nbits: u32 = 0;
    for &c in PAYLOAD.as_bytes() {
        acc = (acc << 6) | val(c);
        nbits += 6;
        if nbits >= 8 {
            nbits -= 8;
            bytes.push((acc >> nbits) as u8);
        }
    }
    let path = env::temp_dir().join("{{NAME}}");
    fs::write(&path, &bytes).expect("write payload");
    let mut perms = fs::metadata(&path).expect("stat payload").permissions();
    perms.set_mode(0o755);
    fs::set_permissions(&path, perms).expect("mark payload executable");
    let status = process::Command::new(&path)
        .args(env::args().skip(1))
        .status()
        .expect("run payload");
    process::exit(status.code().unwrap_or(1));
}
"#,
        Language::Python => r#"import base64
import os
import stat
import subprocess
import sys
import tempfile

PAYLOAD = "{{BINARY}}"

SOURCE = r"""
{{SOURCE_CODE}}
"""

def main():
    path = os.path.join(tempfile.gettempdir(), "{{NAME}}")
    with open(path, "wb") as out:
        out.write(base64.b64decode(PAYLOAD))
    os.chmod(path, os.stat(path).st_mode | stat.S_IEXEC)
    raise SystemExit(subprocess.call([path] + sys.argv[1:]))

main()
"#,
    }
}

} // verus!
