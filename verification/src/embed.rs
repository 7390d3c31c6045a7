//! The embedder: turns artifact bytes, a compilation triple and (when
//! readable) the original source text into the final generated source file,
//! by substituting each of three placeholder tokens exactly once into a
//! dialect template, in a fixed order: payload, then name, then source.

use vstd::prelude::*;

use crate::encode::{base64_of, encode_payload, payload_file_name, payload_name_of, uses_padding};
use crate::lang::Language;
use crate::template::{template_for, template_text};
use crate::text::{replace_first, replaced, trim_end_ws, trimmed_end};

verus! {

/// The placeholder token the encoded payload replaces.
pub open spec fn token_binary() -> Seq<char> {
    "{{BINARY}}"@
}

/// The placeholder token the derived file name replaces.
pub open spec fn token_name() -> Seq<char> {
    "{{NAME}}"@
}

/// The placeholder token the original source text replaces.
pub open spec fn token_source() -> Seq<char> {
    "{{SOURCE_CODE}}"@
}

/// The literal inserted in place of the original source text when that text
/// cannot be read.
pub open spec fn source_fallback() -> Seq<char> {
    "SOURCE CODE NOT FOUND"@
}

/// The source text as inserted: trimmed of trailing whitespace, with the
/// fixed fallback standing in when no source text could be read.
pub open spec fn source_text_of(source: Option<Seq<char>>) -> Seq<char> {
    match source {
        Some(s) => trimmed_end(s),
        None => trimmed_end(source_fallback()),
    }
}

/// The template after exactly-once substitution of the three placeholder
/// tokens, in the fixed order payload, name, source.
pub open spec fn substituted(
    template: Seq<char>,
    payload: Seq<char>,
    name: Seq<char>,
    source: Seq<char>,
) -> Seq<char> {
    replaced(
        replaced(replaced(template, token_binary(), payload), token_name(), name),
        token_source(),
        source,
    )
}

/// Replaces the first occurrence of each placeholder token in `template`:
/// `{{BINARY}}` by `payload`, then `{{NAME}}` by `name`, then
/// `{{SOURCE_CODE}}` by `source`. Each token is replaced at most once, so a
/// literal look-alike of a token inside the inserted text stays as it is.
pub fn substitute(template: &str, payload: &str, name: &str, source: &str) -> (r: String)
    ensures
        r@ == substituted(template@, payload@, name@, source@),
{
    let with_payload = replace_first(template, "{{BINARY}}", payload);
    let with_name = replace_first(with_payload.as_str(), "{{NAME}}", name);
    replace_first(with_name.as_str(), "{{SOURCE_CODE}}", source)
}

/// The view of an optional borrowed source text.
pub open spec fn source_view(source: Option<&str>) -> Option<Seq<char>> {
    match source {
        Some(s) => Some(s@),
        None => None,
    }
}

/// The embedder's full output for a template, artifact bytes, triple,
/// optional source text and dialect.
pub open spec fn embedded_source(
    template: Seq<char>,
    bin: Seq<u8>,
    triple: Seq<char>,
    source: Option<Seq<char>>,
    lang: Language,
) -> Seq<char> {
    substituted(
        template,
        base64_of(uses_padding(lang), bin),
        payload_name_of(bin, triple),
        source_text_of(source),
    )
}

/// Produces the final generated source text: the dialect's base64 payload,
/// the derived payload file name and the (trimmed) original source text
/// substituted into the template, each exactly once. A missing source text
/// degrades gracefully: the fixed fallback literal is inserted instead, and
/// the call still succeeds.
pub fn embed(
    template: &str,
    bin: &Vec<u8>,
    triple: &str,
    source: Option<&str>,
    lang: Language,
) -> (r: String)
    requires
        bin@.len() <= usize::MAX / 512,
    ensures
        r@ == embedded_source(template@, bin@, triple@, source_view(source), lang),
{
    let payload = encode_payload(bin, lang);
    let name = payload_file_name(bin, triple);
    let source_text = match source {
        Some(s) => trim_end_ws(s),
        None => trim_end_ws("SOURCE CODE NOT FOUND"),
    };
    substitute(template, payload.as_str(), name.as_str(), source_text)
}

/// The embedder on the dialect's own fixed template.
pub fn embed_for_dialect(bin: &Vec<u8>, triple: &str, source: Option<&str>, lang: Language) -> (r:
    String)
    requires
        bin@.len() <= usize::MAX / 512,
    ensures
        r@ == embedded_source(template_text(lang), bin@, triple@, source_view(source), lang),
{
    embed(template_for(lang), bin, triple, source, lang)
}

} // verus!
