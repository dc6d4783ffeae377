//! Manifest assembly decisions: the generator tag, the base directory, where
//! ingredients and the parent come from, how the manifest is embedded, and
//! which signer signs it.
use vstd::prelude::*;
use crate::path::{extension_of, is_absolute, is_absolute_spec, joined, path_extension, path_join, push_char};

verus! {

/// The generator prefix of the provenance library's own default.
pub open spec fn reserved_prefix() -> Seq<char> {
    seq!['c', '2', 'p', 'a', '/']
}

pub open spec fn starts_with_spec(s: Seq<char>, prefix: Seq<char>) -> bool {
    prefix.len() <= s.len() && s.subrange(0, prefix.len() as int) == prefix
}

/// The tool's identity tag, `name/version`.
pub open spec fn tool_tag_spec(name: Seq<char>, version: Seq<char>) -> Seq<char> {
    name.push('/') + version
}

/// The generator after this tool has tagged it: a default generator is replaced
/// by the tag, any other gets the tag appended after a space.
pub open spec fn tagged_generator(generator: Seq<char>, tag: Seq<char>) -> Seq<char> {
    if starts_with_spec(generator, reserved_prefix()) {
        tag
    } else {
        generator.push(' ') + tag
    }
}

/// Builds the tag `name/version`.
pub fn tool_tag(name: &str, version: &str) -> (r: String)
    ensures
        r@ == tool_tag_spec(name@, version@),
{
    let mut r = String::from_str(name);
    push_char(&mut r, '/');
    r.append(version);
    r
}

/// Tags `generator` with the tool's tag.
pub fn tag_generator(generator: &str, tag: &str) -> (r: String)
    ensures
        r@ == tagged_generator(generator@, tag@),
{
    let mut prefix = String::new();
    push_char(&mut prefix, 'c');
    push_char(&mut prefix, '2');
    push_char(&mut prefix, 'p');
    push_char(&mut prefix, 'a');
    push_char(&mut prefix, '/');
    assert(prefix@ == reserved_prefix());
    if crate::path::starts_with(generator, prefix.as_str()) {
        String::from_str(tag)
    } else {
        let mut r = String::from_str(generator);
        push_char(&mut r, ' ');
        r.append(tag);
        r
    }
}

/// Where an ingredient given by path is read from: relative paths are taken
/// from the base directory.
pub open spec fn ingredient_path_spec(base: Seq<char>, path: Seq<char>) -> Seq<char> {
    if is_absolute_spec(path) {
        path
    } else {
        joined(base, path)
    }
}

/// Resolves an ingredient path against the base directory.
pub fn ingredient_path(base: &str, path: &str) -> (r: String)
    ensures
        r@ == ingredient_path_spec(base@, path@),
{
    if is_absolute(path) {
        String::from_str(path)
    } else {
        path_join(base, path)
    }
}

/// How an ingredient file is read.
#[derive(Debug, Clone, Copy, PartialEq, Eq, Structural)]
pub enum IngredientFormat {
    /// A JSON ingredient description, whose resources are relative to its directory.
    Description,
    /// An asset, inspected directly.
    Asset,
}

pub open spec fn json_ext() -> Seq<char> {
    seq!['j', 's', 'o', 'n']
}

/// Files with the extension `json` are descriptions; all others are assets.
pub fn ingredient_format(path: &str) -> (r: IngredientFormat)
    ensures
        r == (if extension_of(path@) == Some(json_ext()) {
            IngredientFormat::Description
        } else {
            IngredientFormat::Asset
        }),
{
    let mut json = String::new();
    push_char(&mut json, 'j');
    push_char(&mut json, 's');
    push_char(&mut json, 'o');
    push_char(&mut json, 'n');
    assert(json@ == json_ext());
    match path_extension(path) {
        Some(e) => {
            if crate::path::same_chars(e.as_str(), json.as_str()) {
                IngredientFormat::Description
            } else {
                IngredientFormat::Asset
            }
        },
        None => IngredientFormat::Asset,
    }
}

/// Relies on `serde_json::Value::to_string`: a JSON boolean renders as `true` or `false`.
#[verifier::external_body]
fn json_bool(b: bool) -> (r: String)
    ensures
        r@ == (if b { seq!['t', 'r', 'u', 'e'] } else { seq!['f', 'a', 'l', 's', 'e'] }),
{
    serde_json::Value::Bool(b).to_string()
}

/// The settings document that turns checking after signing on or off.
pub open spec fn verify_settings_spec(verify: bool) -> Seq<char> {
    "{\"verify\": { \"verify_after_sign\": "@
        + (if verify { seq!['t', 'r', 'u', 'e'] } else { seq!['f', 'a', 'l', 's', 'e'] })
        + " } }"@
}

/// Builds the settings document for the provenance library.
pub fn verify_settings(verify: bool) -> (r: String)
    ensures
        r@ == verify_settings_spec(verify),
{
    let value = json_bool(verify);
    let r = String::from_str("{\"verify\": { \"verify_after_sign\": ");
    let r = r.concat(value.as_str());
    r.concat(" } }")
}

} // verus!
