//! Reading strings out of TOML documents.
//!
//! Parsing is left to the `toml` crate. What this crate reads of a parsed
//! value is its strings, each found under a path of table keys; that is the
//! model the contracts here are stated over. The four functions marked
//! `external_body` are trusted: their contracts describe `toml` and are not
//! proved. [`string_at`] is proved against them.

use vstd::prelude::*;
use vstd::string::*;
use vstd::utf8::{decode_utf8, valid_utf8};
use crate::text::texts;

verus! {

/// `toml::Value`, a parsed TOML value. Nothing is known of what is inside
/// but through [`toml_strings`].
#[verifier::external_type_specification]
#[verifier::external_body]
pub struct ExValue(toml::Value);

/// `toml::de::Error`, why a text is no TOML document. It is carried, never
/// looked into.
#[verifier::external_type_specification]
#[verifier::external_body]
pub struct ExError(toml::de::Error);

/// A path of table keys, outermost first.
pub type KeyPath = Seq<Seq<char>>;

/// The strings a TOML value holds, each under the path of table keys that
/// leads to it from the value. A value that is itself a string holds it under
/// the empty path; a table holds under `[k] + p` what its entry `k` holds
/// under `p`; every other value holds nothing.
pub uninterp spec fn toml_strings(value: toml::Value) -> Map<KeyPath, Seq<char>>;

/// What `toml::from_str` makes of a text: `None` where the text is no TOML
/// document, else the strings of the table it parses to.
pub uninterp spec fn toml_document(text: Seq<char>) -> Option<Map<KeyPath, Seq<char>>>;

/// The part of `strings` found under the key `key`, with paths taken from
/// there.
pub open spec fn below(strings: Map<KeyPath, Seq<char>>, key: Seq<char>) -> Map<
    KeyPath,
    Seq<char>,
> {
    Map::new(
        |path: KeyPath| strings.contains_key(seq![key] + path),
        |path: KeyPath| strings[seq![key] + path],
    )
}

/// The part of `strings` found under the path `prefix`.
pub open spec fn under(strings: Map<KeyPath, Seq<char>>, prefix: KeyPath) -> Map<
    KeyPath,
    Seq<char>,
> {
    Map::new(
        |path: KeyPath| strings.contains_key(prefix + path),
        |path: KeyPath| strings[prefix + path],
    )
}

/// What a document given as bytes parses to: nothing unless the bytes are
/// UTF-8, and then what the text they encode parses to.
pub open spec fn toml_document_of_bytes(bytes: Seq<u8>) -> Option<Map<KeyPath, Seq<char>>> {
    if valid_utf8(bytes) {
        toml_document(decode_utf8(bytes))
    } else {
        None
    }
}

/// The string a parsed document holds under `path`, if it holds one there.
pub open spec fn string_in(document: Option<Map<KeyPath, Seq<char>>>, path: KeyPath) -> Option<
    Seq<char>,
> {
    match document {
        Some(strings) => if strings.contains_key(path) {
            Some(strings[path])
        } else {
            None
        },
        None => None,
    }
}

/// `toml::from_str`, asked for a `toml::Value`. The contract names the
/// outcome: an error exactly where [`toml_document`] is `None`, else a value
/// that holds the strings [`toml_document`] gives.
#[verifier::external_body]
pub(crate) fn parse_str(text: &str) -> (parsed: Result<toml::Value, toml::de::Error>)
    ensures
        match parsed {
            Ok(value) => toml_document(text@) == Some(toml_strings(value)),
            Err(_) => toml_document(text@) is None,
        },
{
    toml::from_str::<toml::Value>(text)
}

/// `toml::from_slice`, asked for a `toml::Value`. It decodes the bytes as
/// UTF-8 and parses the text as `toml::from_str` does; bytes that are not
/// UTF-8 are an error.
#[verifier::external_body]
pub(crate) fn parse_slice(bytes: &[u8]) -> (parsed: Result<toml::Value, toml::de::Error>)
    ensures
        match parsed {
            Ok(value) => toml_document_of_bytes(bytes@) == Some(toml_strings(value)),
            Err(_) => toml_document_of_bytes(bytes@) is None,
        },
{
    toml::from_slice::<toml::Value>(bytes)
}

/// `toml::Value::get` with a string index: the entry `key` of a table, and
/// `None` for a table without that key and for a value that is no table.
/// The entry holds what the value holds below `key`; where there is no entry
/// the value holds nothing there.
#[verifier::external_body]
pub(crate) fn member<'a>(value: &'a toml::Value, key: &str) -> (entry: Option<&'a toml::Value>)
    ensures
        match entry {
            Some(entry) => toml_strings(*entry) == below(toml_strings(*value), key@),
            None => below(toml_strings(*value), key@) == Map::<KeyPath, Seq<char>>::empty(),
        },
{
    value.get(key)
}

/// `toml::Value::as_str`: the string of a string value, `None` for any other
/// value. A string value holds its string under the empty path, and no other
/// value holds anything there.
#[verifier::external_body]
pub(crate) fn as_string<'a>(value: &'a toml::Value) -> (string: Option<&'a str>)
    ensures
        match string {
            Some(string) => toml_strings(*value).contains_key(Seq::empty()) && toml_strings(
                *value,
            )[Seq::empty()] == string@,
            None => !toml_strings(*value).contains_key(Seq::empty()),
        },
{
    value.as_str()
}

/// Walks `path` down from `value`, table by table, and gives the string found
/// at its end: `None` where a key is missing, where a value on the way is no
/// table, or where the value at the end is no string.
pub fn string_at(value: &toml::Value, path: &Vec<String>) -> (found: Option<String>)
    ensures
        match found {
            Some(string) => toml_strings(*value).contains_key(texts(path@)) && toml_strings(
                *value,
            )[texts(path@)] == string@,
            None => !toml_strings(*value).contains_key(texts(path@)),
        },
{
    let ghost strings = toml_strings(*value);
    let ghost keys = texts(path@);
    let mut current: &toml::Value = value;
    let mut i: usize = 0;
    proof {
        assert(keys.take(0) + Seq::<Seq<char>>::empty() == Seq::<Seq<char>>::empty());
        assert forall|rest: KeyPath| #[trigger] (keys.take(0) + rest) == rest by {}
        assert(toml_strings(*current) == under(strings, keys.take(0)));
    }
    while i < path.len()
        invariant
            i <= path.len(),
            strings == toml_strings(*value),
            keys == texts(path@),
            toml_strings(*current) == under(strings, keys.take(i as int)),
        decreases path.len() - i,
    {
        let ghost prefix = keys.take(i as int);
        let ghost key = keys[i as int];
        proof {
            assert(keys.take(i + 1) == prefix.push(key));
            assert forall|rest: KeyPath| #[trigger] (prefix.push(key) + rest) == prefix + (seq![key]
                + rest) by {}
            assert(below(under(strings, prefix), key) == under(strings, prefix.push(key)));
        }
        match member(current, path[i].as_str()) {
            Some(entry) => {
                current = entry;
            },
            None => {
                proof {
                    let rest = keys.skip(i + 1);
                    assert(prefix.push(key) + rest == keys);
                    assert(!under(strings, prefix.push(key)).contains_key(rest));
                }
                return None;
            },
        }
        i = i + 1;
    }
    proof {
        assert(keys.take(i as int) == keys);
        assert(keys + Seq::<Seq<char>>::empty() == keys);
    }
    match as_string(current) {
        Some(string) => Some(string.to_owned()),
        None => None,
    }
}

} // verus!
