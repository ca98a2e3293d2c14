//! The calls this library makes into other crates, and into parts of the
//! standard library whose behaviour Verus does not know. What is stated of
//! each call here is taken on trust from its documentation and source.

use crate::convert::npf::content_blocks::BlockValue;
use itertools::Itertools;
use std::collections::HashMap;
use vstd::prelude::*;
use vstd::utf8::{decode_utf8, valid_utf8};

verus! {

/// The error `url::Url::parse` gives for a string that is no absolute URL.
#[verifier::external_type_specification]
#[verifier::external_body]
pub struct ExUrlParseError(url::ParseError);

/// The serialisation of the URL that `url::Url::parse` builds from `input`,
/// or `None` where it rejects `input`.
pub uninterp spec fn parsed_url(input: Seq<char>) -> Option<Seq<char>>;

/// Calls `url::Url::parse` and hands back the serialisation of the URL it
/// built. Parsing reads nothing but its argument, so the outcome is
/// `parsed_url` of the input: a serialisation on success, nothing on failure.
#[verifier::external_body]
pub(crate) fn parse_url(input: &str) -> (r: Result<String, url::ParseError>)
    ensures
        r matches Ok(s) ==> parsed_url(input@) == Some(s@),
        r is Err ==> parsed_url(input@) is None,
{
    url::Url::parse(input).map(String::from)
}

/// Calls `mime_guess::from_path` and hands back the first media type it
/// guessed from the extension of `path`, if any. Where the extension starts
/// depends on the platform's path syntax, so nothing is stated of the result.
#[verifier::external_body]
pub(crate) fn guess_mime(path: &str) -> Option<String> {
    mime_guess::from_path(path).first().map(|m| m.to_string())
}

/// Calls `std::path::Path::file_name` on `path` and hands back the final
/// component as text, if there is one and it is valid Unicode. What counts as
/// a separator depends on the platform, so nothing is stated of the result.
#[verifier::external_body]
pub(crate) fn file_name(path: &str) -> Option<String> {
    std::path::Path::new(path).file_name().and_then(|n| n.to_str()).map(String::from)
}

/// Whether `text` ends with `suffix`.
pub open spec fn ends_with(text: Seq<char>, suffix: Seq<char>) -> bool {
    suffix.len() <= text.len() && text.subrange(text.len() - suffix.len(), text.len() as int)
        == suffix
}

/// Calls `str::strip_suffix`: where `text` ends with `suffix` the result is
/// the part of `text` before it, otherwise there is none.
#[verifier::external_body]
pub(crate) fn strip_suffix<'a>(text: &'a str, suffix: &str) -> (r: Option<&'a str>)
    ensures
        r matches Some(s) ==> ends_with(text@, suffix@) && s@ + suffix@ == text@,
        r is None ==> !ends_with(text@, suffix@),
{
    text.strip_suffix(suffix)
}

/// A JSON value of any shape, as `serde_json` holds it.
#[verifier::external_type_specification]
#[verifier::external_body]
pub struct ExJsonValue(serde_json::Value);

/// The decimal digit that stands for `d`, for `d` below ten.
pub open spec fn digit(d: nat) -> char {
    "0123456789"@[d as int]
}

/// The number `n` written in decimal digits, with no sign and no leading
/// zero.
pub open spec fn decimal(n: nat) -> Seq<char>
    decreases n,
{
    if n < 10 {
        seq![digit(n)]
    } else {
        decimal(n / 10).push(digit(n % 10))
    }
}

/// The number that the decimal digits `digits` stand for; a character that
/// is no digit counts as zero.
pub open spec fn digits_value(digits: Seq<char>) -> nat
    decreases digits.len(),
{
    if digits.len() == 0 {
        0
    } else {
        let last = digits.last() as int - '0' as int;
        digits_value(digits.drop_last()) * 10 + if 0 <= last <= 9 {
            last as nat
        } else {
            0
        }
    }
}

/// Whether `digits` is one decimal digit or more, and nothing else.
pub open spec fn all_digits(digits: Seq<char>) -> bool {
    digits.len() > 0 && forall|i: int|
        0 <= i < digits.len() ==> '0' as int <= (#[trigger] digits[i]) as int <= '9' as int
}

/// The number that `text` stands for as a `u64`: decimal digits, with `+`
/// before them or without, that stand for a number within the type's range.
pub open spec fn decimal_u64(text: Seq<char>) -> Option<u64> {
    let digits = if text.len() > 0 && text[0] == '+' {
        text.drop_first()
    } else {
        text
    };
    if all_digits(digits) && digits_value(digits) <= u64::MAX {
        Some(digits_value(digits) as u64)
    } else {
        None
    }
}

/// Calls `ToString::to_string` on a `u64`, which writes the number in
/// decimal digits.
#[verifier::external_body]
pub(crate) fn u64_to_string(n: u64) -> (r: String)
    ensures
        r@ == decimal(n as nat),
{
    n.to_string()
}

/// Calls `str::parse` for a `u64`, which takes decimal digits, with `+`
/// before them or without, and fails on anything else and on a number out of
/// the type's range.
#[verifier::external_body]
pub(crate) fn parse_u64(text: &str) -> (r: Option<u64>)
    ensures
        r == decimal_u64(text@),
{
    text.parse::<u64>().ok()
}

/// The blocks of all `runs`, in order.
pub open spec fn flattened(runs: Seq<(bool, Vec<BlockValue>)>) -> Seq<BlockValue>
    decreases runs.len(),
{
    if runs.len() == 0 {
        Seq::empty()
    } else {
        flattened(runs.drop_last()) + runs.last().1@
    }
}

/// Whether `run` holds one block or more, and its flag says of each of them
/// whether it is a text block.
pub open spec fn is_run(run: (bool, Vec<BlockValue>)) -> bool {
    run.1@.len() > 0 && forall|j: int|
        0 <= j < run.1@.len() ==> ((#[trigger] run.1@[j]) is Text) == run.0
}

/// Calls `Itertools::group_by` on the blocks of `content`, with the key
/// "is a text block", and collects each group with its key. The groups are
/// the runs of consecutive blocks with the same key: together they hold the
/// blocks of `content` in their order, none is empty, the blocks of a group
/// have the group's key, and two groups that follow each other differ in it.
#[verifier::external_body]
pub(crate) fn runs_by_kind(content: Vec<BlockValue>) -> (runs: Vec<(bool, Vec<BlockValue>)>)
    ensures
        flattened(runs@) == content@,
        forall|i: int| 0 <= i < runs@.len() ==> is_run(#[trigger] runs@[i]),
        forall|i: int| 0 < i < runs@.len() ==> runs@[i - 1].0 != (#[trigger] runs@[i]).0,
{
    let groups = content.into_iter().group_by(|c| c.is_text());
    groups.into_iter().map(|(key, group)| (key, group.collect())).collect()
}

/// Whether `text` starts with `prefix`.
pub open spec fn starts_with(text: Seq<char>, prefix: Seq<char>) -> bool {
    prefix.len() <= text.len() && text.subrange(0, prefix.len() as int) == prefix
}

/// Calls `str::strip_prefix`: where `text` starts with `prefix` the result is
/// the part of `text` after it, otherwise there is none.
#[verifier::external_body]
pub(crate) fn strip_prefix<'a>(text: &'a str, prefix: &str) -> (r: Option<&'a str>)
    ensures
        r matches Some(s) ==> starts_with(text@, prefix@) && prefix@ + s@ == text@,
        r is None ==> !starts_with(text@, prefix@),
{
    text.strip_prefix(prefix)
}

/// Whether `char::is_whitespace` holds of `c`: whether Unicode counts the
/// character as white space.
pub uninterp spec fn is_whitespace(c: char) -> bool;

/// `text` without the white space at its start.
pub open spec fn trimmed_start(text: Seq<char>) -> Seq<char>
    decreases text.len(),
{
    if text.len() > 0 && is_whitespace(text[0]) {
        trimmed_start(text.drop_first())
    } else {
        text
    }
}

/// `text` without the white space at its end.
pub open spec fn trimmed_end(text: Seq<char>) -> Seq<char>
    decreases text.len(),
{
    if text.len() > 0 && is_whitespace(text.last()) {
        trimmed_end(text.drop_last())
    } else {
        text
    }
}

/// `text` without the white space at its start and at its end.
pub open spec fn trimmed(text: Seq<char>) -> Seq<char> {
    trimmed_end(trimmed_start(text))
}

/// Calls `str::trim`, which removes the white space at the start and at the
/// end of `text`, white space being what `char::is_whitespace` accepts.
#[verifier::external_body]
pub(crate) fn trim(text: &str) -> (r: &str)
    ensures
        r@ == trimmed(text@),
        r@.len() > 0 ==> !is_whitespace(r@.first()) && !is_whitespace(r@.last()),
{
    text.trim()
}

/// A YAML value of any shape, as `serde_yaml` holds it.
#[verifier::external_type_specification]
#[verifier::external_body]
pub struct ExYamlValue(serde_yaml::Value);

/// The error `serde_yaml` gives for text that it cannot read, or for a value
/// that it cannot write.
#[verifier::external_type_specification]
#[verifier::external_body]
pub struct ExYamlError(serde_yaml::Error);

/// Whether no two of `entries` have the same key.
pub open spec fn distinct_keys(entries: Seq<(String, serde_yaml::Value)>) -> bool {
    forall|i: int, j: int|
        0 <= i < j < entries.len() ==> (#[trigger] entries[i]).0@ != (#[trigger] entries[j]).0@
}

/// Calls `serde_yaml::from_str` for a map from strings to values and hands
/// back the entries of the map, in the order in which the map gives them. A
/// map holds a key once, so no two entries have the same key.
#[verifier::external_body]
pub(crate) fn yaml_entries(text: &str) -> (r: Result<
    Vec<(String, serde_yaml::Value)>,
    serde_yaml::Error,
>)
    ensures
        r matches Ok(entries) ==> distinct_keys(entries@),
{
    serde_yaml::from_str::<HashMap<String, serde_yaml::Value>>(text).map(
        |map| map.into_iter().collect(),
    )
}

/// Calls `serde_yaml::to_string` on the map that holds `entries`. The order
/// in which a map gives its entries is not fixed, so nothing is stated of
/// the text.
#[verifier::external_body]
pub(crate) fn yaml_text(entries: &Vec<(String, serde_yaml::Value)>) -> Result<
    String,
    serde_yaml::Error,
> {
    let map: HashMap<String, serde_yaml::Value> = entries.iter().cloned().collect();
    serde_yaml::to_string(&map)
}

/// The text that `serde_json::to_string` writes for a list of strings.
pub uninterp spec fn json_of(list: Seq<Seq<char>>) -> Seq<char>;

/// The text that `serde_json::to_string_pretty` writes for a list of
/// strings.
pub uninterp spec fn pretty_json_of(list: Seq<Seq<char>>) -> Seq<char>;

/// Calls `serde_json::to_string` on `list`. What it writes depends on the
/// strings alone. Where it fails, the result is the line and the column that
/// the error names.
#[verifier::external_body]
pub(crate) fn json_text(list: &Vec<String>) -> (r: Result<String, (usize, usize)>)
    ensures
        r matches Ok(text) ==> text@ == json_of(list.deep_view()),
{
    serde_json::to_string(list).map_err(|e| (e.line(), e.column()))
}

/// Calls `serde_json::to_string_pretty` on `list`. What it writes depends on
/// the strings alone. Where it fails, the result is the line and the column
/// that the error names.
#[verifier::external_body]
pub(crate) fn pretty_json_text(list: &Vec<String>) -> (r: Result<String, (usize, usize)>)
    ensures
        r matches Ok(text) ==> text@ == pretty_json_of(list.deep_view()),
{
    serde_json::to_string_pretty(list).map_err(|e| (e.line(), e.column()))
}

/// Writes `list` as `Debug` writes a list of strings over several lines, by
/// the formatting of the standard library.
#[verifier::external_body]
pub(crate) fn debug_text(list: &Vec<String>) -> String {
    format!("{:#?}", list)
}

/// Calls `String::from_utf8`: bytes that are UTF-8 give the text they
/// encode. Where they are not, the result is the error as `Debug` writes it
/// over several lines.
#[verifier::external_body]
pub(crate) fn utf8_text(bytes: Vec<u8>) -> (r: Result<String, String>)
    ensures
        r matches Ok(text) ==> valid_utf8(bytes@) && text@ == decode_utf8(bytes@),
        r is Err ==> !valid_utf8(bytes@),
{
    String::from_utf8(bytes).map_err(|e| format!("{e:#?}"))
}

} // verus!
