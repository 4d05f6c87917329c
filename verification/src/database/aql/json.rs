//! What the queries take from `serde_json` and `arangors`.

use vstd::prelude::*;
use vstd::string::StringExecFns;

verus! {

/// How an insertion treats a document whose key exists already.
#[derive(Clone, Copy, Debug, PartialEq, Eq, Structural)]
pub enum OverwriteMode {
    Ignore,
    Replace,
    Update,
    Conflict,
}

/// The JSON text of an overwrite mode: its name in camel case, quoted.
pub open spec fn overwrite_mode_text(mode: OverwriteMode) -> Seq<char> {
    match mode {
        OverwriteMode::Ignore => "\"ignore\""@,
        OverwriteMode::Replace => "\"replace\""@,
        OverwriteMode::Update => "\"update\""@,
        OverwriteMode::Conflict => "\"conflict\""@,
    }
}

/// Calls `serde_json::to_string` on the matching `arangors` overwrite mode,
/// whose serde derive renames the variants to camel case. The contract
/// claims the result is that name in double quotes.
#[verifier::external_body]
pub(crate) fn overwrite_mode_json(mode: OverwriteMode) -> (s: String)
    ensures
        s@ == overwrite_mode_text(mode),
{
    let mode = match mode {
        OverwriteMode::Ignore => arangors::document::options::OverwriteMode::Ignore,
        OverwriteMode::Replace => arangors::document::options::OverwriteMode::Replace,
        OverwriteMode::Update => arangors::document::options::OverwriteMode::Update,
        OverwriteMode::Conflict => arangors::document::options::OverwriteMode::Conflict,
    };
    serde_json::to_string(&mode).unwrap()
}

/// A JSON value of `serde_json`, carried through the builder unread.
#[verifier::external_type_specification]
#[verifier::external_body]
pub struct ExJsonValue(serde_json::Value);

/// The compact JSON text that `serde_json::to_string` gives for an array of values.
pub uninterp spec fn json_array_text(items: Seq<serde_json::Value>) -> Seq<char>;

/// Calls `serde_json::to_string` on a list of JSON values, which cannot fail
/// since a `Value` only holds maps with string keys. The contract names the
/// result: the text depends on the values alone.
#[verifier::external_body]
pub(crate) fn json_array_to_string(items: &Vec<serde_json::Value>) -> (s: String)
    ensures
        s@ == json_array_text(items@),
{
    serde_json::to_string(items).unwrap()
}

/// A lower-case hexadecimal digit.
pub open spec fn hex_digit(d: int) -> char {
    if d < 10 { crate::text::digit_char(d as nat) }
    else if d == 10 { 'a' }
    else if d == 11 { 'b' }
    else if d == 12 { 'c' }
    else if d == 13 { 'd' }
    else if d == 14 { 'e' }
    else { 'f' }
}

/// How a JSON string writes one character: `"` and `\` after a backslash,
/// the control characters with a short escape (`\b`, `\t`, `\n`, `\f`,
/// `\r`) or as `\u00XX` in lower-case hexadecimal, and every other
/// character as it is.
pub open spec fn json_char_text(c: char) -> Seq<char> {
    if c == '"' {
        seq!['\\', '"']
    } else if c == '\\' {
        seq!['\\', '\\']
    } else if c == '\u{8}' {
        seq!['\\', 'b']
    } else if c == '\t' {
        seq!['\\', 't']
    } else if c == '\n' {
        seq!['\\', 'n']
    } else if c == '\u{c}' {
        seq!['\\', 'f']
    } else if c == '\r' {
        seq!['\\', 'r']
    } else if (c as int) < 0x20 {
        seq!['\\', 'u', '0', '0', hex_digit((c as int) / 16), hex_digit((c as int) % 16)]
    } else {
        seq![c]
    }
}

/// The characters of a string as a JSON string writes them.
pub open spec fn json_escaped_text(s: Seq<char>) -> Seq<char>
    decreases s.len(),
{
    if s.len() == 0 {
        Seq::empty()
    } else {
        json_escaped_text(s.drop_last()) + json_char_text(s.last())
    }
}

/// The JSON text of a string: the string between double quotes, each
/// character written as `json_char_text` says.
pub open spec fn json_string_text(s: Seq<char>) -> Seq<char> {
    seq!['"'] + json_escaped_text(s) + seq!['"']
}

/// Calls `serde_json::to_string` on a string, which cannot fail. The
/// contract claims the escaping of `serde_json`'s string writer: quotes
/// around, `"` and `\` escaped, control characters escaped (short forms or
/// `\u00XX` in lower case), every other character as it is.
#[verifier::external_body]
pub(crate) fn json_string(s: &str) -> (r: String)
    ensures
        r@ == json_string_text(s@),
{
    serde_json::to_string(s).unwrap()
}

/// The JSON texts of strings, separated by commas.
pub open spec fn json_strings_joined(items: Seq<Seq<char>>) -> Seq<char>
    decreases items.len(),
{
    if items.len() == 0 {
        Seq::empty()
    } else if items.len() == 1 {
        json_string_text(items[0])
    } else {
        json_strings_joined(items.drop_last()) + seq![','] + json_string_text(items.last())
    }
}

/// The compact JSON text of an array of strings: `["a","b"]`.
pub open spec fn json_string_array_text(items: Seq<Seq<char>>) -> Seq<char> {
    seq!['['] + json_strings_joined(items) + seq![']']
}

/// The compact JSON text of an array of strings.
pub fn json_string_array(items: &Vec<String>) -> (r: String)
    ensures
        r@ == json_string_array_text(items@.map_values(|k: String| k@)),
{
    let ghost views = items@.map_values(|k: String| k@);
    proof {
        reveal_strlit("[");
        reveal_strlit("]");
        reveal_strlit(",");
    }
    let mut r = String::from_str("[");
    let mut i: usize = 0;
    while i < items.len()
        invariant
            0 <= i <= items@.len(),
            views == items@.map_values(|k: String| k@),
            r@ == seq!['['] + json_strings_joined(views.take(i as int)),
        decreases items@.len() - i,
    {
        proof {
            assert(views.take(i as int + 1).drop_last() =~= views.take(i as int));
            assert(views.take(i as int + 1).last() == items@[i as int]@);
            if i == 0 {
                assert(views.take(1) =~= seq![items@[0]@]);
            }
        }
        if i > 0 {
            r.append(",");
        }
        let text = json_string(items[i].as_str());
        r.append(text.as_str());
        proof {
            reveal_strlit(",");
            assert(","@ =~= seq![',']);
            let next = views.take(i as int + 1);
            if i == 0 {
                assert(json_strings_joined(next) == json_string_text(items@[0]@));
            } else {
                assert(json_strings_joined(next) == json_strings_joined(views.take(i as int)) + seq![',']
                    + json_string_text(items@[i as int]@));
            }
            assert(r@ =~= seq!['['] + json_strings_joined(next));
        }
        i = i + 1;
    }
    proof {
        assert(views.take(i as int) =~= views);
    }
    r.append("]");
    r
}

} // verus!
