//! JSON documents, read and written through `serde_json`.

use vstd::prelude::*;
use vstd::string::*;

verus! {

/// What a JSON document holds.
pub enum Json {
    Null,
    Bool(bool),
    /// A number; `Some` where it is an integer in the range of `i64`.
    Number(Option<i64>),
    Str(Seq<char>),
    Array(Seq<Json>),
    Object(Map<Seq<char>, Json>),
}

impl Json {
    /// The entry of an object under `key`.
    pub open spec fn entry(self, key: Seq<char>) -> Option<Json> {
        match self {
            Json::Object(m) if m.contains_key(key) => Some(m[key]),
            _ => None,
        }
    }

    /// The integer that this is.
    pub open spec fn integer(self) -> Option<i64> {
        match self {
            Json::Number(n) => n,
            _ => None,
        }
    }

    /// The text that this is.
    pub open spec fn text(self) -> Option<Seq<char>> {
        match self {
            Json::Str(s) => Some(s),
            _ => None,
        }
    }

    /// The integer in the entry under `key`.
    pub open spec fn integer_at(self, key: Seq<char>) -> Option<i64> {
        match self.entry(key) {
            Some(j) => j.integer(),
            None => None,
        }
    }

    /// The text in the entry under `key`.
    pub open spec fn text_at(self, key: Seq<char>) -> Option<Seq<char>> {
        match self.entry(key) {
            Some(j) => j.text(),
            None => None,
        }
    }

    /// The entry under `inner` of the entry under `outer`.
    pub open spec fn entry_under(self, outer: Seq<char>, inner: Seq<char>) -> Option<Json> {
        match self.entry(outer) {
            Some(j) => j.entry(inner),
            None => None,
        }
    }

    /// The text in the entry under `inner` of the entry under `outer`.
    pub open spec fn text_under(self, outer: Seq<char>, inner: Seq<char>) -> Option<Seq<char>> {
        match self.entry_under(outer, inner) {
            Some(j) => j.text(),
            None => None,
        }
    }
}

/// The JSON pointer `/outer/inner`.
pub open spec fn pointer_text(outer: Seq<char>, inner: Seq<char>) -> Seq<char> {
    seq!['/'] + outer + seq!['/'] + inner
}

/// `token` stands for itself in a JSON pointer and cannot be read as an array index.
pub open spec fn is_plain_token(token: Seq<char>) -> bool {
    &&& !token.contains('/')
    &&& !token.contains('~')
    &&& exists|i: int| 0 <= i < token.len() && !('0' <= #[trigger] token[i] <= '9')
}

/// The object with the single entry `key`, the text `value`.
pub open spec fn text_pair(key: Seq<char>, value: Seq<char>) -> Json {
    Json::Object(Map::<Seq<char>, Json>::empty().insert(key, Json::Str(value)))
}

/// A text that is read as the document `j`.
pub open spec fn document(j: Json) -> Result<Json, Seq<char>> {
    Ok(j)
}

/// A text that is read as a list of names, or as none.
pub open spec fn names(list: Option<Seq<Seq<char>>>) -> Result<Option<Seq<Seq<char>>>, Seq<char>> {
    Ok(list)
}

/// An outcome of reading names, by the texts in it.
pub open spec fn names_view(r: Result<Option<Vec<String>>, String>) -> Result<
    Option<Seq<Seq<char>>>,
    Seq<char>,
> {
    match r {
        Ok(Some(list)) => Ok(Some(list.deep_view())),
        Ok(None) => Ok(None),
        Err(message) => Err(message@),
    }
}

/// A value of `serde_json`; what it holds is known by [`json_of`] alone.
#[verifier::external_type_specification]
#[verifier::external_body]
pub struct ExValue(serde_json::Value);

/// The document that a value of `serde_json` holds.
pub uninterp spec fn json_of(v: serde_json::Value) -> Json;

/// What `serde_json` reads in a text: the document, or the message of its error.
pub uninterp spec fn parsed_text(text: Seq<char>) -> Result<Json, Seq<char>>;

/// What `serde_json` reads in bytes: the document, where they hold one.
pub uninterp spec fn parsed_bytes(bytes: Seq<u8>) -> Option<Json>;

/// The text in which `serde_json` writes an object with one entry, a text.
pub uninterp spec fn pair_text(key: Seq<char>, value: Seq<char>) -> Seq<char>;

/// The text in which `serde_json` writes a list of names.
pub uninterp spec fn names_text(names: Seq<Seq<char>>) -> Seq<char>;

/// What `serde_json` reads in a text as an optional list of names: the list, `None` where the
/// text is a null, or the message of its error.
pub uninterp spec fn parsed_names(text: Seq<char>) -> Result<Option<Seq<Seq<char>>>, Seq<char>>;

/// Reads a document with `serde_json::from_str`. The outcome depends on the text alone.
#[verifier::external_body]
pub(crate) fn parse_text(text: &str) -> (r: Result<serde_json::Value, String>)
    ensures
        match r {
            Ok(v) => parsed_text(text@) == document(json_of(v)),
            Err(message) => parsed_text(text@) == Err::<Json, Seq<char>>(message@),
        },
{
    serde_json::from_str(text).map_err(|e| e.to_string())
}

/// Reads a document with `serde_json::from_slice`. The outcome depends on the bytes alone; the
/// error is not kept.
#[verifier::external_body]
pub(crate) fn parse_bytes(bytes: &[u8]) -> (r: Option<serde_json::Value>)
    ensures
        match r {
            Some(v) => parsed_bytes(bytes@) == Some(json_of(v)),
            None => parsed_bytes(bytes@) is None,
        },
{
    serde_json::from_slice(bytes).ok()
}

/// `serde_json::Value::get` with a string: the entry of an object under that key, `None` where
/// there is no such entry or the value is no object.
#[verifier::external_body]
pub(crate) fn entry<'a>(v: &'a serde_json::Value, key: &str) -> (r: Option<&'a serde_json::Value>)
    ensures
        match r {
            Some(e) => json_of(*v).entry(key@) == Some(json_of(*e)),
            None => json_of(*v).entry(key@) is None,
        },
{
    v.get(key)
}

/// `serde_json::Value::pointer` on a pointer of two tokens that stand for themselves: it follows
/// the first token and then the second through objects. Of other pointers nothing is said here.
#[verifier::external_body]
pub(crate) fn follow<'a>(v: &'a serde_json::Value, pointer: &str) -> (r: Option<
    &'a serde_json::Value,
>)
    ensures
        forall|outer: Seq<char>, inner: Seq<char>|
            is_plain_token(outer) && is_plain_token(inner) && pointer@ == #[trigger] pointer_text(
                outer,
                inner,
            ) ==> match r {
                Some(e) => json_of(*v).entry_under(outer, inner) == Some(json_of(*e)),
                None => json_of(*v).entry_under(outer, inner) is None,
            },
{
    v.pointer(pointer)
}

/// `serde_json::Value::as_i64`: the integer that a number is, where it is one in range.
pub assume_specification[ serde_json::Value::as_i64 ](v: &serde_json::Value) -> (r: Option<i64>)
    ensures
        r == json_of(*v).integer(),
;

/// `serde_json::Value::as_str`: the text of a string.
pub assume_specification[ serde_json::Value::as_str ](v: &serde_json::Value) -> (r: Option<&str>)
    ensures
        match r {
            Some(s) => json_of(*v).text() == Some(s@),
            None => json_of(*v).text() is None,
        },
;

/// Writes an object with one entry, a text, with the `Display` of `serde_json::Value`. What it
/// writes depends on the key and the text alone, and `serde_json::from_str` reads it back.
#[verifier::external_body]
pub(crate) fn write_pair(key: &str, value: &str) -> (r: String)
    ensures
        r@ == pair_text(key@, value@),
        parsed_text(r@) == document(text_pair(key@, value@)),
{
    let value = serde_json::Value::String(value.to_string());
    let object = serde_json::Map::from_iter([(key.to_string(), value)]);
    serde_json::Value::Object(object).to_string()
}

/// Writes a list of names with `serde_json::to_string`, which fails on no list of strings.
#[verifier::external_body]
pub(crate) fn write_names(names: &Vec<String>) -> (r: Result<String, String>)
    ensures
        match r {
            Ok(text) => text@ == names_text(names.deep_view()),
            Err(_) => false,
        },
{
    serde_json::to_string(names).map_err(|e| e.to_string())
}

/// Reads an optional list of names with `serde_json::from_str`. The outcome depends on the text
/// alone; a null gives no list, and what `serde_json::to_string` wrote for a list gives that list.
#[verifier::external_body]
pub(crate) fn parse_names(text: &str) -> (r: Result<Option<Vec<String>>, String>)
    ensures
        names_view(r) == parsed_names(text@),
        text@ == "null"@ ==> names_view(r) == names(None),
        forall|list: Seq<Seq<char>>| #[trigger]
            names_text(list) == text@ ==> names_view(r) == names(Some(list)),
{
    serde_json::from_str(text).map_err(|e| e.to_string())
}

/// Looks up a text in the entry `inner` of the entry `outer`, given the JSON pointer to it.
pub(crate) fn text_at_pointer(
    v: &serde_json::Value,
    pointer: &str,
    Ghost(outer): Ghost<Seq<char>>,
    Ghost(inner): Ghost<Seq<char>>,
) -> (r: Option<String>)
    requires
        is_plain_token(outer),
        is_plain_token(inner),
        pointer@ == pointer_text(outer, inner),
    ensures
        match r {
            Some(s) => json_of(*v).text_under(outer, inner) == Some(s@),
            None => json_of(*v).text_under(outer, inner) is None,
        },
{
    match follow(v, pointer) {
        Some(e) => match e.as_str() {
            Some(s) => Some(s.to_owned()),
            None => None,
        },
        None => None,
    }
}

} // verus!
