//! Reading JSON documents held as `serde_json::Value`.
//!
//! A document is opaque to the verifier. What the gateway reads out of one,
//! strings and unsigned integers, is named by where it stands in the
//! document, and the accessors of `serde_json` are trusted to move along
//! paths of object member names.

use vstd::prelude::*;
use vstd::string::*;

verus! {

/// `serde_json::Value`, a JSON document: carried as it is, and read only
/// through the accessors below.
#[verifier::external_type_specification]
#[verifier::external_body]
pub struct ExJsonValue(serde_json::Value);

/// The strings that a JSON document holds, by where they stand: a path of
/// object member names leads, name by name, from an object to its member of
/// that name, and is in the map when the value it ends at is a JSON string.
/// The empty path ends at the document itself.
pub uninterp spec fn json_strings(doc: serde_json::Value) -> Map<Seq<Seq<char>>, Seq<char>>;

/// The unsigned integers that a JSON document holds, by where they stand:
/// a path is in the map when the value it ends at is a JSON number that
/// `serde_json` holds as an unsigned integer of 64 bits.
pub uninterp spec fn json_unsigned(doc: serde_json::Value) -> Map<Seq<Seq<char>>, u64>;

/// The string at the end of a path in a document, if there is one.
pub open spec fn json_string_at(doc: serde_json::Value, path: Seq<Seq<char>>) -> Option<Seq<char>> {
    if json_strings(doc).dom().contains(path) {
        Some(json_strings(doc)[path])
    } else {
        None
    }
}

/// The unsigned integer at the end of a path in a document, if there is one.
pub open spec fn json_u64_at(doc: serde_json::Value, path: Seq<Seq<char>>) -> Option<u64> {
    if json_unsigned(doc).dom().contains(path) {
        Some(json_unsigned(doc)[path])
    } else {
        None
    }
}

/// `serde_json::Value::get` with a string index. It yields the member of that
/// name when the value is an object that has one, and nothing otherwise. So a
/// path finds in the member what the same path, with the name put in front,
/// finds in the value; and where there is no member, such a path finds
/// nothing.
#[verifier::external_body]
pub(crate) fn member<'a>(doc: &'a serde_json::Value, name: &str) -> (found: Option<
    &'a serde_json::Value,
>)
    ensures
        match found {
            Some(inner) => forall|path: Seq<Seq<char>>|
                #![trigger json_string_at(*inner, path)]
                #![trigger json_u64_at(*inner, path)]
                json_string_at(*inner, path) == json_string_at(*doc, seq![name@] + path)
                    && json_u64_at(*inner, path) == json_u64_at(*doc, seq![name@] + path),
            None => forall|path: Seq<Seq<char>>|
                #![trigger json_string_at(*doc, seq![name@] + path)]
                #![trigger json_u64_at(*doc, seq![name@] + path)]
                json_string_at(*doc, seq![name@] + path).is_none() && json_u64_at(
                    *doc,
                    seq![name@] + path,
                ).is_none(),
        },
{
    doc.get(name)
}

/// `serde_json::Value::as_str`: the text when the value is a JSON string,
/// nothing otherwise.
#[verifier::external_body]
pub(crate) fn as_text<'a>(doc: &'a serde_json::Value) -> (found: Option<&'a str>)
    ensures
        match found {
            Some(text) => json_strings(*doc).contains_pair(Seq::empty(), text@),
            None => !json_strings(*doc).dom().contains(Seq::empty()),
        },
{
    doc.as_str()
}

/// `serde_json::Value::as_u64`: the number when the value is a JSON number
/// that `serde_json` holds as an unsigned integer of 64 bits, nothing
/// otherwise (not for a negative number, nor for one with a fraction or an
/// exponent).
#[verifier::external_body]
pub(crate) fn as_unsigned(doc: &serde_json::Value) -> (found: Option<u64>)
    ensures
        match found {
            Some(number) => json_unsigned(*doc).contains_pair(Seq::empty(), number),
            None => !json_unsigned(*doc).dom().contains(Seq::empty()),
        },
{
    doc.as_u64()
}

/// The string under one member name of a document, copied out.
pub fn string_member(doc: &serde_json::Value, name: &str) -> (found: Option<String>)
    ensures
        crate::text::chars_of(found) == json_string_at(*doc, seq![name@]),
{
    let ghost here = Seq::<Seq<char>>::empty();
    proof {
        assert(seq![name@] + here =~= seq![name@]);
    }
    match member(doc, name) {
        Some(inner) => {
            assert(json_string_at(*inner, here) == json_string_at(*doc, seq![name@] + here));
            match as_text(inner) {
                Some(text) => Some(String::from_str(text)),
                None => None,
            }
        },
        None => {
            assert(json_string_at(*doc, seq![name@] + here).is_none());
            None
        },
    }
}

} // verus!
