//! Locating the human-readable answer inside a provider's response shape.

use vstd::prelude::*;
use crate::json::{JsonValue, spec_lookup, lookup};

verus! {

/// The fixed fallback answer, substituted whenever extraction finds no text.
pub open spec fn spec_no_answer() -> Seq<char> {
    "No answer received"@
}

/// The fallback answer as a value.
pub fn no_answer_text() -> (r: String)
    ensures
        r@ == spec_no_answer(),
{
    "No answer received".to_owned()
}

/// The text under `choices[0].message.content` of a chat-completion
/// document, or `None` where any step of that navigation misses: a missing
/// key, a wrong shape, or an empty `choices` array.
pub open spec fn spec_content(v: JsonValue) -> Option<Seq<char>> {
    match v {
        JsonValue::Obj(top) => match spec_lookup(top@, "choices"@) {
            Some(JsonValue::Arr(items)) => if items@.len() > 0 {
                match items@[0] {
                    JsonValue::Obj(choice) => match spec_lookup(choice@, "message"@) {
                        Some(JsonValue::Obj(msg)) => match spec_lookup(msg@, "content"@) {
                            Some(JsonValue::Str(s)) => Some(s@),
                            _ => None,
                        },
                        _ => None,
                    },
                    _ => None,
                }
            } else {
                None
            },
            _ => None,
        },
        _ => None,
    }
}

/// The uniform answer for an optionally extracted text: the text where it
/// is non-empty, the fallback where it is absent or empty. A success reply
/// never carries an empty answer.
pub open spec fn spec_answer_text(t: Option<Seq<char>>) -> Seq<char> {
    match t {
        Some(s) => if s.len() == 0 {
            spec_no_answer()
        } else {
            s
        },
        None => spec_no_answer(),
    }
}

/// What extraction returns on a direct-backend document: the content where
/// the navigation finds a non-empty one, the fallback everywhere else.
pub open spec fn spec_extract_answer(v: JsonValue) -> Seq<char> {
    spec_answer_text(spec_content(v))
}

/// Extracts the answer from a direct-backend document. Never fails: a
/// malformed document degrades to the fallback answer.
pub fn extract_answer(v: &JsonValue) -> (r: String)
    ensures
        r@ == spec_extract_answer(*v),
{
    match v {
        JsonValue::Obj(top) => match lookup(top, "choices") {
            Some(choices) => match choices {
                JsonValue::Arr(items) => {
                    if items.len() > 0 {
                        match &items[0] {
                            JsonValue::Obj(choice) => match lookup(choice, "message") {
                                Some(message) => match message {
                                    JsonValue::Obj(msg) => match lookup(msg, "content") {
                                        Some(content) => match content {
                                            JsonValue::Str(s) => {
                                                if s.as_str().is_empty() {
                                                    no_answer_text()
                                                } else {
                                                    s.clone()
                                                }
                                            },
                                            _ => no_answer_text(),
                                        },
                                        None => no_answer_text(),
                                    },
                                    _ => no_answer_text(),
                                },
                                None => no_answer_text(),
                            },
                            _ => no_answer_text(),
                        }
                    } else {
                        no_answer_text()
                    }
                },
                _ => no_answer_text(),
            },
            None => no_answer_text(),
        },
        _ => no_answer_text(),
    }
}

/// A document whose navigation finds a non-empty content string yields
/// exactly that string, for every such document.
pub proof fn lemma_present_content_is_returned(v: JsonValue, c: Seq<char>)
    requires
        spec_content(v) == Some(c),
        c.len() > 0,
    ensures
        spec_extract_answer(v) == c,
{
}

/// A document whose navigation finds an empty content string yields the
/// fallback: extraction never lets an empty answer through.
pub proof fn lemma_empty_content_degrades_to_fallback(v: JsonValue)
    requires
        spec_content(v) == Some(Seq::<char>::empty()),
    ensures
        spec_extract_answer(v) == spec_no_answer(),
{
}

/// The normalized answer is never empty, whatever was extracted: where the
/// text is absent or empty the non-empty fallback stands in its place.
pub proof fn lemma_answer_text_nonempty(t: Option<Seq<char>>)
    ensures
        spec_answer_text(t).len() > 0,
{
    reveal_strlit("No answer received");
}

/// A malformed document never fails extraction: wherever the navigation to
/// `choices[0].message.content` finds no string, the extracted answer is
/// exactly the fallback, for every such document.
pub proof fn lemma_malformed_degrades_to_fallback(v: JsonValue)
    requires
        spec_content(v) is None,
    ensures
        spec_extract_answer(v) == spec_no_answer(),
{
}

} // verus!
