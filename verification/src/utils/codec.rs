//! The building blocks of the documents in which messages and states are
//! persisted: how texts, numbers and lists are written, and how they are read
//! back. A member that is missing reads like one that is null.

use vstd::prelude::*;

use crate::utils::json::{items_doc, lemma_items_doc, unsigned_doc, JsonDoc, JsonValue};
use crate::utils::text::opt_text;

verus! {

/// The document of a member that may be missing.
pub open spec fn member_doc(member: Option<&JsonValue>) -> JsonDoc {
    match member {
        Some(m) => m@,
        None => JsonDoc::Null,
    }
}

/// The document of an optional text: the text, or null.
pub open spec fn opt_text_doc(text: Option<Seq<char>>) -> JsonDoc {
    match text {
        Some(t) => JsonDoc::Text(t),
        None => JsonDoc::Null,
    }
}

/// The document of a number.
pub open spec fn u32_doc(number: u32) -> JsonDoc {
    unsigned_doc(number as u64)
}

/// The document of an optional number: the number, or null.
pub open spec fn opt_u32_doc(number: Option<u32>) -> JsonDoc {
    match number {
        Some(n) => u32_doc(n),
        None => JsonDoc::Null,
    }
}

/// The document of a large number.
pub open spec fn u64_doc(number: u64) -> JsonDoc {
    unsigned_doc(number)
}

/// The document of an optional large number: the number, or null.
pub open spec fn opt_u64_doc(number: Option<u64>) -> JsonDoc {
    match number {
        Some(n) => u64_doc(n),
        None => JsonDoc::Null,
    }
}

/// The optional large number that a document holds; `None` where it holds
/// neither a number nor null.
pub open spec fn as_opt_u64(document: JsonDoc) -> Option<Option<u64>> {
    match document {
        JsonDoc::Null => Some(None),
        _ => match document.unsigned() {
            Some(n) => Some(Some(n)),
            None => None,
        },
    }
}

/// The document of a list of texts: the array of them.
pub open spec fn texts_doc(texts: Seq<Seq<char>>) -> JsonDoc {
    JsonDoc::Array(Seq::new(texts.len(), |i: int| JsonDoc::Text(texts[i])))
}

/// The text that a document holds.
pub open spec fn as_text(document: JsonDoc) -> Option<Seq<char>> {
    document.text()
}

/// The optional text that a document holds; `None` where it holds neither a
/// text nor null.
pub open spec fn as_opt_text(document: JsonDoc) -> Option<Option<Seq<char>>> {
    match document {
        JsonDoc::Null => Some(None),
        JsonDoc::Text(t) => Some(Some(t)),
        _ => None,
    }
}

/// The number that a document holds.
pub open spec fn as_u32(document: JsonDoc) -> Option<u32> {
    match document.unsigned() {
        Some(n) => if n <= u32::MAX {
            Some(n as u32)
        } else {
            None
        },
        None => None,
    }
}

/// The optional number that a document holds; `None` where it holds neither
/// a number nor null.
pub open spec fn as_opt_u32(document: JsonDoc) -> Option<Option<u32>> {
    match document {
        JsonDoc::Null => Some(None),
        _ => match as_u32(document) {
            Some(n) => Some(Some(n)),
            None => None,
        },
    }
}

/// The truth value that a document holds.
pub open spec fn as_bool(document: JsonDoc) -> Option<bool> {
    match document {
        JsonDoc::Bool(b) => Some(b),
        _ => None,
    }
}

/// The list of texts that a document holds: it must be an array of texts.
pub open spec fn as_texts(document: JsonDoc) -> Option<Seq<Seq<char>>> {
    match document {
        JsonDoc::Array(items) => if forall|i: int| 0 <= i < items.len() ==> items[i] is Text {
            Some(Seq::new(items.len(), |i: int| items[i]->Text_0))
        } else {
            None
        },
        _ => None,
    }
}

/// The document of an optional list of texts: the array of them, or null.
pub open spec fn opt_texts_doc(texts: Option<Seq<Seq<char>>>) -> JsonDoc {
    match texts {
        Some(t) => texts_doc(t),
        None => JsonDoc::Null,
    }
}

/// The optional list of texts that a document holds; `None` where it holds
/// neither an array of texts nor null.
pub open spec fn as_opt_texts(document: JsonDoc) -> Option<Option<Seq<Seq<char>>>> {
    match document {
        JsonDoc::Null => Some(None),
        _ => match as_texts(document) {
            Some(t) => Some(Some(t)),
            None => None,
        },
    }
}

/// Texts, numbers and lists are read back as they were written.
pub proof fn values_are_read_back()
    ensures
        forall|text: Option<Seq<char>>| #[trigger] as_opt_text(opt_text_doc(text)) == Some(text),
        forall|number: u32| #[trigger] as_u32(u32_doc(number)) == Some(number),
        forall|number: Option<u32>| #[trigger] as_opt_u32(opt_u32_doc(number)) == Some(number),
        forall|texts: Seq<Seq<char>>| #[trigger] as_texts(texts_doc(texts)) == Some(texts),
        forall|texts: Option<Seq<Seq<char>>>| #[trigger]
            as_opt_texts(opt_texts_doc(texts)) == Some(texts),
        forall|number: u32| !(#[trigger] u32_doc(number) is Null),
        forall|number: Option<u64>| #[trigger] as_opt_u64(opt_u64_doc(number)) == Some(number),
{

    assert forall|texts: Seq<Seq<char>>| #[trigger] as_texts(texts_doc(texts)) == Some(texts) by {
        assert(as_texts(texts_doc(texts))->0 =~= texts);
    }
    assert forall|texts: Option<Seq<Seq<char>>>| #[trigger]
        as_opt_texts(opt_texts_doc(texts)) == Some(texts) by {
        if texts is Some {
            assert(as_texts(texts_doc(texts->0))->0 =~= texts->0);
        }
    }
}

/// Writes an optional text.
pub fn write_opt_text(text: &Option<String>) -> (document: JsonValue)
    ensures
        document@ == opt_text_doc(opt_text(*text)),
{
    match text {
        Some(t) => JsonValue::String(t.clone()),
        None => JsonValue::Null,
    }
}

/// Writes a number.
pub fn write_u32(number: u32) -> (document: JsonValue)
    ensures
        document@ == u32_doc(number),
{
    JsonValue::from_u64(number as u64)
}

/// Writes an optional number.
pub fn write_opt_u32(number: Option<u32>) -> (document: JsonValue)
    ensures
        document@ == opt_u32_doc(number),
{
    match number {
        Some(n) => write_u32(n),
        None => JsonValue::Null,
    }
}

/// Writes an optional large number.
pub fn write_opt_u64(number: Option<u64>) -> (document: JsonValue)
    ensures
        document@ == opt_u64_doc(number),
{
    match number {
        Some(n) => JsonValue::from_u64(n),
        None => JsonValue::Null,
    }
}

/// Reads an optional large number.
pub fn read_opt_u64(member: Option<&JsonValue>) -> (number: Option<Option<u64>>)
    ensures
        number == as_opt_u64(member_doc(member)),
{
    match member {
        None => Some(None),
        Some(JsonValue::Null) => Some(None),
        Some(m) => match m.as_u64() {
            Some(n) => Some(Some(n)),
            None => None,
        },
    }
}

/// Writes a list of texts.
pub fn write_texts(texts: &Vec<String>) -> (document: JsonValue)
    ensures
        document@ == texts_doc(texts.deep_view()),
{
    let mut items: Vec<JsonValue> = Vec::new();
    let mut i: usize = 0;
    while i < texts.len()
        invariant
            i <= texts.len(),
            items.len() == i,
            forall|k: int| 0 <= k < i ==> items[k]@ == JsonDoc::Text(texts[k]@),
        decreases texts.len() - i,
    {
        items.push(JsonValue::String(texts[i].clone()));
        i += 1;
    }
    proof {
        lemma_items_doc(items@);
        assert(items_doc(items@) =~= Seq::new(
            texts.deep_view().len(),
            |i: int| JsonDoc::Text(texts.deep_view()[i]),
        ));
    }
    JsonValue::Array(items)
}

/// Writes an optional list of texts.
pub fn write_opt_texts(texts: &Option<Vec<String>>) -> (document: JsonValue)
    ensures
        document@ == opt_texts_doc(texts.deep_view()),
{
    match texts {
        Some(t) => write_texts(t),
        None => JsonValue::Null,
    }
}

/// Reads a truth value.
pub fn read_bool(member: Option<&JsonValue>) -> (value: Option<bool>)
    ensures
        value == as_bool(member_doc(member)),
{
    match member {
        Some(JsonValue::Bool(b)) => Some(*b),
        _ => None,
    }
}

/// Reads an optional list of texts.
pub fn read_opt_texts(member: Option<&JsonValue>) -> (texts: Option<Option<Vec<String>>>)
    ensures
        match as_opt_texts(member_doc(member)) {
            Some(t) => texts is Some && texts->0.deep_view() == t,
            None => texts is None,
        },
{
    match member {
        None => Some(None),
        Some(JsonValue::Null) => Some(None),
        Some(_) => match read_texts(member) {
            Some(t) => Some(Some(t)),
            None => None,
        },
    }
}

/// Reads a text.
pub fn read_text(member: Option<&JsonValue>) -> (text: Option<String>)
    ensures
        opt_text(text) == as_text(member_doc(member)),
{
    match member {
        Some(JsonValue::String(t)) => Some(t.clone()),
        _ => None,
    }
}

/// Reads an optional text.
pub fn read_opt_text(member: Option<&JsonValue>) -> (text: Option<Option<String>>)
    ensures
        match as_opt_text(member_doc(member)) {
            Some(t) => text is Some && opt_text(text->0) == t,
            None => text is None,
        },
{
    match member {
        None => Some(None),
        Some(JsonValue::Null) => Some(None),
        Some(JsonValue::String(t)) => Some(Some(t.clone())),
        _ => None,
    }
}

/// Reads a number.
pub fn read_u32(member: Option<&JsonValue>) -> (number: Option<u32>)
    ensures
        number == as_u32(member_doc(member)),
{
    match member {
        Some(m) => match m.as_u64() {
            Some(n) => if n <= 0xffff_ffff {
                Some(n as u32)
            } else {
                None
            },
            None => None,
        },
        None => None,
    }
}

/// Reads an optional number.
pub fn read_opt_u32(member: Option<&JsonValue>) -> (number: Option<Option<u32>>)
    ensures
        number == as_opt_u32(member_doc(member)),
{
    match member {
        None => Some(None),
        Some(JsonValue::Null) => Some(None),
        Some(_) => match read_u32(member) {
            Some(n) => Some(Some(n)),
            None => None,
        },
    }
}

/// Reads a list of texts.
pub fn read_texts(member: Option<&JsonValue>) -> (texts: Option<Vec<String>>)
    ensures
        match as_texts(member_doc(member)) {
            Some(t) => texts is Some && texts->0.deep_view() == t,
            None => texts is None,
        },
{
    match member {
        Some(JsonValue::Array(items)) => {
            proof {
                lemma_items_doc(items@);
            }
            let mut texts: Vec<String> = Vec::new();
            let mut i: usize = 0;
            while i < items.len()
                invariant
                    i <= items.len(),
                    texts.len() == i,
                    member_doc(member) == JsonDoc::Array(items_doc(items@)),
                    items_doc(items@).len() == items.len(),
                    forall|k: int|
                        0 <= k < items.len() ==> #[trigger] items_doc(items@)[k] == items@[k]@,
                    forall|k: int|
                        0 <= k < i ==> (#[trigger] items_doc(items@)[k]) is Text && texts@[k]@
                            == items_doc(items@)[k]->Text_0,
                decreases items.len() - i,
            {
                let item = &items[i];
                match item {
                    JsonValue::String(t) => {
                        let ghost before = texts@;
                        texts.push(t.clone());
                        assert(item@ == JsonDoc::Text(t@));
                        assert(items_doc(items@)[i as int] == items@[i as int]@);
                        assert forall|k: int| 0 <= k < i + 1 implies (#[trigger] items_doc(
                            items@,
                        )[k]) is Text && texts@[k]@ == items_doc(items@)[k]->Text_0 by {
                            if k < i {
                                assert(texts@[k] == before[k]);
                            }
                        }
                    },
                    _ => {
                        assert(!(item@ is Text));
                        assert(items_doc(items@)[i as int] == items@[i as int]@);
                        return None;
                    },
                }
                i += 1;
            }
            assert(as_texts(member_doc(member)) is Some);
            assert(texts.deep_view() =~= as_texts(member_doc(member))->0);
            Some(texts)
        },
        _ => None,
    }
}

} // verus!
