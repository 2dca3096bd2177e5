//! JSON documents.
//!
//! [`JsonValue`] is the document as the library holds it, [`JsonDoc`] what it
//! is mathematically. Reading and writing JSON text is the work of
//! `serde_json`; what it returns is named here, not described.

use vstd::prelude::*;

use crate::utils::decimal::decimal_text;
use crate::utils::text::text_eq;

verus! {

/// `serde_json::Value`, of which nothing is seen here but through the
/// functions below.
#[verifier::external_type_specification]
#[verifier::external_body]
pub struct ExJsonValue(serde_json::Value);

/// `serde_json::Number`, of which nothing is seen here but its text and the
/// unsigned integer it may hold.
#[verifier::external_type_specification]
#[verifier::external_body]
pub struct ExJsonNumber(serde_json::Number);

/// A JSON document. An object holds its members in the order in which they
/// were added; of two members with the same name the later one counts.
#[derive(Debug, PartialEq)]
pub enum JsonValue {
    Null,
    Bool(bool),
    Number(serde_json::Number),
    String(String),
    Array(Vec<JsonValue>),
    Object(Vec<(String, JsonValue)>),
}

/// What a JSON document is: a number is its text, together with the
/// unsigned integer it holds where it holds one; an object is a map from
/// names to documents.
pub enum JsonDoc {
    Null,
    Bool(bool),
    Number(Seq<char>, Option<u64>),
    Text(Seq<char>),
    Array(Seq<JsonDoc>),
    Object(Map<Seq<char>, JsonDoc>),
}

/// The document that `serde_json::from_str` reads from a text, where it reads
/// one.
pub uninterp spec fn json_parsed(text: Seq<char>) -> Option<JsonDoc>;

/// The compact text that `serde_json` writes for a document.
pub uninterp spec fn json_text(doc: JsonDoc) -> Seq<char>;

/// The document that a `serde_json::Value` holds.
pub uninterp spec fn value_doc(value: serde_json::Value) -> JsonDoc;

/// The text that the `Display` of a `serde_json::Number` writes.
pub uninterp spec fn number_text(number: serde_json::Number) -> Seq<char>;

/// The unsigned integer that `Number::as_u64` finds in a number, where it
/// finds one.
pub uninterp spec fn number_u64(number: serde_json::Number) -> Option<u64>;

/// The document of a number.
pub open spec fn number_doc(number: serde_json::Number) -> JsonDoc {
    JsonDoc::Number(number_text(number), number_u64(number))
}

/// The document of the number that holds the unsigned integer `held`.
pub open spec fn unsigned_doc(held: u64) -> JsonDoc {
    JsonDoc::Number(decimal_text(held as nat), Some(held))
}

/// The document of a value of the library.
pub open spec fn doc_of(value: JsonValue) -> JsonDoc
    decreases value,
{
    match value {
        JsonValue::Null => JsonDoc::Null,
        JsonValue::Bool(b) => JsonDoc::Bool(b),
        JsonValue::Number(n) => number_doc(n),
        JsonValue::String(s) => JsonDoc::Text(s@),
        JsonValue::Array(items) => JsonDoc::Array(items_doc(items@)),
        JsonValue::Object(members) => JsonDoc::Object(members_doc(members@)),
    }
}

/// The documents of the items of an array, in their order.
pub open spec fn items_doc(items: Seq<JsonValue>) -> Seq<JsonDoc>
    decreases items,
{
    if items.len() == 0 {
        Seq::empty()
    } else {
        items_doc(items.drop_last()).push(doc_of(items.last()))
    }
}

/// The members of an object as a map; a later member replaces an earlier one
/// of the same name.
pub open spec fn members_doc(members: Seq<(String, JsonValue)>) -> Map<Seq<char>, JsonDoc>
    decreases members,
{
    if members.len() == 0 {
        Map::empty()
    } else {
        members_doc(members.drop_last()).insert(members.last().0@, doc_of(members.last().1))
    }
}

impl View for JsonValue {
    type V = JsonDoc;

    open spec fn view(&self) -> JsonDoc {
        doc_of(*self)
    }
}

impl DeepView for JsonValue {
    type V = JsonDoc;

    open spec fn deep_view(&self) -> JsonDoc {
        doc_of(*self)
    }
}

impl JsonDoc {
    /// The member `name` of an object; `Null` where this is no object or has
    /// no such member.
    pub open spec fn member(self, name: Seq<char>) -> JsonDoc {
        match self {
            JsonDoc::Object(members) => if members.contains_key(name) {
                members[name]
            } else {
                JsonDoc::Null
            },
            _ => JsonDoc::Null,
        }
    }

    /// The text of a string document.
    pub open spec fn text(self) -> Option<Seq<char>> {
        match self {
            JsonDoc::Text(t) => Some(t),
            _ => None,
        }
    }

    /// The unsigned integer of a number document that holds one.
    pub open spec fn unsigned(self) -> Option<u64> {
        match self {
            JsonDoc::Number(_, held) => held,
            _ => None,
        }
    }
}

/// The documents of the items of an array are as many as the items, each
/// the document of its item.
pub proof fn lemma_items_doc(items: Seq<JsonValue>)
    ensures
        items_doc(items).len() == items.len(),
        forall|i: int| 0 <= i < items.len() ==> #[trigger] items_doc(items)[i] == doc_of(items[i]),
    decreases items.len(),
{
    if items.len() > 0 {
        lemma_items_doc(items.drop_last());
    }
}

/// The last member of a name is the one that the map holds under the name.
pub proof fn lemma_member_found(members: Seq<(String, JsonValue)>, at: int)
    requires
        0 <= at < members.len(),
        forall|j: int| at < j < members.len() ==> members[j].0@ != members[at].0@,
    ensures
        members_doc(members).contains_key(members[at].0@),
        members_doc(members)[members[at].0@] == doc_of(members[at].1),
    decreases members.len(),
{
    if at < members.len() - 1 {
        lemma_member_found(members.drop_last(), at);
    }
}

/// Whether the member at `at` is the last one of its name.
pub open spec fn is_last_of_name(members: Seq<(String, JsonValue)>, at: int) -> bool {
    forall|later: int| at < later < members.len() ==> members[later].0@ != members[at].0@
}

/// A name that the members hold has a last member of that name.
pub proof fn lemma_member_last(members: Seq<(String, JsonValue)>, name: Seq<char>) -> (at: int)
    requires
        members_doc(members).contains_key(name),
    ensures
        0 <= at < members.len(),
        members[at].0@ == name,
        forall|later: int| at < later < members.len() ==> members[later].0@ != name,
    decreases members.len(),
{
    if members.last().0@ == name {
        members.len() - 1
    } else {
        let at = lemma_member_last(members.drop_last(), name);
        assert forall|later: int| at < later < members.len() implies members[later].0@ != name by {
            if later < members.len() - 1 {
                assert(members.drop_last()[later].0@ != name);
            }
        }
        at
    }
}

/// A name that no member has is not in the map.
pub proof fn lemma_member_absent(members: Seq<(String, JsonValue)>, name: Seq<char>)
    requires
        forall|j: int| 0 <= j < members.len() ==> members[j].0@ != name,
    ensures
        !members_doc(members).contains_key(name),
    decreases members.len(),
{
    if members.len() > 0 {
        lemma_member_absent(members.drop_last(), name);
    }
}

/// One level of a `serde_json::Value`: its variant, with the children still
/// as `serde_json` holds them.
enum JsonNode<'a> {
    Null,
    Bool(bool),
    Number(&'a serde_json::Number),
    String(&'a String),
    Array(&'a Vec<serde_json::Value>),
    Object(Vec<(&'a String, &'a serde_json::Value)>),
}

/// One level of a `serde_json::Value` that is to be put together.
enum JsonParts {
    Null,
    Bool(bool),
    Number(serde_json::Number),
    String(String),
    Array(Vec<serde_json::Value>),
    Object(Vec<(String, serde_json::Value)>),
}

spec fn node_members_doc(members: Seq<(&String, &serde_json::Value)>) -> Map<Seq<char>, JsonDoc>
    decreases members.len(),
{
    if members.len() == 0 {
        Map::empty()
    } else {
        node_members_doc(members.drop_last()).insert(
            members.last().0@,
            value_doc(*members.last().1),
        )
    }
}

spec fn node_doc(node: JsonNode) -> JsonDoc {
    match node {
        JsonNode::Null => JsonDoc::Null,
        JsonNode::Bool(b) => JsonDoc::Bool(b),
        JsonNode::Number(n) => number_doc(*n),
        JsonNode::String(s) => JsonDoc::Text(s@),
        JsonNode::Array(items) => JsonDoc::Array(
            Seq::new(items@.len(), |i: int| value_doc(items@[i])),
        ),
        JsonNode::Object(members) => JsonDoc::Object(node_members_doc(members@)),
    }
}

spec fn distinct_names(node: JsonNode) -> bool {
    match node {
        JsonNode::Object(members) => forall|i: int, j: int|
            0 <= i < j < members@.len() ==> members@[i].0@ != members@[j].0@,
        _ => true,
    }
}

spec fn parts_members_doc(members: Seq<(String, serde_json::Value)>) -> Map<Seq<char>, JsonDoc>
    decreases members.len(),
{
    if members.len() == 0 {
        Map::empty()
    } else {
        parts_members_doc(members.drop_last()).insert(
            members.last().0@,
            value_doc(members.last().1),
        )
    }
}

spec fn parts_doc(parts: JsonParts) -> JsonDoc {
    match parts {
        JsonParts::Null => JsonDoc::Null,
        JsonParts::Bool(b) => JsonDoc::Bool(b),
        JsonParts::Number(n) => number_doc(n),
        JsonParts::String(s) => JsonDoc::Text(s@),
        JsonParts::Array(items) => JsonDoc::Array(
            Seq::new(items@.len(), |i: int| value_doc(items@[i])),
        ),
        JsonParts::Object(members) => JsonDoc::Object(parts_members_doc(members@)),
    }
}

/// Calls `serde_json::from_str` for a `Value`. It succeeds on the texts that
/// are JSON, and the value then holds the document read.
#[verifier::external_body]
fn parse_value(text: &str) -> (parsed: Option<serde_json::Value>)
    ensures
        parsed is Some <==> json_parsed(text@) is Some,
        parsed matches Some(value) ==> json_parsed(text@) == Some(value_doc(value)),
{
    serde_json::from_str::<serde_json::Value>(text).ok()
}

/// Writes a `serde_json::Value` as compact text, as its `Display` does.
#[verifier::external_body]
fn write_value(value: &serde_json::Value) -> (text: String)
    ensures
        text@ == json_text(value_doc(*value)),
{
    value.to_string()
}

/// Looks at a `serde_json::Value` one level deep. The names of the members
/// of an object are the keys of its map, so no two of them are the same.
#[verifier::external_body]
fn unfold_value<'a>(value: &'a serde_json::Value) -> (node: JsonNode<'a>)
    ensures
        node_doc(node) == value_doc(*value),
        distinct_names(node),
{
    match value {
        serde_json::Value::Null => JsonNode::Null,
        serde_json::Value::Bool(b) => JsonNode::Bool(*b),
        serde_json::Value::Number(n) => JsonNode::Number(n),
        serde_json::Value::String(s) => JsonNode::String(s),
        serde_json::Value::Array(items) => JsonNode::Array(items),
        serde_json::Value::Object(members) => JsonNode::Object(members.iter().collect()),
    }
}

/// Puts a `serde_json::Value` together from one level. The members go into
/// the map of the object by `Map::insert`, in their order, so a later member
/// replaces an earlier one of the same name.
#[verifier::external_body]
fn fold_value(parts: JsonParts) -> (value: serde_json::Value)
    ensures
        value_doc(value) == parts_doc(parts),
{
    match parts {
        JsonParts::Null => serde_json::Value::Null,
        JsonParts::Bool(b) => serde_json::Value::Bool(b),
        JsonParts::Number(n) => serde_json::Value::Number(n),
        JsonParts::String(s) => serde_json::Value::String(s),
        JsonParts::Array(items) => serde_json::Value::Array(items),
        JsonParts::Object(members) => {
            let mut map = serde_json::Map::new();
            for (name, member) in members {
                map.insert(name, member);
            }
            serde_json::Value::Object(map)
        },
    }
}

/// `Number::as_u64` gives the integer of a number that holds an unsigned
/// integer, and nothing for other numbers.
pub assume_specification[ serde_json::Number::as_u64 ](number: &serde_json::Number) -> (held:
    Option<u64>)
    ensures
        held == number_u64(*number),
;

/// A number made from an unsigned integer holds that integer, and is written
/// as its decimal digits.
pub assume_specification[ <serde_json::Number as From<u64>>::from ](held: u64) -> (number:
    serde_json::Number)
    ensures
        number_u64(number) == Some(held),
        number_text(number) == decimal_text(held as nat),
;

/// A copy of a number is the same number.
pub assume_specification[ <serde_json::Number as Clone>::clone ](
    number: &serde_json::Number,
) -> (copy: serde_json::Number)
    ensures
        copy == *number,
;

proof fn lemma_node_members(members: Seq<(&String, &serde_json::Value)>)
    ensures
        node_members_doc(members).dom().finite(),
        forall|name: Seq<char>| #[trigger]
            node_members_doc(members).contains_key(name) ==> exists|i: int|
                0 <= i < members.len() && members[i].0@ == name,
    decreases members.len(),
{
    if members.len() > 0 {
        lemma_node_members(members.drop_last());
        assert forall|name: Seq<char>| #[trigger]
            node_members_doc(members).contains_key(name) implies exists|i: int|
            0 <= i < members.len() && members[i].0@ == name by {
            if name == members.last().0@ {
                assert(members[members.len() - 1].0@ == name);
            } else {
                let i = choose|i: int|
                    0 <= i < members.drop_last().len() && members.drop_last()[i].0@ == name;
                assert(members[i].0@ == name);
            }
        }
    }
}

proof fn lemma_node_member_found(members: Seq<(&String, &serde_json::Value)>, at: int)
    requires
        0 <= at < members.len(),
        forall|j: int| at < j < members.len() ==> members[j].0@ != members[at].0@,
    ensures
        node_members_doc(members).contains_key(members[at].0@),
        node_members_doc(members)[members[at].0@] == value_doc(*members[at].1),
    decreases members.len(),
{
    if at < members.len() - 1 {
        lemma_node_member_found(members.drop_last(), at);
    }
}

/// The members read so far and the documents made of them hold the same map.
proof fn lemma_members_agree(
    read: Seq<(&String, &serde_json::Value)>,
    made: Seq<(String, JsonValue)>,
)
    requires
        read.len() == made.len(),
        forall|k: int|
            0 <= k < read.len() ==> made[k].0@ == read[k].0@ && doc_of(made[k].1) == value_doc(
                *read[k].1,
            ),
    ensures
        members_doc(made) == node_members_doc(read),
    decreases read.len(),
{
    if read.len() > 0 {
        lemma_members_agree(read.drop_last(), made.drop_last());
    }
}

proof fn lemma_parts_agree(made: Seq<(String, serde_json::Value)>, from: Seq<(String, JsonValue)>)
    requires
        from.len() == made.len(),
        forall|k: int|
            0 <= k < made.len() ==> made[k].0@ == from[k].0@ && value_doc(made[k].1) == doc_of(
                from[k].1,
            ),
    ensures
        parts_members_doc(made) == members_doc(from),
    decreases made.len(),
{
    if made.len() > 0 {
        lemma_parts_agree(made.drop_last(), from.drop_last());
    }
}

/// The document that a `serde_json::Value` holds, as a value of the library.
fn document_of_value(value: &serde_json::Value) -> (document: JsonValue)
    ensures
        document@ == value_doc(*value),
    decreases value_doc(*value),
{
    match unfold_value(value) {
        JsonNode::Null => JsonValue::Null,
        JsonNode::Bool(b) => JsonValue::Bool(b),
        JsonNode::Number(n) => JsonValue::Number(n.clone()),
        JsonNode::String(s) => JsonValue::String(s.clone()),
        JsonNode::Array(items) => {
            let ghost docs = Seq::new(items@.len(), |i: int| value_doc(items@[i]));
            let mut documents: Vec<JsonValue> = Vec::new();
            let mut i: usize = 0;
            while i < items.len()
                invariant
                    i <= items.len(),
                    documents.len() == i,
                    value_doc(*value) == JsonDoc::Array(docs),
                    docs == Seq::new(items@.len(), |i: int| value_doc(items@[i])),
                    forall|k: int| 0 <= k < i ==> doc_of(documents[k]) == value_doc(items[k]),
                decreases items.len() - i,
            {
                proof {
                    assert(docs[i as int] == value_doc(items@[i as int]));
                    assert(decreases_to!(value_doc(*value) => value_doc(*value)->Array_0));
                    assert(decreases_to!(docs => docs[i as int]));
                }
                let document = document_of_value(&items[i]);
                documents.push(document);
                i += 1;
            }
            proof {
                lemma_items_doc(documents@);
                assert(items_doc(documents@) =~= docs);
            }
            JsonValue::Array(documents)
        },
        JsonNode::Object(members) => {
            let ghost docs = node_members_doc(members@);
            let mut documents: Vec<(String, JsonValue)> = Vec::new();
            let mut i: usize = 0;
            proof {
                lemma_node_members(members@);
            }
            while i < members.len()
                invariant
                    i <= members.len(),
                    documents.len() == i,
                    value_doc(*value) == JsonDoc::Object(docs),
                    docs == node_members_doc(members@),
                    docs.dom().finite(),
                    forall|a: int, b: int|
                        0 <= a < b < members@.len() ==> members@[a].0@ != members@[b].0@,
                    forall|k: int|
                        0 <= k < i ==> documents[k].0@ == members[k].0@ && doc_of(documents[k].1)
                            == value_doc(*members[k].1),
                decreases members.len() - i,
            {
                proof {
                    lemma_node_member_found(members@, i as int);
                    assert(docs[members@[i as int].0@] == value_doc(*members@[i as int].1));
                    assert(decreases_to!(value_doc(*value) => value_doc(*value)->Object_0));
                    assert(decreases_to!(docs => docs[members@[i as int].0@]));
                }
                let document = document_of_value(members[i].1);
                documents.push((members[i].0.clone(), document));
                i += 1;
            }
            proof {
                lemma_members_agree(members@, documents@);
            }
            JsonValue::Object(documents)
        },
    }
}

/// A `serde_json::Value` that holds the given document.
fn value_of_document(document: &JsonValue) -> (value: serde_json::Value)
    ensures
        value_doc(value) == document@,
    decreases document,
{
    match document {
        JsonValue::Null => fold_value(JsonParts::Null),
        JsonValue::Bool(b) => fold_value(JsonParts::Bool(*b)),
        JsonValue::Number(n) => fold_value(JsonParts::Number(n.clone())),
        JsonValue::String(s) => fold_value(JsonParts::String(s.clone())),
        JsonValue::Array(items) => {
            let mut values: Vec<serde_json::Value> = Vec::new();
            let mut i: usize = 0;
            while i < items.len()
                invariant
                    i <= items.len(),
                    values.len() == i,
                    *document == JsonValue::Array(*items),
                    forall|k: int| 0 <= k < i ==> value_doc(values[k]) == doc_of(items[k]),
                decreases items.len() - i,
            {
                assert(decreases_to!(*document => document->Array_0));
                assert(decreases_to!(*items => items[i as int]));
                let value = value_of_document(&items[i]);
                values.push(value);
                i += 1;
            }
            proof {
                lemma_items_doc(items@);
                assert(Seq::new(values@.len(), |i: int| value_doc(values@[i])) =~= items_doc(
                    items@,
                ));
            }
            fold_value(JsonParts::Array(values))
        },
        JsonValue::Object(members) => {
            let mut values: Vec<(String, serde_json::Value)> = Vec::new();
            let mut i: usize = 0;
            while i < members.len()
                invariant
                    i <= members.len(),
                    values.len() == i,
                    *document == JsonValue::Object(*members),
                    forall|k: int|
                        0 <= k < i ==> values[k].0@ == members[k].0@ && value_doc(values[k].1)
                            == doc_of(members[k].1),
                decreases members.len() - i,
            {
                assert(decreases_to!(*document => document->Object_0));
                assert(decreases_to!(*members => members[i as int]));
                assert(decreases_to!(members[i as int] => members[i as int].1));
                let value = value_of_document(&members[i].1);
                values.push((members[i].0.clone(), value));
                i += 1;
            }
            proof {
                lemma_parts_agree(values@, members@);
            }
            fold_value(JsonParts::Object(values))
        },
    }
}

impl JsonValue {
    /// Reads a JSON text: the document it holds, or `None` where it is no
    /// JSON.
    pub fn from_text(text: &str) -> (document: Option<JsonValue>)
        ensures
            match json_parsed(text@) {
                Some(doc) => document is Some && document->0@ == doc,
                None => document is None,
            },
    {
        match parse_value(text) {
            Some(value) => Some(document_of_value(&value)),
            None => None,
        }
    }

    /// Writes the document as compact JSON text.
    pub fn to_text(&self) -> (text: String)
        ensures
            text@ == json_text(self@),
    {
        let value = value_of_document(self);
        write_value(&value)
    }

    /// A copy of the document.
    pub fn duplicate(&self) -> (copy: JsonValue)
        ensures
            copy@ == self@,
        decreases self,
    {
        match self {
            JsonValue::Null => JsonValue::Null,
            JsonValue::Bool(b) => JsonValue::Bool(*b),
            JsonValue::Number(n) => JsonValue::Number(n.clone()),
            JsonValue::String(s) => JsonValue::String(s.clone()),
            JsonValue::Array(items) => {
                let mut copies: Vec<JsonValue> = Vec::new();
                let mut i: usize = 0;
                while i < items.len()
                    invariant
                        i <= items.len(),
                        copies.len() == i,
                        *self == JsonValue::Array(*items),
                        forall|k: int| 0 <= k < i ==> doc_of(copies[k]) == doc_of(items[k]),
                    decreases items.len() - i,
                {
                    assert(decreases_to!(*items => items[i as int]));
                    assert(decreases_to!(*self => self->Array_0));
                    let copy = items[i].duplicate();
                    copies.push(copy);
                    i += 1;
                }
                proof {
                    lemma_items_doc(items@);
                    lemma_items_doc(copies@);
                    assert(items_doc(copies@) =~= items_doc(items@));
                }
                JsonValue::Array(copies)
            },
            JsonValue::Object(members) => {
                let mut copies: Vec<(String, JsonValue)> = Vec::new();
                let mut i: usize = 0;
                while i < members.len()
                    invariant
                        i <= members.len(),
                        copies.len() == i,
                        *self == JsonValue::Object(*members),
                        forall|k: int|
                            0 <= k < i ==> copies[k].0@ == members[k].0@ && doc_of(copies[k].1)
                                == doc_of(members[k].1),
                    decreases members.len() - i,
                {
                    assert(decreases_to!(*self => self->Object_0));
                    assert(decreases_to!(*members => members[i as int]));
                    assert(decreases_to!(members[i as int] => members[i as int].1));
                    let copy = members[i].1.duplicate();
                    copies.push((members[i].0.clone(), copy));
                    i += 1;
                }
                proof {
                    lemma_same_members(copies@, members@);
                }
                JsonValue::Object(copies)
            },
        }
    }

    /// An object without members.
    pub fn object() -> (document: JsonValue)
        ensures
            document@ == JsonDoc::Object(Map::empty()),
    {
        JsonValue::Object(Vec::new())
    }

    /// Sets the member `name` of an object to `member`.
    pub fn insert(&mut self, name: String, member: JsonValue)
        requires
            old(self)@ is Object,
        ensures
            final(self)@ == JsonDoc::Object(old(self)@->Object_0.insert(name@, member@)),
    {
        match self {
            JsonValue::Object(members) => {
                let ghost before = members@;
                members.push((name, member));
                assert(members@.drop_last() =~= before);
            },
            _ => {},
        }
    }

    /// The member `name` of an object, if this is an object that has one.
    pub fn get(&self, name: &str) -> (found: Option<&JsonValue>)
        ensures
            match self@ {
                JsonDoc::Object(members) => if members.contains_key(name@) {
                    found is Some && found->0@ == members[name@]
                } else {
                    found is None
                },
                _ => found is None,
            },
            found is Some ==> found->0@ == self@.member(name@),
            found is None ==> self@.member(name@) is Null,
    {
        match self {
            JsonValue::Object(members) => {
                let mut i: usize = members.len();
                while i > 0
                    invariant
                        i <= members.len(),
                        *self == JsonValue::Object(*members),
                        forall|j: int| i <= j < members.len() ==> members[j].0@ != name@,
                    decreases i,
                {
                    i -= 1;
                    if text_eq(members[i].0.as_str(), name) {
                        proof {
                            lemma_member_found(members@, i as int);
                        }
                        return Some(&members[i].1);
                    }
                }
                proof {
                    lemma_member_absent(members@, name@);
                }
                None
            },
            _ => None,
        }
    }

    /// The members of an object that count, in their order: of two members
    /// with the same name only the later one is among them. Empty where this
    /// is no object.
    pub fn members(&self) -> (counted: Vec<(&String, &JsonValue)>)
        ensures
            !(self@ is Object) ==> counted@.len() == 0,
            forall|i: int|
                0 <= i < counted@.len() ==> self@ is Object && (
                #[trigger] self@->Object_0.contains_key(counted@[i].0@)) && self@->Object_0[counted@[i].0@]
                    == counted@[i].1@,
            forall|name: Seq<char>|
                self@ is Object && #[trigger] self@->Object_0.contains_key(name) ==> exists|i: int|
                    0 <= i < counted@.len() && counted@[i].0@ == name,
            forall|i: int, j: int|
                0 <= i < j < counted@.len() ==> counted@[i].0@ != counted@[j].0@,
    {
        let mut counted: Vec<(&String, &JsonValue)> = Vec::new();
        match self {
            JsonValue::Object(members) => {
                let ghost mut origin: Seq<int> = Seq::empty();
                let mut i: usize = 0;
                while i < members.len()
                    invariant
                        i <= members.len(),
                        *self == JsonValue::Object(*members),
                        origin.len() == counted@.len(),
                        forall|k: int|
                            0 <= k < origin.len() ==> 0 <= #[trigger] origin[k] < i && counted@[k]
                                == (&members@[origin[k]].0, &members@[origin[k]].1) && is_last_of_name(
                                members@,
                                origin[k],
                            ),
                        forall|a: int, b: int|
                            0 <= a < b < origin.len() ==> origin[a] < origin[b],
                        forall|m: int|
                            0 <= m < i && #[trigger] is_last_of_name(members@, m) ==> exists|k: int|
                                0 <= k < origin.len() && origin[k] == m,
                    decreases members.len() - i,
                {
                    let mut j: usize = i + 1;
                    let mut shadowed = false;
                    while j < members.len() && !shadowed
                        invariant
                            i < j <= members.len(),
                            !shadowed ==> forall|later: int|
                                i < later < j ==> members@[later].0@ != members@[i as int].0@,
                            shadowed ==> j < members.len() && members@[j as int].0@
                                == members@[i as int].0@,
                        decreases members.len() - j + (if shadowed { 0int } else { 1int }),
                    {
                        if text_eq(members[j].0.as_str(), members[i].0.as_str()) {
                            shadowed = true;
                        } else {
                            j += 1;
                        }
                    }
                    let ghost before = origin;
                    if !shadowed {
                        counted.push((&members[i].0, &members[i].1));
                        proof {
                            origin = origin.push(i as int);
                            assert(is_last_of_name(members@, i as int));
                        }
                    } else {
                        assert(!is_last_of_name(members@, i as int));
                    }
                    proof {
                        assert forall|m: int|
                            0 <= m < i + 1 && #[trigger] is_last_of_name(
                                members@,
                                m,
                            ) implies exists|k: int| 0 <= k < origin.len() && origin[k] == m by {
                            if m < i {
                                let k = choose|k: int| 0 <= k < before.len() && before[k] == m;
                                assert(origin[k] == m);
                            } else {
                                assert(origin[origin.len() - 1] == m);
                            }
                        }
                    }
                    i += 1;
                }
                proof {
                    assert forall|k: int| 0 <= k < counted@.len() implies self@ is Object && (
                    #[trigger] self@->Object_0.contains_key(counted@[k].0@))
                        && self@->Object_0[counted@[k].0@] == counted@[k].1@ by {
                        assert(is_last_of_name(members@, origin[k]));
                        lemma_member_found(members@, origin[k]);
                    }
                    assert forall|name: Seq<char>|
                        self@ is Object && #[trigger] self@->Object_0.contains_key(
                            name,
                        ) implies exists|k: int|
                        0 <= k < counted@.len() && counted@[k].0@ == name by {
                        let m = lemma_member_last(members@, name);
                        assert(is_last_of_name(members@, m));
                        let k = choose|k: int| 0 <= k < origin.len() && origin[k] == m;
                        assert(counted@[k].0@ == name);
                    }
                    assert forall|a: int, b: int|
                        0 <= a < b < counted@.len() implies counted@[a].0@ != counted@[b].0@ by {
                        assert(origin[a] < origin[b]);
                        assert(is_last_of_name(members@, origin[a]));
                    }
                }
            },
            _ => {},
        }
        counted
    }

    /// Whether the member `name` is missing or null; true also where this is
    /// no object.
    pub fn member_is_null(&self, name: &str) -> (null: bool)
        ensures
            null == (self@.member(name@) is Null),
    {
        match self.get(name) {
            Some(member) => member.is_null(),
            None => true,
        }
    }

    /// Whether this is the null document.
    pub fn is_null(&self) -> (null: bool)
        ensures
            null == (self@ is Null),
    {
        match self {
            JsonValue::Null => true,
            _ => false,
        }
    }

    /// Whether this is an object.
    pub fn is_object(&self) -> (object: bool)
        ensures
            object == (self@ is Object),
    {
        match self {
            JsonValue::Object(_) => true,
            _ => false,
        }
    }

    /// The text of a string document.
    pub fn as_str(&self) -> (text: Option<&str>)
        ensures
            match self@.text() {
                Some(t) => text is Some && text->0@ == t,
                None => text is None,
            },
    {
        match self {
            JsonValue::String(s) => Some(s.as_str()),
            _ => None,
        }
    }

    /// The unsigned integer of a number document that holds one.
    pub fn as_u64(&self) -> (held: Option<u64>)
        ensures
            held == self@.unsigned(),
    {
        match self {
            JsonValue::Number(n) => n.as_u64(),
            _ => None,
        }
    }

    /// The number document that holds `held`.
    pub fn from_u64(held: u64) -> (document: JsonValue)
        ensures
            document@ == unsigned_doc(held),
    {
        JsonValue::Number(serde_json::Number::from(held))
    }

    /// The string document with the text `text`.
    pub fn from_str(text: &str) -> (document: JsonValue)
        ensures
            document@ == JsonDoc::Text(text@),
    {
        JsonValue::String(text.to_owned())
    }
}

proof fn lemma_same_members(a: Seq<(String, JsonValue)>, b: Seq<(String, JsonValue)>)
    requires
        a.len() == b.len(),
        forall|k: int| 0 <= k < a.len() ==> a[k].0@ == b[k].0@ && doc_of(a[k].1) == doc_of(b[k].1),
    ensures
        members_doc(a) == members_doc(b),
    decreases a.len(),
{
    if a.len() > 0 {
        lemma_same_members(a.drop_last(), b.drop_last());
    }
}

impl Clone for JsonValue {
    fn clone(&self) -> (copy: JsonValue)
        ensures
            copy@ == self@,
    {
        self.duplicate()
    }
}

} // verus!
