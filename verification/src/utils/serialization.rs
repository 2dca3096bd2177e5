//! The layout in which objects are persisted: a document with the version of
//! the layout and, under it, the data of the object.

use vstd::prelude::*;
use vstd::string::StringExecFns;

use crate::error::{VcxError, VcxErrorKind, VcxResult};
use crate::utils::json::{json_parsed, json_text, JsonDoc, JsonValue};

verus! {

/// The version of the layout in which the protocol state machines are
/// persisted.
pub const SERIALIZE_VERSION: &'static str = "2.0";

/// An object as it is persisted: its data, tagged with the version of the
/// layout.
#[derive(Debug, Clone, PartialEq)]
pub struct ObjectWithVersion {
    pub version: String,
    pub data: JsonValue,
}

/// The document in which `data` is persisted under `version`.
pub open spec fn framed(version: Seq<char>, data: JsonDoc) -> JsonDoc {
    JsonDoc::Object(
        Map::<Seq<char>, JsonDoc>::empty().insert("version"@, JsonDoc::Text(version)).insert(
            "data"@,
            data,
        ),
    )
}

/// The version and the data that a persisted document holds: it must be an
/// object with a text as its version and with data; what else it holds does
/// not matter.
pub open spec fn unframed(document: JsonDoc) -> Option<(Seq<char>, JsonDoc)> {
    match document {
        JsonDoc::Object(members) => if members.contains_key("version"@)
            && members["version"@] is Text && members.contains_key("data"@) {
            Some((members["version"@]->Text_0, members["data"@]))
        } else {
            None
        },
        _ => None,
    }
}

/// What was persisted is what is read back: the version and the data of a
/// persisted document are the ones it was made of.
pub proof fn unframed_is_what_was_framed(version: Seq<char>, data: JsonDoc)
    ensures
        unframed(framed(version, data)) == Some((version, data)),
{
    reveal_strlit("version");
    reveal_strlit("data");
    assert("version"@ != "data"@) by {
        assert("version"@.len() != "data"@.len());
    }
}

impl ObjectWithVersion {
    /// The document in which the object is persisted.
    pub fn to_document(self) -> (document: JsonValue)
        ensures
            document@ == framed(self.version@, self.data@),
    {
        let mut document = JsonValue::object();
        document.insert(String::from_str("version"), JsonValue::String(self.version));
        document.insert(String::from_str("data"), self.data);
        document
    }

    /// The object that the document `document` persists, if it persists one.
    pub fn from_document(document: &JsonValue) -> (object: Option<ObjectWithVersion>)
        ensures
            match unframed(document@) {
                Some((version, data)) => object is Some && object->0.version@ == version
                    && object->0.data@ == data,
                None => object is None,
            },
    {
        let version = match document.get("version") {
            Some(member) => match member.as_str() {
                Some(text) => text.to_owned(),
                None => {
                    return None;
                },
            },
            None => {
                return None;
            },
        };
        match document.get("data") {
            Some(data) => Some(ObjectWithVersion { version, data: data.duplicate() }),
            None => None,
        }
    }

    /// The text in which the object is persisted.
    pub fn serialize(self) -> (text: String)
        ensures
            text@ == json_text(framed(self.version@, self.data@)),
    {
        self.to_document().to_text()
    }

    /// The object that the text `text` persists.
    ///
    /// Fails with `InvalidJson` where the text is no JSON or has not the
    /// layout of a persisted object.
    pub fn deserialize(text: &str) -> (object: VcxResult<ObjectWithVersion>)
        ensures
            match persisted_in(text@) {
                Some((version, data)) => object is Ok && object->Ok_0.version@ == version
                    && object->Ok_0.data@ == data,
                None => object is Err && object->Err_0.kind() == VcxErrorKind::InvalidJson,
            },
    {
        let object = match JsonValue::from_text(text) {
            Some(document) => ObjectWithVersion::from_document(&document),
            None => None,
        };
        match object {
            Some(object) => Ok(object),
            None => Err(
                VcxError::from_msg(VcxErrorKind::InvalidJson, "Cannot deserialize the object"),
            ),
        }
    }
}

/// The version and the data that a text persists.
pub open spec fn persisted_in(text: Seq<char>) -> Option<(Seq<char>, JsonDoc)> {
    match json_parsed(text) {
        Some(document) => unframed(document),
        None => None,
    }
}

} // verus!
