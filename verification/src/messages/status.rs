//! How a conversation ended.

use vstd::prelude::*;
use vstd::string::StringExecFns;

use crate::error::{VcxError, VcxErrorView};
use crate::messages::error::{ProblemReport, ProblemReportView};
use crate::utils::codec::member_doc;
use crate::utils::json::{JsonDoc, JsonValue};

verus! {

/// The outcome recorded in a terminal state: the protocol completed, the
/// counterpart declined, or the protocol failed.
#[derive(Clone, Debug, PartialEq)]
pub enum Status {
    Success,
    Declined(ProblemReport),
    Failed(VcxError),
}

impl Status {
    /// The number under which the outcome is reported: 1 for success, 2 for
    /// failure, 3 for a decline.
    pub fn code(&self) -> (code: u32)
        ensures
            code == match self {
                Status::Success => 1u32,
                Status::Failed(_) => 2u32,
                Status::Declined(_) => 3u32,
            },
    {
        match self {
            Status::Success => 1,
            Status::Failed(_) => 2,
            Status::Declined(_) => 3,
        }
    }
}

/// What a `Status` is: its value, with texts as sequences of characters.
pub enum StatusView {
    Success,
    Declined(ProblemReportView),
    Failed(VcxErrorView),
}

impl View for Status {
    type V = StatusView;

    open spec fn view(&self) -> StatusView {
        match self {
            Status::Success => StatusView::Success,
            Status::Declined(inner) => StatusView::Declined(inner@),
            Status::Failed(inner) => StatusView::Failed(inner@),
        }
    }
}

impl DeepView for Status {
    type V = StatusView;

    open spec fn deep_view(&self) -> StatusView {
        self@
    }
}

impl StatusView {
    /// The document in which the outcome is persisted: an object with one member,
    /// named after the variant.
    pub open spec fn to_doc(self) -> JsonDoc {
        match self {
            StatusView::Success => JsonDoc::Object(
                Map::<Seq<char>, JsonDoc>::empty().insert("Success"@, JsonDoc::Null),
            ),
            StatusView::Declined(inner) => JsonDoc::Object(
                Map::<Seq<char>, JsonDoc>::empty().insert("Declined"@, inner.to_doc()),
            ),
            StatusView::Failed(inner) => JsonDoc::Object(
                Map::<Seq<char>, JsonDoc>::empty().insert("Failed"@, inner.to_doc()),
            ),
        }
    }

    /// The outcome that a document persists: the first variant, in the order of
    /// their declaration, after which a member is named decides.
    pub open spec fn from_doc(document: JsonDoc) -> Option<StatusView> {
        match document {
            JsonDoc::Object(members) => if members.contains_key("Success"@) {
                Some(StatusView::Success)
            } else if members.contains_key("Declined"@) {
                match ProblemReportView::from_doc(members["Declined"@]) {
                    Some(inner) => Some(StatusView::Declined(inner)),
                    None => None,
                }
            } else if members.contains_key("Failed"@) {
                match VcxErrorView::from_doc(members["Failed"@]) {
                    Some(inner) => Some(StatusView::Failed(inner)),
                    None => None,
                }
            } else {
                None
            },
            _ => None,
        }
    }

    /// What was persisted is what is read back.
    pub proof fn read_back(self)
        ensures
            StatusView::from_doc(self.to_doc()) == Some(self),
            self.to_doc() is Object,
    {
        reveal_strlit("Success");
        reveal_strlit("Declined");
        reveal_strlit("Failed");
        assert("Success"@.len() == 7);
        assert("Declined"@.len() == 8);
        assert("Failed"@.len() == 6);
        match self {
            StatusView::Success => {},
            StatusView::Declined(inner) => {
                inner.read_back();
            },
            StatusView::Failed(inner) => {
                inner.read_back();
            },
        }
    }
}

impl Status {
    /// Writes the outcome as a document.
    pub fn to_document(&self) -> (document: JsonValue)
        ensures
            document@ == self@.to_doc(),
    {
        let mut document = JsonValue::object();
        match self {
            Status::Success => {
                document.insert(String::from_str("Success"), JsonValue::Null);
            },
            Status::Declined(inner) => {
                document.insert(String::from_str("Declined"), inner.to_document());
            },
            Status::Failed(inner) => {
                document.insert(String::from_str("Failed"), inner.to_document());
            },
        }
        document
    }

    /// Reads the outcome from a document.
    pub fn from_document(document: &JsonValue) -> (read: Option<Status>)
        ensures
            match StatusView::from_doc(document@) {
                Some(view) => read is Some && read->0@ == view,
                None => read is None,
            },
    {
        if !document.is_object() {
            return None;
        }
        match document.get("Success") {
            Some(_) => {
                return Some(Status::Success);
            },
            None => {},
        }
        match document.get("Declined") {
            Some(inner) => {
                return match ProblemReport::from_document(inner) {
                    Some(inner) => Some(Status::Declined(inner)),
                    None => None,
                };
            },
            None => {},
        }
        match document.get("Failed") {
            Some(inner) => {
                return match VcxError::from_document(inner) {
                    Some(inner) => Some(Status::Failed(inner)),
                    None => None,
                };
            },
            None => {},
        }
        None
    }

    /// Reads the outcome from a member that may be missing.
    pub fn read(member: Option<&JsonValue>) -> (read: Option<Status>)
        ensures
            match StatusView::from_doc(member_doc(member)) {
                Some(view) => read is Some && read->0@ == view,
                None => read is None,
            },
    {
        match member {
            Some(document) => Status::from_document(document),
            None => None,
        }
    }
}

} // verus!
