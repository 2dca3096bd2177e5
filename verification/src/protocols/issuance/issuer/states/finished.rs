//! The issuer once the issuance ended.

use vstd::prelude::*;
use vstd::string::StringExecFns;

use crate::messages::error::ProblemReport;
use crate::messages::status::{Status, StatusView};
use crate::utils::codec::{
    as_opt_text, member_doc, opt_text_doc, read_opt_text, values_are_read_back, write_opt_text,
};
use crate::utils::json::{JsonDoc, JsonValue};
use crate::utils::text::opt_text;

verus! {

/// The issuance ended: the credential was delivered, or the holder declined.
#[derive(Debug, Clone, PartialEq)]
pub struct FinishedState {
    pub cred_id: Option<String>,
    pub status: Status,
}

impl FinishedState {
    /// The state of an issuance that was declined with `problem_report`: no
    /// credential is recorded.
    pub open spec fn declined(problem_report: ProblemReport) -> FinishedState {
        FinishedState { cred_id: None, status: Status::Declined(problem_report) }
    }
}

/// What a `FinishedState` is: its value, with texts as sequences of characters.
pub struct FinishedStateView {
    pub cred_id: Option<Seq<char>>,
    pub status: StatusView,
}

impl View for FinishedState {
    type V = FinishedStateView;

    open spec fn view(&self) -> FinishedStateView {
        FinishedStateView {
            cred_id: opt_text(self.cred_id),
            status: self.status@,
        }
    }
}

impl DeepView for FinishedState {
    type V = FinishedStateView;

    open spec fn deep_view(&self) -> FinishedStateView {
        self@
    }
}

impl FinishedStateView {
    /// The document in which the state is persisted.
    pub open spec fn to_doc(self) -> JsonDoc {
        JsonDoc::Object(
            Map::<Seq<char>, JsonDoc>::empty().insert(
                "cred_id"@,
                opt_text_doc(self.cred_id),
            ).insert(
                "status"@,
                self.status.to_doc(),
            ),
        )
    }

    /// The state that a document persists: an object whose members hold it.
    pub open spec fn from_doc(document: JsonDoc) -> Option<FinishedStateView> {
        if document is Object
            && as_opt_text(document.member("cred_id"@)) is Some
            && StatusView::from_doc(document.member("status"@)) is Some {
            Some(
                FinishedStateView {
                    cred_id: as_opt_text(document.member("cred_id"@))->0,
                    status: StatusView::from_doc(document.member("status"@))->0,
                },
            )
        } else {
            None
        }
    }

    /// What was persisted is what is read back.
    pub proof fn read_back(self)
        ensures
            FinishedStateView::from_doc(self.to_doc()) == Some(self),
            self.to_doc() is Object,
    {
        reveal_strlit("cred_id");
        reveal_strlit("status");
        assert("cred_id"@.len() == 7);
        assert("status"@.len() == 6);
        values_are_read_back();
        self.status.read_back();
    }
}

impl FinishedState {
    /// Writes the state as a document.
    pub fn to_document(&self) -> (document: JsonValue)
        ensures
            document@ == self@.to_doc(),
    {
        let mut document = JsonValue::object();
        document.insert(String::from_str("cred_id"), write_opt_text(&self.cred_id));
        document.insert(String::from_str("status"), self.status.to_document());
        document
    }

    /// Reads the state from a document.
    pub fn from_document(document: &JsonValue) -> (read: Option<FinishedState>)
        ensures
            match FinishedStateView::from_doc(document@) {
                Some(view) => read is Some && read->0@ == view,
                None => read is None,
            },
    {
        if !document.is_object() {
            return None;
        }
        let cred_id = match read_opt_text(document.get("cred_id")) {
            Some(value) => value,
            None => {
                return None;
            },
        };
        let status = match Status::read(document.get("status")) {
            Some(value) => value,
            None => {
                return None;
            },
        };
        Some(FinishedState { cred_id, status })
    }

    /// Reads the state from a member that may be missing.
    pub fn read(member: Option<&JsonValue>) -> (read: Option<FinishedState>)
        ensures
            match FinishedStateView::from_doc(member_doc(member)) {
                Some(view) => read is Some && read->0@ == view,
                None => read is None,
            },
    {
        match member {
            Some(document) => FinishedState::from_document(document),
            None => None,
        }
    }
}

} // verus!
