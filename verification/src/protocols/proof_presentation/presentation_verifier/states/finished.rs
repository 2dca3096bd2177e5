//! The verifier once the presentation ended.

use vstd::prelude::*;
use vstd::string::StringExecFns;

use crate::messages::proof_presentation::presentation::{Presentation, PresentationView};
use crate::messages::proof_presentation::presentation_request::{
    PresentationRequest, PresentationRequestView,
};
use crate::messages::status::{Status, StatusView};
use crate::utils::codec::{member_doc, values_are_read_back};
use crate::utils::json::{JsonDoc, JsonValue};

verus! {

/// The presentation ended: the request, the proof if one arrived, and how
/// it ended.
#[derive(Debug, Clone, PartialEq)]
pub struct FinishedState {
    pub presentation_request: PresentationRequest,
    pub presentation: Option<Presentation>,
    pub status: Status,
}

/// What a `FinishedState` is: its value, with texts as sequences of characters.
pub struct FinishedStateView {
    pub presentation_request: PresentationRequestView,
    pub presentation: Option<PresentationView>,
    pub status: StatusView,
}

impl View for FinishedState {
    type V = FinishedStateView;

    open spec fn view(&self) -> FinishedStateView {
        FinishedStateView {
            presentation_request: self.presentation_request@,
            presentation: self.presentation.deep_view(),
            status: self.status@,
        }
    }
}

impl DeepView for FinishedState {
    type V = FinishedStateView;

    open spec fn deep_view(&self) -> FinishedStateView {
        self@
    }
}

impl FinishedStateView {
    /// The document in which the state is persisted.
    pub open spec fn to_doc(self) -> JsonDoc {
        JsonDoc::Object(
            Map::<Seq<char>, JsonDoc>::empty().insert(
                "presentation_request"@,
                self.presentation_request.to_doc(),
            ).insert(
                "presentation"@,
                PresentationView::opt_to_doc(self.presentation),
            ).insert(
                "status"@,
                self.status.to_doc(),
            ),
        )
    }

    /// The state that a document persists: an object whose members hold it.
    pub open spec fn from_doc(document: JsonDoc) -> Option<FinishedStateView> {
        if document is Object
            && PresentationRequestView::from_doc(document.member("presentation_request"@)) is Some
            && PresentationView::opt_from_doc(document.member("presentation"@)) is Some
            && StatusView::from_doc(document.member("status"@)) is Some {
            Some(
                FinishedStateView {
                    presentation_request: PresentationRequestView::from_doc(
                        document.member("presentation_request"@),
                    )->0,
                    presentation: PresentationView::opt_from_doc(
                        document.member("presentation"@),
                    )->0,
                    status: StatusView::from_doc(document.member("status"@))->0,
                },
            )
        } else {
            None
        }
    }

    /// What was persisted is what is read back.
    pub proof fn read_back(self)
        ensures
            FinishedStateView::from_doc(self.to_doc()) == Some(self),
            self.to_doc() is Object,
    {
        reveal_strlit("presentation_request");
        reveal_strlit("presentation");
        reveal_strlit("status");
        assert("presentation_request"@.len() == 20);
        assert("presentation"@.len() == 12);
        assert("status"@.len() == 6);
        values_are_read_back();
        self.presentation_request.read_back();
        PresentationView::opt_read_back(self.presentation);
        self.status.read_back();
    }
}

impl FinishedState {
    /// Writes the state as a document.
    pub fn to_document(&self) -> (document: JsonValue)
        ensures
            document@ == self@.to_doc(),
    {
        let mut document = JsonValue::object();
        document.insert(
            String::from_str("presentation_request"),
            self.presentation_request.to_document(),
        );
        document.insert(
            String::from_str("presentation"),
            Presentation::write_opt(&self.presentation),
        );
        document.insert(String::from_str("status"), self.status.to_document());
        document
    }

    /// Reads the state from a document.
    pub fn from_document(document: &JsonValue) -> (read: Option<FinishedState>)
        ensures
            match FinishedStateView::from_doc(document@) {
                Some(view) => read is Some && read->0@ == view,
                None => read is None,
            },
    {
        if !document.is_object() {
            return None;
        }
        let presentation_request = match PresentationRequest::read(
            document.get("presentation_request"),
        ) {
            Some(value) => value,
            None => {
                return None;
            },
        };
        let presentation = match Presentation::read_opt(document.get("presentation")) {
            Some(value) => value,
            None => {
                return None;
            },
        };
        let status = match Status::read(document.get("status")) {
            Some(value) => value,
            None => {
                return None;
            },
        };
        Some(FinishedState { presentation_request, presentation, status })
    }

    /// Reads the state from a member that may be missing.
    pub fn read(member: Option<&JsonValue>) -> (read: Option<FinishedState>)
        ensures
            match FinishedStateView::from_doc(member_doc(member)) {
                Some(view) => read is Some && read->0@ == view,
                None => read is None,
            },
    {
        match member {
            Some(document) => FinishedState::from_document(document),
            None => None,
        }
    }
}

} // verus!
