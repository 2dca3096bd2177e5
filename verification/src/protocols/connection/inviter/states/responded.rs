//! The inviter after its response went out.

use vstd::prelude::*;
use vstd::std_specs::convert::FromSpecImpl;
use vstd::string::StringExecFns;

use crate::did_doc::{DidDoc, DidDocView};
use crate::messages::connection::problem_report::ProblemReport;
use crate::messages::connection::response::{SignedResponse, SignedResponseView};
use crate::protocols::connection::inviter::states::complete::CompleteState;
use crate::protocols::connection::inviter::states::initial::InitialState;
use crate::utils::codec::{member_doc, values_are_read_back};
use crate::utils::json::{JsonDoc, JsonValue};

verus! {

/// The response is out; the connection waits to be confirmed.
#[derive(Debug, Clone, PartialEq)]
pub struct RespondedState {
    pub signed_response: SignedResponse,
    pub did_doc: DidDoc,
}

impl From<(RespondedState, ProblemReport)> for InitialState {
    fn from(pair: (RespondedState, ProblemReport)) -> (initial: InitialState) {
        let (_state, problem_report) = pair;
        InitialState::new(Some(problem_report))
    }
}

impl FromSpecImpl<(RespondedState, ProblemReport)> for InitialState {
    open spec fn obeys_from_spec() -> bool {
        true
    }

    /// Only the report is kept.
    open spec fn from_spec(pair: (RespondedState, ProblemReport)) -> InitialState {
        InitialState { problem_report: Some(pair.1) }
    }
}

impl From<RespondedState> for CompleteState {
    /// The counterpart's document is carried over, the thread of the signed
    /// response becomes the thread of the connection, and no protocols are
    /// known yet.
    fn from(state: RespondedState) -> (complete: CompleteState)
        ensures
            complete.did_doc == state.did_doc,
            complete.thread_id is Some,
            complete.thread_id->0@ == state.signed_response.thread@.thid.unwrap_or(Seq::empty()),
            complete.protocols is None,
    {
        let thread_id = state.signed_response.get_thread_id();
        CompleteState { did_doc: state.did_doc, thread_id: Some(thread_id), protocols: None }
    }
}

impl FromSpecImpl<RespondedState> for CompleteState {
    open spec fn obeys_from_spec() -> bool {
        false
    }

    open spec fn from_spec(state: RespondedState) -> CompleteState {
        arbitrary()
    }
}

/// What a `RespondedState` is: its value, with texts as sequences of characters.
pub struct RespondedStateView {
    pub signed_response: SignedResponseView,
    pub did_doc: DidDocView,
}

impl View for RespondedState {
    type V = RespondedStateView;

    open spec fn view(&self) -> RespondedStateView {
        RespondedStateView {
            signed_response: self.signed_response@,
            did_doc: self.did_doc@,
        }
    }
}

impl DeepView for RespondedState {
    type V = RespondedStateView;

    open spec fn deep_view(&self) -> RespondedStateView {
        self@
    }
}

impl RespondedStateView {
    /// The document in which the state is persisted.
    pub open spec fn to_doc(self) -> JsonDoc {
        JsonDoc::Object(
            Map::<Seq<char>, JsonDoc>::empty().insert(
                "signed_response"@,
                self.signed_response.to_doc(),
            ).insert(
                "did_doc"@,
                self.did_doc.to_doc(),
            ),
        )
    }

    /// The state that a document persists: an object whose members hold it.
    pub open spec fn from_doc(document: JsonDoc) -> Option<RespondedStateView> {
        if document is Object
            && SignedResponseView::from_doc(document.member("signed_response"@)) is Some
            && DidDocView::from_doc(document.member("did_doc"@)) is Some {
            Some(
                RespondedStateView {
                    signed_response: SignedResponseView::from_doc(
                        document.member("signed_response"@),
                    )->0,
                    did_doc: DidDocView::from_doc(document.member("did_doc"@))->0,
                },
            )
        } else {
            None
        }
    }

    /// What was persisted is what is read back.
    pub proof fn read_back(self)
        ensures
            RespondedStateView::from_doc(self.to_doc()) == Some(self),
            self.to_doc() is Object,
    {
        reveal_strlit("signed_response");
        reveal_strlit("did_doc");
        assert("signed_response"@.len() == 15);
        assert("did_doc"@.len() == 7);
        values_are_read_back();
        self.signed_response.read_back();
        self.did_doc.read_back();
    }
}

impl RespondedState {
    /// Writes the state as a document.
    pub fn to_document(&self) -> (document: JsonValue)
        ensures
            document@ == self@.to_doc(),
    {
        let mut document = JsonValue::object();
        document.insert(String::from_str("signed_response"), self.signed_response.to_document());
        document.insert(String::from_str("did_doc"), self.did_doc.to_document());
        document
    }

    /// Reads the state from a document.
    pub fn from_document(document: &JsonValue) -> (read: Option<RespondedState>)
        ensures
            match RespondedStateView::from_doc(document@) {
                Some(view) => read is Some && read->0@ == view,
                None => read is None,
            },
    {
        if !document.is_object() {
            return None;
        }
        let signed_response = match SignedResponse::read(document.get("signed_response")) {
            Some(value) => value,
            None => {
                return None;
            },
        };
        let did_doc = match DidDoc::read(document.get("did_doc")) {
            Some(value) => value,
            None => {
                return None;
            },
        };
        Some(RespondedState { signed_response, did_doc })
    }

    /// Reads the state from a member that may be missing.
    pub fn read(member: Option<&JsonValue>) -> (read: Option<RespondedState>)
        ensures
            match RespondedStateView::from_doc(member_doc(member)) {
                Some(view) => read is Some && read->0@ == view,
                None => read is None,
            },
    {
        match member {
            Some(document) => RespondedState::from_document(document),
            None => None,
        }
    }
}

} // verus!
