//! The inviter after a request arrived.

use vstd::prelude::*;
use vstd::std_specs::convert::FromSpecImpl;
use vstd::string::StringExecFns;

use crate::did_doc::{DidDoc, DidDocView};
use crate::messages::connection::problem_report::ProblemReport;
use crate::messages::connection::response::{SignedResponse, SignedResponseView};
use crate::protocols::connection::inviter::states::initial::InitialState;
use crate::protocols::connection::inviter::states::responded::RespondedState;
use crate::utils::codec::{as_text, member_doc, read_text, values_are_read_back};
use crate::utils::json::{JsonDoc, JsonValue};

verus! {

/// A request arrived; the countersigned response is ready to be sent.
#[derive(Debug, Clone, PartialEq)]
pub struct RequestedState {
    pub signed_response: SignedResponse,
    pub did_doc: DidDoc,
    pub thread_id: String,
}

impl From<(RequestedState, ProblemReport)> for InitialState {
    fn from(pair: (RequestedState, ProblemReport)) -> (initial: InitialState) {
        let (_state, problem_report) = pair;
        InitialState::new(Some(problem_report))
    }
}

impl FromSpecImpl<(RequestedState, ProblemReport)> for InitialState {
    open spec fn obeys_from_spec() -> bool {
        true
    }

    /// Only the report is kept.
    open spec fn from_spec(pair: (RequestedState, ProblemReport)) -> InitialState {
        InitialState { problem_report: Some(pair.1) }
    }
}

impl From<RequestedState> for RespondedState {
    fn from(state: RequestedState) -> (responded: RespondedState) {
        RespondedState { signed_response: state.signed_response, did_doc: state.did_doc }
    }
}

impl FromSpecImpl<RequestedState> for RespondedState {
    open spec fn obeys_from_spec() -> bool {
        true
    }

    /// The response and the counterpart's document are carried over.
    open spec fn from_spec(state: RequestedState) -> RespondedState {
        RespondedState { signed_response: state.signed_response, did_doc: state.did_doc }
    }
}

/// What a `RequestedState` is: its value, with texts as sequences of characters.
pub struct RequestedStateView {
    pub signed_response: SignedResponseView,
    pub did_doc: DidDocView,
    pub thread_id: Seq<char>,
}

impl View for RequestedState {
    type V = RequestedStateView;

    open spec fn view(&self) -> RequestedStateView {
        RequestedStateView {
            signed_response: self.signed_response@,
            did_doc: self.did_doc@,
            thread_id: self.thread_id@,
        }
    }
}

impl DeepView for RequestedState {
    type V = RequestedStateView;

    open spec fn deep_view(&self) -> RequestedStateView {
        self@
    }
}

impl RequestedStateView {
    /// The document in which the state is persisted.
    pub open spec fn to_doc(self) -> JsonDoc {
        JsonDoc::Object(
            Map::<Seq<char>, JsonDoc>::empty().insert(
                "signed_response"@,
                self.signed_response.to_doc(),
            ).insert(
                "did_doc"@,
                self.did_doc.to_doc(),
            ).insert(
                "thread_id"@,
                JsonDoc::Text(self.thread_id),
            ),
        )
    }

    /// The state that a document persists: an object whose members hold it.
    pub open spec fn from_doc(document: JsonDoc) -> Option<RequestedStateView> {
        if document is Object
            && SignedResponseView::from_doc(document.member("signed_response"@)) is Some
            && DidDocView::from_doc(document.member("did_doc"@)) is Some
            && as_text(document.member("thread_id"@)) is Some {
            Some(
                RequestedStateView {
                    signed_response: SignedResponseView::from_doc(
                        document.member("signed_response"@),
                    )->0,
                    did_doc: DidDocView::from_doc(document.member("did_doc"@))->0,
                    thread_id: as_text(document.member("thread_id"@))->0,
                },
            )
        } else {
            None
        }
    }

    /// What was persisted is what is read back.
    pub proof fn read_back(self)
        ensures
            RequestedStateView::from_doc(self.to_doc()) == Some(self),
            self.to_doc() is Object,
    {
        reveal_strlit("signed_response");
        reveal_strlit("did_doc");
        reveal_strlit("thread_id");
        assert("signed_response"@.len() == 15);
        assert("did_doc"@.len() == 7);
        assert("thread_id"@.len() == 9);
        values_are_read_back();
        self.signed_response.read_back();
        self.did_doc.read_back();
    }
}

impl RequestedState {
    /// Writes the state as a document.
    pub fn to_document(&self) -> (document: JsonValue)
        ensures
            document@ == self@.to_doc(),
    {
        let mut document = JsonValue::object();
        document.insert(String::from_str("signed_response"), self.signed_response.to_document());
        document.insert(String::from_str("did_doc"), self.did_doc.to_document());
        document.insert(String::from_str("thread_id"), JsonValue::String(self.thread_id.clone()));
        document
    }

    /// Reads the state from a document.
    pub fn from_document(document: &JsonValue) -> (read: Option<RequestedState>)
        ensures
            match RequestedStateView::from_doc(document@) {
                Some(view) => read is Some && read->0@ == view,
                None => read is None,
            },
    {
        if !document.is_object() {
            return None;
        }
        let signed_response = match SignedResponse::read(document.get("signed_response")) {
            Some(value) => value,
            None => {
                return None;
            },
        };
        let did_doc = match DidDoc::read(document.get("did_doc")) {
            Some(value) => value,
            None => {
                return None;
            },
        };
        let thread_id = match read_text(document.get("thread_id")) {
            Some(value) => value,
            None => {
                return None;
            },
        };
        Some(RequestedState { signed_response, did_doc, thread_id })
    }

    /// Reads the state from a member that may be missing.
    pub fn read(member: Option<&JsonValue>) -> (read: Option<RequestedState>)
        ensures
            match RequestedStateView::from_doc(member_doc(member)) {
                Some(view) => read is Some && read->0@ == view,
                None => read is None,
            },
    {
        match member {
            Some(document) => RequestedState::from_document(document),
            None => None,
        }
    }
}

} // verus!
