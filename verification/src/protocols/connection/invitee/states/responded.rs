//! The invitee after the response arrived.

use vstd::prelude::*;
use vstd::std_specs::convert::FromSpecImpl;
use vstd::string::StringExecFns;

use crate::did_doc::{DidDoc, DidDocView};
use crate::messages::connection::problem_report::ProblemReport;
use crate::messages::connection::request::{Request, RequestView};
use crate::messages::connection::response::{Response, ResponseView};
use crate::protocols::connection::invitee::states::complete::CompleteState;
use crate::protocols::connection::invitee::states::initial::InitialState;
use crate::utils::codec::{member_doc, values_are_read_back};
use crate::utils::json::{JsonDoc, JsonValue};

verus! {

/// The response arrived; the connection waits to be confirmed.
#[derive(Debug, Clone, PartialEq)]
pub struct RespondedState {
    pub response: Response,
    pub did_doc: DidDoc,
    pub request: Request,
}

impl From<(RespondedState, ProblemReport)> for InitialState {
    fn from(pair: (RespondedState, ProblemReport)) -> (initial: InitialState) {
        let (_state, problem_report) = pair;
        InitialState::new(Some(problem_report))
    }
}

impl FromSpecImpl<(RespondedState, ProblemReport)> for InitialState {
    open spec fn obeys_from_spec() -> bool {
        true
    }

    /// Only the report is kept.
    open spec fn from_spec(pair: (RespondedState, ProblemReport)) -> InitialState {
        InitialState { problem_report: Some(pair.1) }
    }
}

impl From<RespondedState> for CompleteState {
    /// The inviter's document is carried over, the thread of the response
    /// becomes the thread of the connection, and no protocols are known yet.
    fn from(state: RespondedState) -> (complete: CompleteState)
        ensures
            complete.did_doc == state.did_doc,
            complete.thread_id is Some,
            complete.thread_id->0@ == state.response.thread@.thid.unwrap_or(Seq::empty()),
            complete.protocols is None,
    {
        let thread_id = state.response.get_thread_id();
        CompleteState { did_doc: state.did_doc, thread_id: Some(thread_id), protocols: None }
    }
}

impl FromSpecImpl<RespondedState> for CompleteState {
    open spec fn obeys_from_spec() -> bool {
        false
    }

    open spec fn from_spec(state: RespondedState) -> CompleteState {
        arbitrary()
    }
}

/// What a `RespondedState` is: its value, with texts as sequences of characters.
pub struct RespondedStateView {
    pub response: ResponseView,
    pub did_doc: DidDocView,
    pub request: RequestView,
}

impl View for RespondedState {
    type V = RespondedStateView;

    open spec fn view(&self) -> RespondedStateView {
        RespondedStateView {
            response: self.response@,
            did_doc: self.did_doc@,
            request: self.request@,
        }
    }
}

impl DeepView for RespondedState {
    type V = RespondedStateView;

    open spec fn deep_view(&self) -> RespondedStateView {
        self@
    }
}

impl RespondedStateView {
    /// The document in which the state is persisted.
    pub open spec fn to_doc(self) -> JsonDoc {
        JsonDoc::Object(
            Map::<Seq<char>, JsonDoc>::empty().insert(
                "response"@,
                self.response.to_doc(),
            ).insert(
                "did_doc"@,
                self.did_doc.to_doc(),
            ).insert(
                "request"@,
                self.request.to_doc(),
            ),
        )
    }

    /// The state that a document persists: an object whose members hold it.
    pub open spec fn from_doc(document: JsonDoc) -> Option<RespondedStateView> {
        if document is Object
            && ResponseView::from_doc(document.member("response"@)) is Some
            && DidDocView::from_doc(document.member("did_doc"@)) is Some
            && RequestView::from_doc(document.member("request"@)) is Some {
            Some(
                RespondedStateView {
                    response: ResponseView::from_doc(document.member("response"@))->0,
                    did_doc: DidDocView::from_doc(document.member("did_doc"@))->0,
                    request: RequestView::from_doc(document.member("request"@))->0,
                },
            )
        } else {
            None
        }
    }

    /// What was persisted is what is read back.
    pub proof fn read_back(self)
        ensures
            RespondedStateView::from_doc(self.to_doc()) == Some(self),
            self.to_doc() is Object,
    {
        reveal_strlit("response");
        reveal_strlit("did_doc");
        reveal_strlit("request");
        assert("response"@.len() == 8);
        assert("did_doc"@.len() == 7);
        assert("request"@.len() == 7);
        assert("did_doc"@[0] != "request"@[0]);
        values_are_read_back();
        self.response.read_back();
        self.did_doc.read_back();
        self.request.read_back();
    }
}

impl RespondedState {
    /// Writes the state as a document.
    pub fn to_document(&self) -> (document: JsonValue)
        ensures
            document@ == self@.to_doc(),
    {
        let mut document = JsonValue::object();
        document.insert(String::from_str("response"), self.response.to_document());
        document.insert(String::from_str("did_doc"), self.did_doc.to_document());
        document.insert(String::from_str("request"), self.request.to_document());
        document
    }

    /// Reads the state from a document.
    pub fn from_document(document: &JsonValue) -> (read: Option<RespondedState>)
        ensures
            match RespondedStateView::from_doc(document@) {
                Some(view) => read is Some && read->0@ == view,
                None => read is None,
            },
    {
        if !document.is_object() {
            return None;
        }
        let response = match Response::read(document.get("response")) {
            Some(value) => value,
            None => {
                return None;
            },
        };
        let did_doc = match DidDoc::read(document.get("did_doc")) {
            Some(value) => value,
            None => {
                return None;
            },
        };
        let request = match Request::read(document.get("request")) {
            Some(value) => value,
            None => {
                return None;
            },
        };
        Some(RespondedState { response, did_doc, request })
    }

    /// Reads the state from a member that may be missing.
    pub fn read(member: Option<&JsonValue>) -> (read: Option<RespondedState>)
        ensures
            match RespondedStateView::from_doc(member_doc(member)) {
                Some(view) => read is Some && read->0@ == view,
                None => read is None,
            },
    {
        match member {
            Some(document) => RespondedState::from_document(document),
            None => None,
        }
    }
}

} // verus!
