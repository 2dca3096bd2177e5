//! The invitee after its request went out.

use vstd::prelude::*;
use vstd::std_specs::convert::FromSpecImpl;
use vstd::string::StringExecFns;

use crate::did_doc::{DidDoc, DidDocView};
use crate::messages::connection::problem_report::ProblemReport;
use crate::messages::connection::request::{Request, RequestView};
use crate::messages::connection::response::Response;
use crate::protocols::connection::invitee::states::initial::InitialState;
use crate::protocols::connection::invitee::states::responded::RespondedState;
use crate::utils::codec::{member_doc, values_are_read_back};
use crate::utils::json::{JsonDoc, JsonValue};

verus! {

/// The request is out; the response is awaited. The document is the one
/// derived from the invitation.
#[derive(Debug, Clone, PartialEq)]
pub struct RequestedState {
    pub request: Request,
    pub did_doc: DidDoc,
}

impl From<(RequestedState, Response)> for RespondedState {
    /// The response and the request are stored, and the relationship document
    /// that the response carries replaces the one derived from the
    /// invitation.
    fn from(pair: (RequestedState, Response)) -> (responded: RespondedState)
        ensures
            responded.response == pair.1,
            responded.request == pair.0.request,
            responded.did_doc@ == pair.1.connection.did_doc@,
    {
        let (state, response) = pair;
        let did_doc = response.connection.did_doc.duplicate();
        RespondedState { response, did_doc, request: state.request }
    }
}

impl FromSpecImpl<(RequestedState, Response)> for RespondedState {
    open spec fn obeys_from_spec() -> bool {
        false
    }

    open spec fn from_spec(pair: (RequestedState, Response)) -> RespondedState {
        arbitrary()
    }
}

impl From<(RequestedState, ProblemReport)> for InitialState {
    fn from(pair: (RequestedState, ProblemReport)) -> (initial: InitialState) {
        let (_state, problem_report) = pair;
        InitialState::new(Some(problem_report))
    }
}

impl FromSpecImpl<(RequestedState, ProblemReport)> for InitialState {
    open spec fn obeys_from_spec() -> bool {
        true
    }

    /// Only the report is kept.
    open spec fn from_spec(pair: (RequestedState, ProblemReport)) -> InitialState {
        InitialState { problem_report: Some(pair.1) }
    }
}

/// What a `RequestedState` is: its value, with texts as sequences of characters.
pub struct RequestedStateView {
    pub request: RequestView,
    pub did_doc: DidDocView,
}

impl View for RequestedState {
    type V = RequestedStateView;

    open spec fn view(&self) -> RequestedStateView {
        RequestedStateView {
            request: self.request@,
            did_doc: self.did_doc@,
        }
    }
}

impl DeepView for RequestedState {
    type V = RequestedStateView;

    open spec fn deep_view(&self) -> RequestedStateView {
        self@
    }
}

impl RequestedStateView {
    /// The document in which the state is persisted.
    pub open spec fn to_doc(self) -> JsonDoc {
        JsonDoc::Object(
            Map::<Seq<char>, JsonDoc>::empty().insert(
                "request"@,
                self.request.to_doc(),
            ).insert(
                "did_doc"@,
                self.did_doc.to_doc(),
            ),
        )
    }

    /// The state that a document persists: an object whose members hold it.
    pub open spec fn from_doc(document: JsonDoc) -> Option<RequestedStateView> {
        if document is Object
            && RequestView::from_doc(document.member("request"@)) is Some
            && DidDocView::from_doc(document.member("did_doc"@)) is Some {
            Some(
                RequestedStateView {
                    request: RequestView::from_doc(document.member("request"@))->0,
                    did_doc: DidDocView::from_doc(document.member("did_doc"@))->0,
                },
            )
        } else {
            None
        }
    }

    /// What was persisted is what is read back.
    pub proof fn read_back(self)
        ensures
            RequestedStateView::from_doc(self.to_doc()) == Some(self),
            self.to_doc() is Object,
    {
        reveal_strlit("request");
        reveal_strlit("did_doc");
        assert("request"@.len() == 7);
        assert("did_doc"@.len() == 7);
        assert("request"@[0] != "did_doc"@[0]);
        values_are_read_back();
        self.request.read_back();
        self.did_doc.read_back();
    }
}

impl RequestedState {
    /// Writes the state as a document.
    pub fn to_document(&self) -> (document: JsonValue)
        ensures
            document@ == self@.to_doc(),
    {
        let mut document = JsonValue::object();
        document.insert(String::from_str("request"), self.request.to_document());
        document.insert(String::from_str("did_doc"), self.did_doc.to_document());
        document
    }

    /// Reads the state from a document.
    pub fn from_document(document: &JsonValue) -> (read: Option<RequestedState>)
        ensures
            match RequestedStateView::from_doc(document@) {
                Some(view) => read is Some && read->0@ == view,
                None => read is None,
            },
    {
        if !document.is_object() {
            return None;
        }
        let request = match Request::read(document.get("request")) {
            Some(value) => value,
            None => {
                return None;
            },
        };
        let did_doc = match DidDoc::read(document.get("did_doc")) {
            Some(value) => value,
            None => {
                return None;
            },
        };
        Some(RequestedState { request, did_doc })
    }

    /// Reads the state from a member that may be missing.
    pub fn read(member: Option<&JsonValue>) -> (read: Option<RequestedState>)
        ensures
            match RequestedStateView::from_doc(member_doc(member)) {
                Some(view) => read is Some && read->0@ == view,
                None => read is None,
            },
    {
        match member {
            Some(document) => RequestedState::from_document(document),
            None => None,
        }
    }
}

} // verus!
