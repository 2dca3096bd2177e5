//! The invitee after it received an invitation.

use vstd::prelude::*;
use vstd::std_specs::convert::FromSpecImpl;
use vstd::string::StringExecFns;

use crate::did_doc::{invitation_did_doc, DidDoc};
use crate::messages::connection::invite::{Invitation, InvitationView};
use crate::messages::connection::problem_report::ProblemReport;
use crate::messages::connection::request::Request;
use crate::protocols::connection::invitee::states::initial::InitialState;
use crate::protocols::connection::invitee::states::requested::RequestedState;
use crate::utils::codec::{member_doc, values_are_read_back};
use crate::utils::json::{JsonDoc, JsonValue};

verus! {

/// An invitation arrived; no request was sent yet.
#[derive(Debug, Clone, PartialEq)]
pub struct InvitedState {
    pub invitation: Invitation,
}

impl From<(InvitedState, Request)> for RequestedState {
    fn from(pair: (InvitedState, Request)) -> (requested: RequestedState) {
        let (state, request) = pair;
        RequestedState { request, did_doc: DidDoc::from(state.invitation) }
    }
}

impl FromSpecImpl<(InvitedState, Request)> for RequestedState {
    open spec fn obeys_from_spec() -> bool {
        true
    }

    /// The request is stored, and the relationship document of the inviter is
    /// derived from the invitation, which is not kept otherwise.
    open spec fn from_spec(pair: (InvitedState, Request)) -> RequestedState {
        RequestedState { request: pair.1, did_doc: invitation_did_doc(pair.0.invitation) }
    }
}

impl From<(InvitedState, ProblemReport)> for InitialState {
    fn from(pair: (InvitedState, ProblemReport)) -> (initial: InitialState) {
        let (_state, problem_report) = pair;
        InitialState::new(Some(problem_report))
    }
}

impl FromSpecImpl<(InvitedState, ProblemReport)> for InitialState {
    open spec fn obeys_from_spec() -> bool {
        true
    }

    /// Only the report is kept.
    open spec fn from_spec(pair: (InvitedState, ProblemReport)) -> InitialState {
        InitialState { problem_report: Some(pair.1) }
    }
}

/// What a `InvitedState` is: its value, with texts as sequences of characters.
pub struct InvitedStateView {
    pub invitation: InvitationView,
}

impl View for InvitedState {
    type V = InvitedStateView;

    open spec fn view(&self) -> InvitedStateView {
        InvitedStateView {
            invitation: self.invitation@,
        }
    }
}

impl DeepView for InvitedState {
    type V = InvitedStateView;

    open spec fn deep_view(&self) -> InvitedStateView {
        self@
    }
}

impl InvitedStateView {
    /// The document in which the state is persisted.
    pub open spec fn to_doc(self) -> JsonDoc {
        JsonDoc::Object(
            Map::<Seq<char>, JsonDoc>::empty().insert(
                "invitation"@,
                self.invitation.to_doc(),
            ),
        )
    }

    /// The state that a document persists: an object whose members hold it.
    pub open spec fn from_doc(document: JsonDoc) -> Option<InvitedStateView> {
        if document is Object
            && InvitationView::from_doc(document.member("invitation"@)) is Some {
            Some(
                InvitedStateView {
                    invitation: InvitationView::from_doc(document.member("invitation"@))->0,
                },
            )
        } else {
            None
        }
    }

    /// What was persisted is what is read back.
    pub proof fn read_back(self)
        ensures
            InvitedStateView::from_doc(self.to_doc()) == Some(self),
            self.to_doc() is Object,
    {
        reveal_strlit("invitation");
        assert("invitation"@.len() == 10);
        values_are_read_back();
        self.invitation.read_back();
    }
}

impl InvitedState {
    /// Writes the state as a document.
    pub fn to_document(&self) -> (document: JsonValue)
        ensures
            document@ == self@.to_doc(),
    {
        let mut document = JsonValue::object();
        document.insert(String::from_str("invitation"), self.invitation.to_document());
        document
    }

    /// Reads the state from a document.
    pub fn from_document(document: &JsonValue) -> (read: Option<InvitedState>)
        ensures
            match InvitedStateView::from_doc(document@) {
                Some(view) => read is Some && read->0@ == view,
                None => read is None,
            },
    {
        if !document.is_object() {
            return None;
        }
        let invitation = match Invitation::read(document.get("invitation")) {
            Some(value) => value,
            None => {
                return None;
            },
        };
        Some(InvitedState { invitation })
    }

    /// Reads the state from a member that may be missing.
    pub fn read(member: Option<&JsonValue>) -> (read: Option<InvitedState>)
        ensures
            match InvitedStateView::from_doc(member_doc(member)) {
                Some(view) => read is Some && read->0@ == view,
                None => read is None,
            },
    {
        match member {
            Some(document) => InvitedState::from_document(document),
            None => None,
        }
    }
}

} // verus!
