//! The inviter's state machine.

use vstd::prelude::*;
use vstd::string::StringExecFns;

use crate::error::{VcxError, VcxErrorKind, VcxResult};
use crate::messages::connection::invite::Invitation;
use crate::messages::connection::problem_report::ProblemReport;
use crate::messages::connection::request::Request;
use crate::messages::connection::response::SignedResponse;
use crate::protocols::connection::inviter::states::complete::{CompleteState, CompleteStateView};
use crate::protocols::connection::inviter::states::initial::{InitialState, InitialStateView};
use crate::protocols::connection::inviter::states::invited::{InvitedState, InvitedStateView};
use crate::protocols::connection::inviter::states::requested::{RequestedState, RequestedStateView};
use crate::protocols::connection::inviter::states::responded::{RespondedState, RespondedStateView};
use crate::utils::codec::{member_doc, values_are_read_back};
use crate::utils::json::{json_text, JsonDoc, JsonValue};
use crate::utils::serialization::{
    framed, persisted_in, unframed, unframed_is_what_was_framed, ObjectWithVersion,
    SERIALIZE_VERSION,
};
use crate::messages::thread::{Thread, ThreadView};
use crate::protocols::conversation::Correlated;
use crate::utils::text::{clone_opt_text, opt_text, text_eq};

verus! {

/// The state an inviter is in.
#[derive(Debug, Clone, PartialEq)]
pub enum InviterFullState {
    Initial(InitialState),
    Invited(InvitedState),
    Requested(RequestedState),
    Responded(RespondedState),
    Completed(CompleteState),
}

/// What can happen to an inviter.
#[derive(Debug, Clone, PartialEq)]
pub enum InviterEvent {
    /// The invitation was made and handed out.
    Invitation(Invitation),
    /// A request arrived; the second part is the response that was
    /// countersigned for it.
    Request(Request, SignedResponse),
    /// The response was sent.
    ResponseSent,
    /// The invitee confirmed the connection; the confirmation carried this
    /// thread.
    Ack(Thread),
    /// A problem report arrived.
    ProblemReport(ProblemReport),
}

/// The thread of the connection in a state: none until a request arrived,
/// then the thread of the request, of the signed response, and the one under
/// which the connection was made.
pub open spec fn thread_of(state: InviterFullState) -> Option<Seq<char>> {
    match state {
        InviterFullState::Initial(_) => None,
        InviterFullState::Invited(_) => None,
        InviterFullState::Requested(requested) => Some(requested.thread_id@),
        InviterFullState::Responded(responded) => Some(
            responded.signed_response.thread@.thid.unwrap_or(Seq::empty()),
        ),
        InviterFullState::Completed(completed) => opt_text(completed.thread_id),
    }
}

/// Whether a message that carries the thread `carried` belongs to the
/// connection in the state `state`: it names the thread of the connection,
/// or the connection has no thread yet.
pub open spec fn on_thread(state: InviterFullState, carried: ThreadView) -> bool {
    match thread_of(state) {
        Some(thread_id) => carried.thid.unwrap_or(Seq::empty()) == thread_id,
        None => true,
    }
}

/// What an event does to a state: the kind of failure with which it is
/// rejected, or nothing where it is accepted.
///
/// A problem report is accepted in every state, unless it names another
/// thread than that of the connection. Each other event is accepted in one
/// state only: a request only together with a response on the thread of that
/// request, and a confirmation only on the thread of the response.
pub open spec fn rejection(state: InviterFullState, event: InviterEvent) -> Option<VcxErrorKind> {
    match (state, event) {
        (_, InviterEvent::ProblemReport(report)) => if on_thread(state, report.thread@) {
            None
        } else {
            Some(VcxErrorKind::InvalidThread)
        },
        (InviterFullState::Initial(_), InviterEvent::Invitation(_)) => None,
        (InviterFullState::Invited(_), InviterEvent::Request(request, signed_response)) => {
            if signed_response.thread@.thid.unwrap_or(Seq::empty()) == request.spec_thread_id() {
                None
            } else {
                Some(VcxErrorKind::InvalidThread)
            }
        },
        (InviterFullState::Requested(_), InviterEvent::ResponseSent) => None,
        (InviterFullState::Responded(_), InviterEvent::Ack(thread)) => if on_thread(
            state,
            thread@,
        ) {
            None
        } else {
            Some(VcxErrorKind::InvalidThread)
        },
        _ => Some(VcxErrorKind::InvalidState),
    }
}

/// Whether `next` is the state that an accepted event leads to: it holds what
/// the transition carries over, and nothing else.
pub open spec fn reaches(state: InviterFullState, event: InviterEvent, next: InviterFullState)
    -> bool {
    match (state, event) {
        (_, InviterEvent::ProblemReport(report)) => next == InviterFullState::Initial(
            InitialState { problem_report: Some(report) },
        ),
        (InviterFullState::Initial(_), InviterEvent::Invitation(invitation)) => next
            == InviterFullState::Invited(InvitedState { invitation }),
        (InviterFullState::Invited(_), InviterEvent::Request(request, signed_response)) => {
            &&& next is Requested
            &&& next->Requested_0.signed_response == signed_response
            &&& next->Requested_0.did_doc == request.connection.did_doc
            &&& next->Requested_0.thread_id@ == request.spec_thread_id()
        },
        (InviterFullState::Requested(requested), InviterEvent::ResponseSent) => next
            == InviterFullState::Responded(
            RespondedState {
                signed_response: requested.signed_response,
                did_doc: requested.did_doc,
            },
        ),
        (InviterFullState::Responded(responded), InviterEvent::Ack(_)) => {
            &&& next is Completed
            &&& next->Completed_0.did_doc == responded.did_doc
            &&& next->Completed_0.thread_id is Some
            &&& next->Completed_0.thread_id->0@ == responded.signed_response.thread@.thid.unwrap_or(
                Seq::empty(),
            )
            &&& next->Completed_0.protocols is None
        },
        _ => false,
    }
}

/// A rejected event: the state as it was, and the failure.
#[derive(Debug, Clone, PartialEq)]
pub struct Rejected {
    pub state: InviterFullState,
    pub failure: VcxError,
}

impl InviterFullState {
    /// The thread of the connection, where it has one.
    pub fn thread_id(&self) -> (thread_id: Option<String>)
        ensures
            opt_text(thread_id) == thread_of(*self),
    {
        match self {
            InviterFullState::Initial(_) => None,
            InviterFullState::Invited(_) => None,
            InviterFullState::Requested(state) => Some(state.thread_id.clone()),
            InviterFullState::Responded(state) => Some(state.signed_response.get_thread_id()),
            InviterFullState::Completed(state) => clone_opt_text(&state.thread_id),
        }
    }

    /// Whether a message that carries the thread `carried` belongs to the
    /// connection: it names the thread of the connection, or the connection
    /// has no thread yet.
    pub fn takes(&self, carried: &Thread) -> (takes: bool)
        ensures
            takes == on_thread(*self, carried@),
    {
        match self.thread_id() {
            Some(thread_id) => carried.is_reply(thread_id.as_str()),
            None => true,
        }
    }

    /// Applies `event` to the state.
    ///
    /// An accepted event gives the next state. A rejected one gives the state
    /// back as it was, with the failure: `InvalidState` for an event that the
    /// state does not take, `InvalidThread` for a response that is not on the
    /// thread of its request and for a problem report or a confirmation that
    /// is not on the thread of the connection.
    pub fn apply(self, event: InviterEvent) -> (outcome: Result<InviterFullState, Rejected>)
        ensures
            match rejection(self, event) {
                None => outcome is Ok && reaches(self, event, outcome->Ok_0),
                Some(kind) => outcome is Err && outcome->Err_0.state == self
                    && outcome->Err_0.failure.kind() == kind,
            },
    {
        let confirmed_elsewhere = match (&self, &event) {
            (InviterFullState::Responded(_), InviterEvent::Ack(_)) => false,
            (_, InviterEvent::Ack(_)) => true,
            _ => false,
        };
        if confirmed_elsewhere {
            return Err(
                Rejected {
                    state: self,
                    failure: VcxError::from_msg(
                        VcxErrorKind::InvalidState,
                        "The message is not expected in this state",
                    ),
                },
            );
        }
        let on_thread = match &event {
            InviterEvent::ProblemReport(report) => self.takes(&report.thread),
            InviterEvent::Ack(thread) => self.takes(thread),
            _ => true,
        };
        if !on_thread {
            return Err(
                Rejected {
                    state: self,
                    failure: VcxError::from_msg(
                        VcxErrorKind::InvalidThread,
                        "The message is not on the thread of the connection",
                    ),
                },
            );
        }
        match (self, event) {
            (InviterFullState::Initial(state), InviterEvent::ProblemReport(report)) => Ok(
                InviterFullState::Initial(InitialState::from((state, report))),
            ),
            (InviterFullState::Invited(state), InviterEvent::ProblemReport(report)) => Ok(
                InviterFullState::Initial(InitialState::from((state, report))),
            ),
            (InviterFullState::Requested(state), InviterEvent::ProblemReport(report)) => Ok(
                InviterFullState::Initial(InitialState::from((state, report))),
            ),
            (InviterFullState::Responded(state), InviterEvent::ProblemReport(report)) => Ok(
                InviterFullState::Initial(InitialState::from((state, report))),
            ),
            (InviterFullState::Completed(state), InviterEvent::ProblemReport(report)) => Ok(
                InviterFullState::Initial(InitialState::from((state, report))),
            ),
            (InviterFullState::Initial(state), InviterEvent::Invitation(invitation)) => Ok(
                InviterFullState::Invited(InvitedState::from((state, invitation))),
            ),
            (InviterFullState::Invited(state), InviterEvent::Request(request, signed_response)) => {
                let thread_id = request.get_thread_id();
                if signed_response.from_thread(thread_id.as_str()) {
                    Ok(
                        InviterFullState::Requested(
                            RequestedState::from((state, request, signed_response)),
                        ),
                    )
                } else {
                    Err(
                        Rejected {
                            state: InviterFullState::Invited(state),
                            failure: VcxError::from_msg(
                                VcxErrorKind::InvalidThread,
                                "The response is not on the thread of the request",
                            ),
                        },
                    )
                }
            },
            (InviterFullState::Requested(state), InviterEvent::ResponseSent) => Ok(
                InviterFullState::Responded(RespondedState::from(state)),
            ),
            (InviterFullState::Responded(state), InviterEvent::Ack(_)) => Ok(
                InviterFullState::Completed(CompleteState::from(state)),
            ),
            (state, _) => Err(
                Rejected {
                    state,
                    failure: VcxError::from_msg(
                        VcxErrorKind::InvalidState,
                        "The message is not expected in this state",
                    ),
                },
            ),
        }
    }
}

/// An inviter: the state machine of one connection, as the party that
/// invites.
#[derive(Debug, Clone, PartialEq)]
pub struct SmConnectionInviter {
    pub state: InviterFullState,
}

impl SmConnectionInviter {
    /// An inviter with nothing under way.
    pub fn new() -> (machine: SmConnectionInviter)
        ensures
            machine.state == InviterFullState::Initial(InitialState { problem_report: None }),
    {
        SmConnectionInviter { state: InviterFullState::Initial(InitialState::new(None)) }
    }

    /// Applies `event` to the machine: an accepted event installs the next
    /// state, a rejected one leaves the machine as it was and reports the
    /// failure.
    pub fn handle(&mut self, event: InviterEvent) -> (outcome: VcxResult<()>)
        ensures
            match rejection(old(self).state, event) {
                None => outcome is Ok && reaches(old(self).state, event, final(self).state),
                Some(kind) => outcome is Err && *final(self) == *old(self) && outcome->Err_0.kind()
                    == kind,
            },
    {
        let mut state = InviterFullState::Initial(InitialState::new(None));
        core::mem::swap(&mut self.state, &mut state);
        match state.apply(event) {
            Ok(next) => {
                self.state = next;
                Ok(())
            },
            Err(rejected) => {
                self.state = rejected.state;
                Err(rejected.failure)
            },
        }
    }

    /// The thread of the connection, where it has one.
    pub fn thread_id(&self) -> (thread_id: Option<String>)
        ensures
            opt_text(thread_id) == thread_of(self.state),
    {
        self.state.thread_id()
    }
}

/// What a `InviterFullState` is: its value, with texts as sequences of characters.
pub enum InviterFullStateView {
    Initial(InitialStateView),
    Invited(InvitedStateView),
    Requested(RequestedStateView),
    Responded(RespondedStateView),
    Completed(CompleteStateView),
}

impl View for InviterFullState {
    type V = InviterFullStateView;

    open spec fn view(&self) -> InviterFullStateView {
        match self {
            InviterFullState::Initial(inner) => InviterFullStateView::Initial(inner@),
            InviterFullState::Invited(inner) => InviterFullStateView::Invited(inner@),
            InviterFullState::Requested(inner) => InviterFullStateView::Requested(inner@),
            InviterFullState::Responded(inner) => InviterFullStateView::Responded(inner@),
            InviterFullState::Completed(inner) => InviterFullStateView::Completed(inner@),
        }
    }
}

impl DeepView for InviterFullState {
    type V = InviterFullStateView;

    open spec fn deep_view(&self) -> InviterFullStateView {
        self@
    }
}

impl InviterFullStateView {
    /// The document in which the state of the machine is persisted: an object with one member,
    /// named after the variant.
    pub open spec fn to_doc(self) -> JsonDoc {
        match self {
            InviterFullStateView::Initial(inner) => JsonDoc::Object(
                Map::<Seq<char>, JsonDoc>::empty().insert("Initial"@, inner.to_doc()),
            ),
            InviterFullStateView::Invited(inner) => JsonDoc::Object(
                Map::<Seq<char>, JsonDoc>::empty().insert("Invited"@, inner.to_doc()),
            ),
            InviterFullStateView::Requested(inner) => JsonDoc::Object(
                Map::<Seq<char>, JsonDoc>::empty().insert("Requested"@, inner.to_doc()),
            ),
            InviterFullStateView::Responded(inner) => JsonDoc::Object(
                Map::<Seq<char>, JsonDoc>::empty().insert("Responded"@, inner.to_doc()),
            ),
            InviterFullStateView::Completed(inner) => JsonDoc::Object(
                Map::<Seq<char>, JsonDoc>::empty().insert("Completed"@, inner.to_doc()),
            ),
        }
    }

    /// The state of the machine that a document persists: the first variant, in the order of
    /// their declaration, after which a member is named decides.
    pub open spec fn from_doc(document: JsonDoc) -> Option<InviterFullStateView> {
        match document {
            JsonDoc::Object(members) => if members.contains_key("Initial"@) {
                match InitialStateView::from_doc(members["Initial"@]) {
                    Some(inner) => Some(InviterFullStateView::Initial(inner)),
                    None => None,
                }
            } else if members.contains_key("Invited"@) {
                match InvitedStateView::from_doc(members["Invited"@]) {
                    Some(inner) => Some(InviterFullStateView::Invited(inner)),
                    None => None,
                }
            } else if members.contains_key("Requested"@) {
                match RequestedStateView::from_doc(members["Requested"@]) {
                    Some(inner) => Some(InviterFullStateView::Requested(inner)),
                    None => None,
                }
            } else if members.contains_key("Responded"@) {
                match RespondedStateView::from_doc(members["Responded"@]) {
                    Some(inner) => Some(InviterFullStateView::Responded(inner)),
                    None => None,
                }
            } else if members.contains_key("Completed"@) {
                match CompleteStateView::from_doc(members["Completed"@]) {
                    Some(inner) => Some(InviterFullStateView::Completed(inner)),
                    None => None,
                }
            } else {
                None
            },
            _ => None,
        }
    }

    /// What was persisted is what is read back.
    pub proof fn read_back(self)
        ensures
            InviterFullStateView::from_doc(self.to_doc()) == Some(self),
            self.to_doc() is Object,
    {
        reveal_strlit("Initial");
        reveal_strlit("Invited");
        reveal_strlit("Requested");
        reveal_strlit("Responded");
        reveal_strlit("Completed");
        assert("Initial"@.len() == 7);
        assert("Invited"@.len() == 7);
        assert("Requested"@.len() == 9);
        assert("Responded"@.len() == 9);
        assert("Completed"@.len() == 9);
        assert("Initial"@[2] != "Invited"@[2]);
        assert("Requested"@[2] != "Responded"@[2]);
        assert("Requested"@[0] != "Completed"@[0]);
        assert("Responded"@[0] != "Completed"@[0]);
        match self {
            InviterFullStateView::Initial(inner) => {
                inner.read_back();
            },
            InviterFullStateView::Invited(inner) => {
                inner.read_back();
            },
            InviterFullStateView::Requested(inner) => {
                inner.read_back();
            },
            InviterFullStateView::Responded(inner) => {
                inner.read_back();
            },
            InviterFullStateView::Completed(inner) => {
                inner.read_back();
            },
        }
    }
}

impl InviterFullState {
    /// Writes the state of the machine as a document.
    pub fn to_document(&self) -> (document: JsonValue)
        ensures
            document@ == self@.to_doc(),
    {
        let mut document = JsonValue::object();
        match self {
            InviterFullState::Initial(inner) => {
                document.insert(String::from_str("Initial"), inner.to_document());
            },
            InviterFullState::Invited(inner) => {
                document.insert(String::from_str("Invited"), inner.to_document());
            },
            InviterFullState::Requested(inner) => {
                document.insert(String::from_str("Requested"), inner.to_document());
            },
            InviterFullState::Responded(inner) => {
                document.insert(String::from_str("Responded"), inner.to_document());
            },
            InviterFullState::Completed(inner) => {
                document.insert(String::from_str("Completed"), inner.to_document());
            },
        }
        document
    }

    /// Reads the state of the machine from a document.
    pub fn from_document(document: &JsonValue) -> (read: Option<InviterFullState>)
        ensures
            match InviterFullStateView::from_doc(document@) {
                Some(view) => read is Some && read->0@ == view,
                None => read is None,
            },
    {
        if !document.is_object() {
            return None;
        }
        match document.get("Initial") {
            Some(inner) => {
                return match InitialState::from_document(inner) {
                    Some(inner) => Some(InviterFullState::Initial(inner)),
                    None => None,
                };
            },
            None => {},
        }
        match document.get("Invited") {
            Some(inner) => {
                return match InvitedState::from_document(inner) {
                    Some(inner) => Some(InviterFullState::Invited(inner)),
                    None => None,
                };
            },
            None => {},
        }
        match document.get("Requested") {
            Some(inner) => {
                return match RequestedState::from_document(inner) {
                    Some(inner) => Some(InviterFullState::Requested(inner)),
                    None => None,
                };
            },
            None => {},
        }
        match document.get("Responded") {
            Some(inner) => {
                return match RespondedState::from_document(inner) {
                    Some(inner) => Some(InviterFullState::Responded(inner)),
                    None => None,
                };
            },
            None => {},
        }
        match document.get("Completed") {
            Some(inner) => {
                return match CompleteState::from_document(inner) {
                    Some(inner) => Some(InviterFullState::Completed(inner)),
                    None => None,
                };
            },
            None => {},
        }
        None
    }

    /// Reads the state of the machine from a member that may be missing.
    pub fn read(member: Option<&JsonValue>) -> (read: Option<InviterFullState>)
        ensures
            match InviterFullStateView::from_doc(member_doc(member)) {
                Some(view) => read is Some && read->0@ == view,
                None => read is None,
            },
    {
        match member {
            Some(document) => InviterFullState::from_document(document),
            None => None,
        }
    }
}

/// What a `SmConnectionInviter` is: its value, with texts as sequences of characters.
pub struct SmConnectionInviterView {
    pub state: InviterFullStateView,
}

impl View for SmConnectionInviter {
    type V = SmConnectionInviterView;

    open spec fn view(&self) -> SmConnectionInviterView {
        SmConnectionInviterView {
            state: self.state@,
        }
    }
}

impl DeepView for SmConnectionInviter {
    type V = SmConnectionInviterView;

    open spec fn deep_view(&self) -> SmConnectionInviterView {
        self@
    }
}

impl SmConnectionInviterView {
    /// The document in which the machine is persisted.
    pub open spec fn to_doc(self) -> JsonDoc {
        JsonDoc::Object(
            Map::<Seq<char>, JsonDoc>::empty().insert(
                "state"@,
                self.state.to_doc(),
            ),
        )
    }

    /// The machine that a document persists: an object whose members hold it.
    pub open spec fn from_doc(document: JsonDoc) -> Option<SmConnectionInviterView> {
        if document is Object
            && InviterFullStateView::from_doc(document.member("state"@)) is Some {
            Some(
                SmConnectionInviterView {
                    state: InviterFullStateView::from_doc(document.member("state"@))->0,
                },
            )
        } else {
            None
        }
    }

    /// What was persisted is what is read back.
    pub proof fn read_back(self)
        ensures
            SmConnectionInviterView::from_doc(self.to_doc()) == Some(self),
            self.to_doc() is Object,
    {
        reveal_strlit("state");
        assert("state"@.len() == 5);
        values_are_read_back();
        self.state.read_back();
    }
}

impl SmConnectionInviter {
    /// Writes the machine as a document.
    pub fn to_document(&self) -> (document: JsonValue)
        ensures
            document@ == self@.to_doc(),
    {
        let mut document = JsonValue::object();
        document.insert(String::from_str("state"), self.state.to_document());
        document
    }

    /// Reads the machine from a document.
    pub fn from_document(document: &JsonValue) -> (read: Option<SmConnectionInviter>)
        ensures
            match SmConnectionInviterView::from_doc(document@) {
                Some(view) => read is Some && read->0@ == view,
                None => read is None,
            },
    {
        if !document.is_object() {
            return None;
        }
        let state = match InviterFullState::read(document.get("state")) {
            Some(value) => value,
            None => {
                return None;
            },
        };
        Some(SmConnectionInviter { state })
    }

    /// Reads the machine from a member that may be missing.
    pub fn read(member: Option<&JsonValue>) -> (read: Option<SmConnectionInviter>)
        ensures
            match SmConnectionInviterView::from_doc(member_doc(member)) {
                Some(view) => read is Some && read->0@ == view,
                None => read is None,
            },
    {
        match member {
            Some(document) => SmConnectionInviter::from_document(document),
            None => None,
        }
    }
}


/// The inviter that a text persists: the text must be a persisted object of
/// the present version whose data hold the machine.
pub open spec fn persisted_machine(text: Seq<char>) -> Option<SmConnectionInviterView> {
    match persisted_in(text) {
        Some((version, data)) => if version == SERIALIZE_VERSION@ {
            SmConnectionInviterView::from_doc(data)
        } else {
            None
        },
        None => None,
    }
}

/// A machine that was persisted is read back as it was: the document in
/// which it is persisted holds the present version and, as its data, the
/// document from which the machine is read back.
pub proof fn persisted_machine_is_read_back(machine: SmConnectionInviterView)
    ensures
        unframed(framed(SERIALIZE_VERSION@, machine.to_doc())) == Some(
            (SERIALIZE_VERSION@, machine.to_doc()),
        ),
        SmConnectionInviterView::from_doc(machine.to_doc()) == Some(machine),
{
    unframed_is_what_was_framed(SERIALIZE_VERSION@, machine.to_doc());
    machine.read_back();
}

impl SmConnectionInviter {
    /// The text in which the machine is persisted.
    pub fn to_string(&self) -> (text: String)
        ensures
            text@ == json_text(framed(SERIALIZE_VERSION@, self@.to_doc())),
    {
        ObjectWithVersion {
            version: String::from_str(SERIALIZE_VERSION),
            data: self.to_document(),
        }.serialize()
    }

    /// The machine that the persisted object `object` holds.
    ///
    /// Fails with `InvalidJson` where the object is of another version than
    /// the present one or its data hold no machine.
    pub fn from_object(object: ObjectWithVersion) -> (machine: VcxResult<SmConnectionInviter>)
        ensures
            match (if object.version@ == SERIALIZE_VERSION@ {
                SmConnectionInviterView::from_doc(object.data@)
            } else {
                None
            }) {
                Some(view) => machine is Ok && machine->Ok_0@ == view,
                None => machine is Err && machine->Err_0.kind() == VcxErrorKind::InvalidJson,
            },
    {
        if !text_eq(object.version.as_str(), SERIALIZE_VERSION) {
            return Err(
                VcxError::from_msg(
                    VcxErrorKind::InvalidJson,
                    "Found an object of an unsupported version",
                ),
            );
        }
        match SmConnectionInviter::from_document(&object.data) {
            Some(machine) => Ok(machine),
            None => Err(
                VcxError::from_msg(VcxErrorKind::InvalidJson, "Cannot deserialize the machine"),
            ),
        }
    }

    /// The machine that the text `text` persists.
    ///
    /// Fails with `InvalidJson` where the text is no JSON, has not the layout
    /// of a persisted object, is of another version than the present one, or
    /// holds no machine.
    pub fn from_string(text: &str) -> (machine: VcxResult<SmConnectionInviter>)
        ensures
            match persisted_machine(text@) {
                Some(view) => machine is Ok && machine->Ok_0@ == view,
                None => machine is Err && machine->Err_0.kind() == VcxErrorKind::InvalidJson,
            },
    {
        match ObjectWithVersion::deserialize(text) {
            Ok(object) => SmConnectionInviter::from_object(object),
            Err(failure) => Err(failure),
        }
    }
}

impl Correlated for SmConnectionInviter {
    type Event = InviterEvent;

    /// The thread that a message of the invitee carries: a confirmation and
    /// a problem report carry one. A request opens the thread and has none
    /// to be held against; the other events are the inviter's own actions.
    open spec fn carried_thread(event: &InviterEvent) -> Option<ThreadView> {
        match event {
            InviterEvent::Ack(thread) => Some(thread@),
            InviterEvent::ProblemReport(report) => Some(report.thread@),
            _ => None,
        }
    }

    /// The thread of the connection, or the empty text while it has none.
    open spec fn conversation_id(&self) -> Seq<char> {
        thread_of(self.state).unwrap_or(Seq::empty())
    }

    open spec fn rejects(&self, event: &InviterEvent) -> Option<VcxErrorKind> {
        rejection(self.state, *event)
    }

    open spec fn reaches(&self, event: &InviterEvent, next: &SmConnectionInviter) -> bool {
        reaches(self.state, *event, next.state)
    }

    fn event_thread(event: &InviterEvent) -> (carried: Option<Thread>) {
        match event {
            InviterEvent::Ack(thread) => Some(thread.duplicate()),
            InviterEvent::ProblemReport(report) => Some(report.thread.duplicate()),
            _ => None,
        }
    }

    fn thread_id(&self) -> (id: String) {
        match self.state.thread_id() {
            Some(thread_id) => thread_id,
            None => String::new(),
        }
    }

    fn step(&mut self, event: InviterEvent) -> (outcome: VcxResult<()>) {
        self.handle(event)
    }
}

} // verus!
