//! The invitee's state machine.

use vstd::prelude::*;
use vstd::string::StringExecFns;

use crate::did_doc::invitation_did_doc;
use crate::error::{VcxError, VcxErrorKind, VcxResult};
use crate::messages::connection::invite::Invitation;
use crate::messages::connection::problem_report::ProblemReport;
use crate::messages::connection::request::Request;
use crate::messages::connection::response::Response;
use crate::protocols::connection::invitee::states::complete::{CompleteState, CompleteStateView};
use crate::protocols::connection::invitee::states::initial::{InitialState, InitialStateView};
use crate::protocols::connection::invitee::states::invited::{InvitedState, InvitedStateView};
use crate::protocols::connection::invitee::states::requested::{RequestedState, RequestedStateView};
use crate::protocols::connection::invitee::states::responded::{RespondedState, RespondedStateView};
use crate::utils::codec::{member_doc, values_are_read_back};
use crate::utils::json::{json_text, JsonDoc, JsonValue};
use crate::utils::serialization::{
    framed, persisted_in, unframed, unframed_is_what_was_framed, ObjectWithVersion,
    SERIALIZE_VERSION,
};
use crate::messages::thread::{Thread, ThreadView};
use crate::protocols::conversation::Correlated;
use crate::utils::text::{clone_opt_text, opt_text, text_eq};

verus! {

/// The state an invitee is in.
#[derive(Debug, Clone, PartialEq)]
pub enum InviteeFullState {
    Initial(InitialState),
    Invited(InvitedState),
    Requested(RequestedState),
    Responded(RespondedState),
    Completed(CompleteState),
}

/// What can happen to an invitee.
#[derive(Debug, Clone, PartialEq)]
pub enum InviteeEvent {
    /// An invitation arrived.
    Invitation(Invitation),
    /// The request was made and sent.
    Request(Request),
    /// The response arrived and its signature was found good.
    Response(Response),
    /// The connection was confirmed to the inviter.
    Ack,
    /// A problem report arrived.
    ProblemReport(ProblemReport),
}

/// The thread of the connection in a state: none until the request was sent,
/// then the thread of the request, of the response, and the one under which
/// the connection was made.
pub open spec fn thread_of(state: InviteeFullState) -> Option<Seq<char>> {
    match state {
        InviteeFullState::Initial(_) => None,
        InviteeFullState::Invited(_) => None,
        InviteeFullState::Requested(requested) => Some(requested.request.spec_thread_id()),
        InviteeFullState::Responded(responded) => Some(
            responded.response.thread@.thid.unwrap_or(Seq::empty()),
        ),
        InviteeFullState::Completed(completed) => opt_text(completed.thread_id),
    }
}

/// Whether a message that carries the thread `carried` belongs to the
/// connection in the state `state`: it names the thread of the connection,
/// or the connection has no thread yet.
pub open spec fn on_thread(state: InviteeFullState, carried: ThreadView) -> bool {
    match thread_of(state) {
        Some(thread_id) => carried.thid.unwrap_or(Seq::empty()) == thread_id,
        None => true,
    }
}

/// What an event does to a state: the kind of failure with which it is
/// rejected, or nothing where it is accepted.
///
/// A problem report is accepted in every state, unless it names another
/// thread than that of the connection. Each other event is accepted in one
/// state only, and a response only on the thread of the request.
pub open spec fn rejection(state: InviteeFullState, event: InviteeEvent) -> Option<VcxErrorKind> {
    match (state, event) {
        (_, InviteeEvent::ProblemReport(report)) => if on_thread(state, report.thread@) {
            None
        } else {
            Some(VcxErrorKind::InvalidThread)
        },
        (InviteeFullState::Initial(_), InviteeEvent::Invitation(_)) => None,
        (InviteeFullState::Invited(_), InviteeEvent::Request(_)) => None,
        (InviteeFullState::Requested(requested), InviteeEvent::Response(response)) => {
            if response.thread@.thid.unwrap_or(Seq::empty())
                == requested.request.spec_thread_id() {
                None
            } else {
                Some(VcxErrorKind::InvalidThread)
            }
        },
        (InviteeFullState::Responded(_), InviteeEvent::Ack) => None,
        _ => Some(VcxErrorKind::InvalidState),
    }
}

/// Whether `next` is the state that an accepted event leads to: it holds what
/// the transition carries over, and nothing else.
pub open spec fn reaches(state: InviteeFullState, event: InviteeEvent, next: InviteeFullState)
    -> bool {
    match (state, event) {
        (_, InviteeEvent::ProblemReport(report)) => next == InviteeFullState::Initial(
            InitialState { problem_report: Some(report) },
        ),
        (InviteeFullState::Initial(_), InviteeEvent::Invitation(invitation)) => next
            == InviteeFullState::Invited(InvitedState { invitation }),
        (InviteeFullState::Invited(invited), InviteeEvent::Request(request)) => next
            == InviteeFullState::Requested(
            RequestedState { request, did_doc: invitation_did_doc(invited.invitation) },
        ),
        (InviteeFullState::Requested(requested), InviteeEvent::Response(response)) => {
            &&& next is Responded
            &&& next->Responded_0.response == response
            &&& next->Responded_0.request == requested.request
            &&& next->Responded_0.did_doc@ == response.connection.did_doc@
        },
        (InviteeFullState::Responded(responded), InviteeEvent::Ack) => {
            &&& next is Completed
            &&& next->Completed_0.did_doc == responded.did_doc
            &&& next->Completed_0.thread_id is Some
            &&& next->Completed_0.thread_id->0@ == responded.response.thread@.thid.unwrap_or(
                Seq::empty(),
            )
            &&& next->Completed_0.protocols is None
        },
        _ => false,
    }
}

/// A rejected event: the state as it was, and the failure.
#[derive(Debug, Clone, PartialEq)]
pub struct Rejected {
    pub state: InviteeFullState,
    pub failure: VcxError,
}

impl InviteeFullState {
    /// The thread of the connection, where it has one.
    pub fn thread_id(&self) -> (thread_id: Option<String>)
        ensures
            opt_text(thread_id) == thread_of(*self),
    {
        match self {
            InviteeFullState::Initial(_) => None,
            InviteeFullState::Invited(_) => None,
            InviteeFullState::Requested(state) => Some(state.request.get_thread_id()),
            InviteeFullState::Responded(state) => Some(state.response.get_thread_id()),
            InviteeFullState::Completed(state) => clone_opt_text(&state.thread_id),
        }
    }

    /// Whether a message that carries the thread `carried` belongs to the
    /// connection: it names the thread of the connection, or the connection
    /// has no thread yet.
    pub fn takes(&self, carried: &Thread) -> (takes: bool)
        ensures
            takes == on_thread(*self, carried@),
    {
        match self.thread_id() {
            Some(thread_id) => carried.is_reply(thread_id.as_str()),
            None => true,
        }
    }

    /// Applies `event` to the state.
    ///
    /// An accepted event gives the next state. A rejected one gives the state
    /// back as it was, with the failure: `InvalidState` for an event that the
    /// state does not take, `InvalidThread` for a response that is not on the
    /// thread of the request and for a problem report that is not on the
    /// thread of the connection.
    pub fn apply(self, event: InviteeEvent) -> (outcome: Result<InviteeFullState, Rejected>)
        ensures
            match rejection(self, event) {
                None => outcome is Ok && reaches(self, event, outcome->Ok_0),
                Some(kind) => outcome is Err && outcome->Err_0.state == self
                    && outcome->Err_0.failure.kind() == kind,
            },
    {
        let on_thread = match &event {
            InviteeEvent::ProblemReport(report) => self.takes(&report.thread),
            _ => true,
        };
        if !on_thread {
            return Err(
                Rejected {
                    state: self,
                    failure: VcxError::from_msg(
                        VcxErrorKind::InvalidThread,
                        "The message is not on the thread of the connection",
                    ),
                },
            );
        }
        match (self, event) {
            (InviteeFullState::Initial(state), InviteeEvent::ProblemReport(report)) => Ok(
                InviteeFullState::Initial(InitialState::from((state, report))),
            ),
            (InviteeFullState::Invited(state), InviteeEvent::ProblemReport(report)) => Ok(
                InviteeFullState::Initial(InitialState::from((state, report))),
            ),
            (InviteeFullState::Requested(state), InviteeEvent::ProblemReport(report)) => Ok(
                InviteeFullState::Initial(InitialState::from((state, report))),
            ),
            (InviteeFullState::Responded(state), InviteeEvent::ProblemReport(report)) => Ok(
                InviteeFullState::Initial(InitialState::from((state, report))),
            ),
            (InviteeFullState::Completed(state), InviteeEvent::ProblemReport(report)) => Ok(
                InviteeFullState::Initial(InitialState::from((state, report))),
            ),
            (InviteeFullState::Initial(state), InviteeEvent::Invitation(invitation)) => Ok(
                InviteeFullState::Invited(InvitedState::from((state, invitation))),
            ),
            (InviteeFullState::Invited(state), InviteeEvent::Request(request)) => Ok(
                InviteeFullState::Requested(RequestedState::from((state, request))),
            ),
            (InviteeFullState::Requested(state), InviteeEvent::Response(response)) => {
                let thread_id = state.request.get_thread_id();
                if response.from_thread(thread_id.as_str()) {
                    Ok(InviteeFullState::Responded(RespondedState::from((state, response))))
                } else {
                    Err(
                        Rejected {
                            state: InviteeFullState::Requested(state),
                            failure: VcxError::from_msg(
                                VcxErrorKind::InvalidThread,
                                "The response is not on the thread of the request",
                            ),
                        },
                    )
                }
            },
            (InviteeFullState::Responded(state), InviteeEvent::Ack) => Ok(
                InviteeFullState::Completed(CompleteState::from(state)),
            ),
            (state, _) => Err(
                Rejected {
                    state,
                    failure: VcxError::from_msg(
                        VcxErrorKind::InvalidState,
                        "The message is not expected in this state",
                    ),
                },
            ),
        }
    }
}

/// An invitee: the state machine of one connection, as the party that was
/// invited.
#[derive(Debug, Clone, PartialEq)]
pub struct SmConnectionInvitee {
    pub state: InviteeFullState,
}

impl SmConnectionInvitee {
    /// An invitee with nothing under way.
    pub fn new() -> (machine: SmConnectionInvitee)
        ensures
            machine.state == InviteeFullState::Initial(InitialState { problem_report: None }),
    {
        SmConnectionInvitee { state: InviteeFullState::Initial(InitialState::new(None)) }
    }

    /// Applies `event` to the machine: an accepted event installs the next
    /// state, a rejected one leaves the machine as it was and reports the
    /// failure.
    pub fn handle(&mut self, event: InviteeEvent) -> (outcome: VcxResult<()>)
        ensures
            match rejection(old(self).state, event) {
                None => outcome is Ok && reaches(old(self).state, event, final(self).state),
                Some(kind) => outcome is Err && *final(self) == *old(self) && outcome->Err_0.kind()
                    == kind,
            },
    {
        let mut state = InviteeFullState::Initial(InitialState::new(None));
        core::mem::swap(&mut self.state, &mut state);
        match state.apply(event) {
            Ok(next) => {
                self.state = next;
                Ok(())
            },
            Err(rejected) => {
                self.state = rejected.state;
                Err(rejected.failure)
            },
        }
    }

    /// The thread of the connection, where it has one.
    pub fn thread_id(&self) -> (thread_id: Option<String>)
        ensures
            opt_text(thread_id) == thread_of(self.state),
    {
        self.state.thread_id()
    }
}

/// What a `InviteeFullState` is: its value, with texts as sequences of characters.
pub enum InviteeFullStateView {
    Initial(InitialStateView),
    Invited(InvitedStateView),
    Requested(RequestedStateView),
    Responded(RespondedStateView),
    Completed(CompleteStateView),
}

impl View for InviteeFullState {
    type V = InviteeFullStateView;

    open spec fn view(&self) -> InviteeFullStateView {
        match self {
            InviteeFullState::Initial(inner) => InviteeFullStateView::Initial(inner@),
            InviteeFullState::Invited(inner) => InviteeFullStateView::Invited(inner@),
            InviteeFullState::Requested(inner) => InviteeFullStateView::Requested(inner@),
            InviteeFullState::Responded(inner) => InviteeFullStateView::Responded(inner@),
            InviteeFullState::Completed(inner) => InviteeFullStateView::Completed(inner@),
        }
    }
}

impl DeepView for InviteeFullState {
    type V = InviteeFullStateView;

    open spec fn deep_view(&self) -> InviteeFullStateView {
        self@
    }
}

impl InviteeFullStateView {
    /// The document in which the state of the machine is persisted: an object with one member,
    /// named after the variant.
    pub open spec fn to_doc(self) -> JsonDoc {
        match self {
            InviteeFullStateView::Initial(inner) => JsonDoc::Object(
                Map::<Seq<char>, JsonDoc>::empty().insert("Initial"@, inner.to_doc()),
            ),
            InviteeFullStateView::Invited(inner) => JsonDoc::Object(
                Map::<Seq<char>, JsonDoc>::empty().insert("Invited"@, inner.to_doc()),
            ),
            InviteeFullStateView::Requested(inner) => JsonDoc::Object(
                Map::<Seq<char>, JsonDoc>::empty().insert("Requested"@, inner.to_doc()),
            ),
            InviteeFullStateView::Responded(inner) => JsonDoc::Object(
                Map::<Seq<char>, JsonDoc>::empty().insert("Responded"@, inner.to_doc()),
            ),
            InviteeFullStateView::Completed(inner) => JsonDoc::Object(
                Map::<Seq<char>, JsonDoc>::empty().insert("Completed"@, inner.to_doc()),
            ),
        }
    }

    /// The state of the machine that a document persists: the first variant, in the order of
    /// their declaration, after which a member is named decides.
    pub open spec fn from_doc(document: JsonDoc) -> Option<InviteeFullStateView> {
        match document {
            JsonDoc::Object(members) => if members.contains_key("Initial"@) {
                match InitialStateView::from_doc(members["Initial"@]) {
                    Some(inner) => Some(InviteeFullStateView::Initial(inner)),
                    None => None,
                }
            } else if members.contains_key("Invited"@) {
                match InvitedStateView::from_doc(members["Invited"@]) {
                    Some(inner) => Some(InviteeFullStateView::Invited(inner)),
                    None => None,
                }
            } else if members.contains_key("Requested"@) {
                match RequestedStateView::from_doc(members["Requested"@]) {
                    Some(inner) => Some(InviteeFullStateView::Requested(inner)),
                    None => None,
                }
            } else if members.contains_key("Responded"@) {
                match RespondedStateView::from_doc(members["Responded"@]) {
                    Some(inner) => Some(InviteeFullStateView::Responded(inner)),
                    None => None,
                }
            } else if members.contains_key("Completed"@) {
                match CompleteStateView::from_doc(members["Completed"@]) {
                    Some(inner) => Some(InviteeFullStateView::Completed(inner)),
                    None => None,
                }
            } else {
                None
            },
            _ => None,
        }
    }

    /// What was persisted is what is read back.
    pub proof fn read_back(self)
        ensures
            InviteeFullStateView::from_doc(self.to_doc()) == Some(self),
            self.to_doc() is Object,
    {
        reveal_strlit("Initial");
        reveal_strlit("Invited");
        reveal_strlit("Requested");
        reveal_strlit("Responded");
        reveal_strlit("Completed");
        assert("Initial"@.len() == 7);
        assert("Invited"@.len() == 7);
        assert("Requested"@.len() == 9);
        assert("Responded"@.len() == 9);
        assert("Completed"@.len() == 9);
        assert("Initial"@[2] != "Invited"@[2]);
        assert("Requested"@[2] != "Responded"@[2]);
        assert("Requested"@[0] != "Completed"@[0]);
        assert("Responded"@[0] != "Completed"@[0]);
        match self {
            InviteeFullStateView::Initial(inner) => {
                inner.read_back();
            },
            InviteeFullStateView::Invited(inner) => {
                inner.read_back();
            },
            InviteeFullStateView::Requested(inner) => {
                inner.read_back();
            },
            InviteeFullStateView::Responded(inner) => {
                inner.read_back();
            },
            InviteeFullStateView::Completed(inner) => {
                inner.read_back();
            },
        }
    }
}

impl InviteeFullState {
    /// Writes the state of the machine as a document.
    pub fn to_document(&self) -> (document: JsonValue)
        ensures
            document@ == self@.to_doc(),
    {
        let mut document = JsonValue::object();
        match self {
            InviteeFullState::Initial(inner) => {
                document.insert(String::from_str("Initial"), inner.to_document());
            },
            InviteeFullState::Invited(inner) => {
                document.insert(String::from_str("Invited"), inner.to_document());
            },
            InviteeFullState::Requested(inner) => {
                document.insert(String::from_str("Requested"), inner.to_document());
            },
            InviteeFullState::Responded(inner) => {
                document.insert(String::from_str("Responded"), inner.to_document());
            },
            InviteeFullState::Completed(inner) => {
                document.insert(String::from_str("Completed"), inner.to_document());
            },
        }
        document
    }

    /// Reads the state of the machine from a document.
    pub fn from_document(document: &JsonValue) -> (read: Option<InviteeFullState>)
        ensures
            match InviteeFullStateView::from_doc(document@) {
                Some(view) => read is Some && read->0@ == view,
                None => read is None,
            },
    {
        if !document.is_object() {
            return None;
        }
        match document.get("Initial") {
            Some(inner) => {
                return match InitialState::from_document(inner) {
                    Some(inner) => Some(InviteeFullState::Initial(inner)),
                    None => None,
                };
            },
            None => {},
        }
        match document.get("Invited") {
            Some(inner) => {
                return match InvitedState::from_document(inner) {
                    Some(inner) => Some(InviteeFullState::Invited(inner)),
                    None => None,
                };
            },
            None => {},
        }
        match document.get("Requested") {
            Some(inner) => {
                return match RequestedState::from_document(inner) {
                    Some(inner) => Some(InviteeFullState::Requested(inner)),
                    None => None,
                };
            },
            None => {},
        }
        match document.get("Responded") {
            Some(inner) => {
                return match RespondedState::from_document(inner) {
                    Some(inner) => Some(InviteeFullState::Responded(inner)),
                    None => None,
                };
            },
            None => {},
        }
        match document.get("Completed") {
            Some(inner) => {
                return match CompleteState::from_document(inner) {
                    Some(inner) => Some(InviteeFullState::Completed(inner)),
                    None => None,
                };
            },
            None => {},
        }
        None
    }

    /// Reads the state of the machine from a member that may be missing.
    pub fn read(member: Option<&JsonValue>) -> (read: Option<InviteeFullState>)
        ensures
            match InviteeFullStateView::from_doc(member_doc(member)) {
                Some(view) => read is Some && read->0@ == view,
                None => read is None,
            },
    {
        match member {
            Some(document) => InviteeFullState::from_document(document),
            None => None,
        }
    }
}

/// What a `SmConnectionInvitee` is: its value, with texts as sequences of characters.
pub struct SmConnectionInviteeView {
    pub state: InviteeFullStateView,
}

impl View for SmConnectionInvitee {
    type V = SmConnectionInviteeView;

    open spec fn view(&self) -> SmConnectionInviteeView {
        SmConnectionInviteeView {
            state: self.state@,
        }
    }
}

impl DeepView for SmConnectionInvitee {
    type V = SmConnectionInviteeView;

    open spec fn deep_view(&self) -> SmConnectionInviteeView {
        self@
    }
}

impl SmConnectionInviteeView {
    /// The document in which the machine is persisted.
    pub open spec fn to_doc(self) -> JsonDoc {
        JsonDoc::Object(
            Map::<Seq<char>, JsonDoc>::empty().insert(
                "state"@,
                self.state.to_doc(),
            ),
        )
    }

    /// The machine that a document persists: an object whose members hold it.
    pub open spec fn from_doc(document: JsonDoc) -> Option<SmConnectionInviteeView> {
        if document is Object
            && InviteeFullStateView::from_doc(document.member("state"@)) is Some {
            Some(
                SmConnectionInviteeView {
                    state: InviteeFullStateView::from_doc(document.member("state"@))->0,
                },
            )
        } else {
            None
        }
    }

    /// What was persisted is what is read back.
    pub proof fn read_back(self)
        ensures
            SmConnectionInviteeView::from_doc(self.to_doc()) == Some(self),
            self.to_doc() is Object,
    {
        reveal_strlit("state");
        assert("state"@.len() == 5);
        values_are_read_back();
        self.state.read_back();
    }
}

impl SmConnectionInvitee {
    /// Writes the machine as a document.
    pub fn to_document(&self) -> (document: JsonValue)
        ensures
            document@ == self@.to_doc(),
    {
        let mut document = JsonValue::object();
        document.insert(String::from_str("state"), self.state.to_document());
        document
    }

    /// Reads the machine from a document.
    pub fn from_document(document: &JsonValue) -> (read: Option<SmConnectionInvitee>)
        ensures
            match SmConnectionInviteeView::from_doc(document@) {
                Some(view) => read is Some && read->0@ == view,
                None => read is None,
            },
    {
        if !document.is_object() {
            return None;
        }
        let state = match InviteeFullState::read(document.get("state")) {
            Some(value) => value,
            None => {
                return None;
            },
        };
        Some(SmConnectionInvitee { state })
    }

    /// Reads the machine from a member that may be missing.
    pub fn read(member: Option<&JsonValue>) -> (read: Option<SmConnectionInvitee>)
        ensures
            match SmConnectionInviteeView::from_doc(member_doc(member)) {
                Some(view) => read is Some && read->0@ == view,
                None => read is None,
            },
    {
        match member {
            Some(document) => SmConnectionInvitee::from_document(document),
            None => None,
        }
    }
}


/// The invitee that a text persists: the text must be a persisted object of
/// the present version whose data hold the machine.
pub open spec fn persisted_machine(text: Seq<char>) -> Option<SmConnectionInviteeView> {
    match persisted_in(text) {
        Some((version, data)) => if version == SERIALIZE_VERSION@ {
            SmConnectionInviteeView::from_doc(data)
        } else {
            None
        },
        None => None,
    }
}

/// A machine that was persisted is read back as it was: the document in
/// which it is persisted holds the present version and, as its data, the
/// document from which the machine is read back.
pub proof fn persisted_machine_is_read_back(machine: SmConnectionInviteeView)
    ensures
        unframed(framed(SERIALIZE_VERSION@, machine.to_doc())) == Some(
            (SERIALIZE_VERSION@, machine.to_doc()),
        ),
        SmConnectionInviteeView::from_doc(machine.to_doc()) == Some(machine),
{
    unframed_is_what_was_framed(SERIALIZE_VERSION@, machine.to_doc());
    machine.read_back();
}

impl SmConnectionInvitee {
    /// The text in which the machine is persisted.
    pub fn to_string(&self) -> (text: String)
        ensures
            text@ == json_text(framed(SERIALIZE_VERSION@, self@.to_doc())),
    {
        ObjectWithVersion {
            version: String::from_str(SERIALIZE_VERSION),
            data: self.to_document(),
        }.serialize()
    }

    /// The machine that the persisted object `object` holds.
    ///
    /// Fails with `InvalidJson` where the object is of another version than
    /// the present one or its data hold no machine.
    pub fn from_object(object: ObjectWithVersion) -> (machine: VcxResult<SmConnectionInvitee>)
        ensures
            match (if object.version@ == SERIALIZE_VERSION@ {
                SmConnectionInviteeView::from_doc(object.data@)
            } else {
                None
            }) {
                Some(view) => machine is Ok && machine->Ok_0@ == view,
                None => machine is Err && machine->Err_0.kind() == VcxErrorKind::InvalidJson,
            },
    {
        if !text_eq(object.version.as_str(), SERIALIZE_VERSION) {
            return Err(
                VcxError::from_msg(
                    VcxErrorKind::InvalidJson,
                    "Found an object of an unsupported version",
                ),
            );
        }
        match SmConnectionInvitee::from_document(&object.data) {
            Some(machine) => Ok(machine),
            None => Err(
                VcxError::from_msg(VcxErrorKind::InvalidJson, "Cannot deserialize the machine"),
            ),
        }
    }

    /// The machine that the text `text` persists.
    ///
    /// Fails with `InvalidJson` where the text is no JSON, has not the layout
    /// of a persisted object, is of another version than the present one, or
    /// holds no machine.
    pub fn from_string(text: &str) -> (machine: VcxResult<SmConnectionInvitee>)
        ensures
            match persisted_machine(text@) {
                Some(view) => machine is Ok && machine->Ok_0@ == view,
                None => machine is Err && machine->Err_0.kind() == VcxErrorKind::InvalidJson,
            },
    {
        match ObjectWithVersion::deserialize(text) {
            Ok(object) => SmConnectionInvitee::from_object(object),
            Err(failure) => Err(failure),
        }
    }
}

impl Correlated for SmConnectionInvitee {
    type Event = InviteeEvent;

    /// The thread that a message of the inviter carries: a response and a
    /// problem report carry one. The invitation comes before there is a
    /// thread; the other events are the invitee's own actions.
    open spec fn carried_thread(event: &InviteeEvent) -> Option<ThreadView> {
        match event {
            InviteeEvent::Response(response) => Some(response.thread@),
            InviteeEvent::ProblemReport(report) => Some(report.thread@),
            _ => None,
        }
    }

    /// The thread of the connection, or the empty text while it has none.
    open spec fn conversation_id(&self) -> Seq<char> {
        thread_of(self.state).unwrap_or(Seq::empty())
    }

    open spec fn rejects(&self, event: &InviteeEvent) -> Option<VcxErrorKind> {
        rejection(self.state, *event)
    }

    open spec fn reaches(&self, event: &InviteeEvent, next: &SmConnectionInvitee) -> bool {
        reaches(self.state, *event, next.state)
    }

    fn event_thread(event: &InviteeEvent) -> (carried: Option<Thread>) {
        match event {
            InviteeEvent::Response(response) => Some(response.thread.duplicate()),
            InviteeEvent::ProblemReport(report) => Some(report.thread.duplicate()),
            _ => None,
        }
    }

    fn thread_id(&self) -> (id: String) {
        match self.state.thread_id() {
            Some(thread_id) => thread_id,
            None => String::new(),
        }
    }

    fn step(&mut self, event: InviteeEvent) -> (outcome: VcxResult<()>) {
        self.handle(event)
    }
}

} // verus!
