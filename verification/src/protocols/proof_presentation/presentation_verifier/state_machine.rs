//! The verifier's state machine.

use vstd::prelude::*;
use vstd::string::StringExecFns;

use crate::error::{VcxError, VcxErrorKind, VcxResult};
use crate::messages::a2a::MessageId;
use crate::messages::attachment::Attachments;
use crate::messages::error::ProblemReport;
use crate::messages::proof_presentation::presentation::Presentation;
use crate::messages::proof_presentation::presentation_request::PresentationRequest;
use crate::messages::status::Status;
use crate::messages::thread::{Thread, ThreadView};
use crate::protocols::conversation::Correlated;
use crate::protocols::proof_presentation::presentation_verifier::states::finished::{
    FinishedState, FinishedStateView,
};
use crate::protocols::proof_presentation::presentation_verifier::states::presentation_request_sent::{
    verification_status, PresentationRequestSentState, PresentationRequestSentStateView,
};
use crate::utils::codec::{as_text, member_doc, read_text, values_are_read_back};
use crate::utils::json::{json_text, JsonDoc, JsonValue};
use crate::utils::serialization::{
    framed, persisted_in, unframed, unframed_is_what_was_framed, ObjectWithVersion,
    SERIALIZE_VERSION,
};
use crate::utils::text::text_eq;

verus! {

/// The state a verifier is in.
#[derive(Debug, Clone, PartialEq)]
pub enum VerifierFullState {
    PresentationRequestSent(PresentationRequestSentState),
    Finished(FinishedState),
}

/// What can happen to a verifier.
#[derive(Debug, Clone, PartialEq)]
pub enum VerifierEvent {
    /// The presentation arrived and its proof was given to the credential
    /// backend: the message, and how the presentation ends by the answer of
    /// the backend.
    Presentation(Presentation, Status),
    /// A problem report arrived.
    ProblemReport(ProblemReport),
}

/// What an event does to a state: the kind of failure with which it is
/// rejected, or nothing where it is accepted.
///
/// While the request is out a presentation or a problem report on the thread
/// of the request is accepted; one of another thread is rejected. Nothing is
/// accepted once the presentation has ended.
pub open spec fn rejection(state: VerifierFullState, thread_id: Seq<char>, event: VerifierEvent)
    -> Option<VcxErrorKind> {
    match (state, event) {
        (VerifierFullState::Finished(_), _) => Some(VcxErrorKind::InvalidState),
        (_, VerifierEvent::ProblemReport(report)) => if report@.thread.thid.unwrap_or(Seq::empty())
            == thread_id {
            None
        } else {
            Some(VcxErrorKind::InvalidThread)
        },
        (_, VerifierEvent::Presentation(presentation, _)) => if presentation.thread@.thid.unwrap_or(
            Seq::empty(),
        ) == thread_id {
            None
        } else {
            Some(VcxErrorKind::InvalidThread)
        },
    }
}

/// The state that an accepted event leads to: it holds what the transition
/// carries over, and nothing else.
pub open spec fn next_state(state: VerifierFullState, event: VerifierEvent) -> VerifierFullState {
    match (state, event) {
        (
            VerifierFullState::PresentationRequestSent(sent),
            VerifierEvent::Presentation(presentation, status),
        ) => VerifierFullState::Finished(
            FinishedState {
                presentation_request: sent.presentation_request,
                presentation: Some(presentation),
                status,
            },
        ),
        (VerifierFullState::PresentationRequestSent(sent), VerifierEvent::ProblemReport(report)) => {
            VerifierFullState::Finished(
                FinishedState {
                    presentation_request: sent.presentation_request,
                    presentation: None,
                    status: Status::Declined(report),
                },
            )
        },
        _ => state,
    }
}

/// A rejected event: the state as it was, and the failure.
#[derive(Debug, Clone, PartialEq)]
pub struct Rejected {
    pub state: VerifierFullState,
    pub failure: VcxError,
}

impl VerifierFullState {
    /// Applies `event` to the state of a presentation on the thread
    /// `thread_id`.
    ///
    /// An accepted event gives the next state. A rejected one gives the state
    /// back as it was, with the failure: `InvalidState` once the presentation
    /// has ended, `InvalidThread` for a message of another thread.
    pub fn apply(self, thread_id: &str, event: VerifierEvent) -> (outcome: Result<
        VerifierFullState,
        Rejected,
    >)
        ensures
            match rejection(self, thread_id@, event) {
                None => outcome == Ok::<VerifierFullState, Rejected>(next_state(self, event)),
                Some(kind) => outcome is Err && outcome->Err_0.state == self
                    && outcome->Err_0.failure.kind() == kind,
            },
    {
        match (self, event) {
            (VerifierFullState::Finished(state), _) => Err(
                Rejected {
                    state: VerifierFullState::Finished(state),
                    failure: VcxError::from_msg(
                        VcxErrorKind::InvalidState,
                        "The presentation has ended",
                    ),
                },
            ),
            (
                VerifierFullState::PresentationRequestSent(state),
                VerifierEvent::ProblemReport(report),
            ) => {
                if report.thread.is_reply(thread_id) {
                    Ok(VerifierFullState::Finished(FinishedState::from((state, report))))
                } else {
                    Err(
                        Rejected {
                            state: VerifierFullState::PresentationRequestSent(state),
                            failure: VcxError::from_msg(
                                VcxErrorKind::InvalidThread,
                                "The problem report is not on the thread of the presentation",
                            ),
                        },
                    )
                }
            },
            (
                VerifierFullState::PresentationRequestSent(state),
                VerifierEvent::Presentation(presentation, status),
            ) => {
                if presentation.from_thread(thread_id) {
                    Ok(
                        VerifierFullState::Finished(
                            FinishedState::from((state, presentation, status)),
                        ),
                    )
                } else {
                    Err(
                        Rejected {
                            state: VerifierFullState::PresentationRequestSent(state),
                            failure: VcxError::from_msg(
                                VcxErrorKind::InvalidThread,
                                "The presentation is not on the thread of the request",
                            ),
                        },
                    )
                }
            },
        }
    }
}

/// The event that a presentation amounts to once the credential backend
/// answered for its proof; see [`verification_status`].
pub fn verified_event(presentation: Presentation, verified: VcxResult<bool>) -> (event:
    VerifierEvent)
    ensures
        event is Presentation,
        event->Presentation_0 == presentation,
        match verified {
            Ok(true) => event->Presentation_1 == Status::Success,
            Ok(false) => event->Presentation_1 is Failed && event->Presentation_1->Failed_0.kind()
                == VcxErrorKind::InvalidProof,
            Err(failure) => event->Presentation_1 == Status::Failed(failure),
        },
{
    VerifierEvent::Presentation(presentation, verification_status(verified))
}

/// A verifier: the state machine of one presentation, as the party that asks
/// for the proof. The thread is fixed when the machine is made.
#[derive(Debug, Clone, PartialEq)]
pub struct VerifierSM {
    pub source_id: String,
    pub thread_id: String,
    pub state: VerifierFullState,
}

impl VerifierSM {
    /// The verifier that sent `presentation_request`, on the thread of the
    /// request.
    pub fn new(presentation_request: PresentationRequest, source_id: String) -> (machine:
        VerifierSM)
        ensures
            machine.state == VerifierFullState::PresentationRequestSent(
                PresentationRequestSentState { presentation_request },
            ),
            machine.source_id == source_id,
            machine.thread_id@ == presentation_request.spec_thread_id(),
    {
        let thread_id = presentation_request.get_thread_id();
        VerifierSM {
            source_id,
            thread_id,
            state: VerifierFullState::PresentationRequestSent(
                PresentationRequestSentState::new(presentation_request),
            ),
        }
    }

    /// Applies `event` to the machine: an accepted event installs the next
    /// state, a rejected one leaves the machine as it was and reports the
    /// failure. The thread and the source never change.
    pub fn handle(&mut self, event: VerifierEvent) -> (outcome: VcxResult<()>)
        ensures
            final(self).source_id == old(self).source_id,
            final(self).thread_id == old(self).thread_id,
            match rejection(old(self).state, old(self).thread_id@, event) {
                None => outcome is Ok && final(self).state == next_state(old(self).state, event),
                Some(kind) => outcome is Err && final(self).state == old(self).state
                    && outcome->Err_0.kind() == kind,
            },
    {
        let mut state = VerifierFullState::PresentationRequestSent(
            PresentationRequestSentState::new(
                PresentationRequest {
                    id: MessageId(String::new()),
                    comment: None,
                    request_presentations_attach: Attachments::new(),
                    thread: None,
                },
            ),
        );
        core::mem::swap(&mut self.state, &mut state);
        match state.apply(self.thread_id.as_str(), event) {
            Ok(next) => {
                self.state = next;
                Ok(())
            },
            Err(rejected) => {
                self.state = rejected.state;
                Err(rejected.failure)
            },
        }
    }

    /// Whether the presentation has ended.
    pub fn is_terminal_state(&self) -> (terminal: bool)
        ensures
            terminal == (self.state is Finished),
    {
        match &self.state {
            VerifierFullState::Finished(_) => true,
            _ => false,
        }
    }

    /// How the presentation ended, once it has.
    pub fn presentation_status(&self) -> (status: Option<&Status>)
        ensures
            match self.state {
                VerifierFullState::Finished(state) => status == Some(&state.status),
                _ => status is None,
            },
    {
        match &self.state {
            VerifierFullState::Finished(state) => Some(&state.status),
            _ => None,
        }
    }
}

/// What a `VerifierFullState` is: its value, with texts as sequences of characters.
pub enum VerifierFullStateView {
    PresentationRequestSent(PresentationRequestSentStateView),
    Finished(FinishedStateView),
}

impl View for VerifierFullState {
    type V = VerifierFullStateView;

    open spec fn view(&self) -> VerifierFullStateView {
        match self {
            VerifierFullState::PresentationRequestSent(inner) => {
                VerifierFullStateView::PresentationRequestSent(inner@)
            },
            VerifierFullState::Finished(inner) => VerifierFullStateView::Finished(inner@),
        }
    }
}

impl DeepView for VerifierFullState {
    type V = VerifierFullStateView;

    open spec fn deep_view(&self) -> VerifierFullStateView {
        self@
    }
}

impl VerifierFullStateView {
    /// The document in which the state of the machine is persisted: an object with one member,
    /// named after the variant.
    pub open spec fn to_doc(self) -> JsonDoc {
        match self {
            VerifierFullStateView::PresentationRequestSent(inner) => JsonDoc::Object(
                Map::<Seq<char>, JsonDoc>::empty().insert(
                    "PresentationRequestSent"@,
                    inner.to_doc(),
                ),
            ),
            VerifierFullStateView::Finished(inner) => JsonDoc::Object(
                Map::<Seq<char>, JsonDoc>::empty().insert("Finished"@, inner.to_doc()),
            ),
        }
    }

    /// The state of the machine that a document persists: the first variant, in the order of
    /// their declaration, after which a member is named decides.
    pub open spec fn from_doc(document: JsonDoc) -> Option<VerifierFullStateView> {
        match document {
            JsonDoc::Object(members) => if members.contains_key("PresentationRequestSent"@) {
                match PresentationRequestSentStateView::from_doc(
                    members["PresentationRequestSent"@],
                ) {
                    Some(inner) => Some(VerifierFullStateView::PresentationRequestSent(inner)),
                    None => None,
                }
            } else if members.contains_key("Finished"@) {
                match FinishedStateView::from_doc(members["Finished"@]) {
                    Some(inner) => Some(VerifierFullStateView::Finished(inner)),
                    None => None,
                }
            } else {
                None
            },
            _ => None,
        }
    }

    /// What was persisted is what is read back.
    pub proof fn read_back(self)
        ensures
            VerifierFullStateView::from_doc(self.to_doc()) == Some(self),
            self.to_doc() is Object,
    {
        reveal_strlit("PresentationRequestSent");
        reveal_strlit("Finished");
        assert("PresentationRequestSent"@.len() == 23);
        assert("Finished"@.len() == 8);
        match self {
            VerifierFullStateView::PresentationRequestSent(inner) => {
                inner.read_back();
            },
            VerifierFullStateView::Finished(inner) => {
                inner.read_back();
            },
        }
    }
}

impl VerifierFullState {
    /// Writes the state of the machine as a document.
    pub fn to_document(&self) -> (document: JsonValue)
        ensures
            document@ == self@.to_doc(),
    {
        let mut document = JsonValue::object();
        match self {
            VerifierFullState::PresentationRequestSent(inner) => {
                document.insert(String::from_str("PresentationRequestSent"), inner.to_document());
            },
            VerifierFullState::Finished(inner) => {
                document.insert(String::from_str("Finished"), inner.to_document());
            },
        }
        document
    }

    /// Reads the state of the machine from a document.
    pub fn from_document(document: &JsonValue) -> (read: Option<VerifierFullState>)
        ensures
            match VerifierFullStateView::from_doc(document@) {
                Some(view) => read is Some && read->0@ == view,
                None => read is None,
            },
    {
        if !document.is_object() {
            return None;
        }
        match document.get("PresentationRequestSent") {
            Some(inner) => {
                return match PresentationRequestSentState::from_document(inner) {
                    Some(inner) => Some(VerifierFullState::PresentationRequestSent(inner)),
                    None => None,
                };
            },
            None => {},
        }
        match document.get("Finished") {
            Some(inner) => {
                return match FinishedState::from_document(inner) {
                    Some(inner) => Some(VerifierFullState::Finished(inner)),
                    None => None,
                };
            },
            None => {},
        }
        None
    }

    /// Reads the state of the machine from a member that may be missing.
    pub fn read(member: Option<&JsonValue>) -> (read: Option<VerifierFullState>)
        ensures
            match VerifierFullStateView::from_doc(member_doc(member)) {
                Some(view) => read is Some && read->0@ == view,
                None => read is None,
            },
    {
        match member {
            Some(document) => VerifierFullState::from_document(document),
            None => None,
        }
    }
}

/// What a `VerifierSM` is: its value, with texts as sequences of characters.
pub struct VerifierSMView {
    pub source_id: Seq<char>,
    pub thread_id: Seq<char>,
    pub state: VerifierFullStateView,
}

impl View for VerifierSM {
    type V = VerifierSMView;

    open spec fn view(&self) -> VerifierSMView {
        VerifierSMView {
            source_id: self.source_id@,
            thread_id: self.thread_id@,
            state: self.state@,
        }
    }
}

impl DeepView for VerifierSM {
    type V = VerifierSMView;

    open spec fn deep_view(&self) -> VerifierSMView {
        self@
    }
}

impl VerifierSMView {
    /// The document in which the machine is persisted.
    pub open spec fn to_doc(self) -> JsonDoc {
        JsonDoc::Object(
            Map::<Seq<char>, JsonDoc>::empty().insert(
                "source_id"@,
                JsonDoc::Text(self.source_id),
            ).insert(
                "thread_id"@,
                JsonDoc::Text(self.thread_id),
            ).insert(
                "state"@,
                self.state.to_doc(),
            ),
        )
    }

    /// The machine that a document persists: an object whose members hold it.
    pub open spec fn from_doc(document: JsonDoc) -> Option<VerifierSMView> {
        if document is Object
            && as_text(document.member("source_id"@)) is Some
            && as_text(document.member("thread_id"@)) is Some
            && VerifierFullStateView::from_doc(document.member("state"@)) is Some {
            Some(
                VerifierSMView {
                    source_id: as_text(document.member("source_id"@))->0,
                    thread_id: as_text(document.member("thread_id"@))->0,
                    state: VerifierFullStateView::from_doc(document.member("state"@))->0,
                },
            )
        } else {
            None
        }
    }

    /// What was persisted is what is read back.
    pub proof fn read_back(self)
        ensures
            VerifierSMView::from_doc(self.to_doc()) == Some(self),
            self.to_doc() is Object,
    {
        reveal_strlit("source_id");
        reveal_strlit("thread_id");
        reveal_strlit("state");
        assert("source_id"@.len() == 9);
        assert("thread_id"@.len() == 9);
        assert("state"@.len() == 5);
        assert("source_id"@[0] != "thread_id"@[0]);
        values_are_read_back();
        self.state.read_back();
    }
}

impl VerifierSM {
    /// Writes the machine as a document.
    pub fn to_document(&self) -> (document: JsonValue)
        ensures
            document@ == self@.to_doc(),
    {
        let mut document = JsonValue::object();
        document.insert(String::from_str("source_id"), JsonValue::String(self.source_id.clone()));
        document.insert(String::from_str("thread_id"), JsonValue::String(self.thread_id.clone()));
        document.insert(String::from_str("state"), self.state.to_document());
        document
    }

    /// Reads the machine from a document.
    pub fn from_document(document: &JsonValue) -> (read: Option<VerifierSM>)
        ensures
            match VerifierSMView::from_doc(document@) {
                Some(view) => read is Some && read->0@ == view,
                None => read is None,
            },
    {
        if !document.is_object() {
            return None;
        }
        let source_id = match read_text(document.get("source_id")) {
            Some(value) => value,
            None => {
                return None;
            },
        };
        let thread_id = match read_text(document.get("thread_id")) {
            Some(value) => value,
            None => {
                return None;
            },
        };
        let state = match VerifierFullState::read(document.get("state")) {
            Some(value) => value,
            None => {
                return None;
            },
        };
        Some(VerifierSM { source_id, thread_id, state })
    }

    /// Reads the machine from a member that may be missing.
    pub fn read(member: Option<&JsonValue>) -> (read: Option<VerifierSM>)
        ensures
            match VerifierSMView::from_doc(member_doc(member)) {
                Some(view) => read is Some && read->0@ == view,
                None => read is None,
            },
    {
        match member {
            Some(document) => VerifierSM::from_document(document),
            None => None,
        }
    }
}


/// The verifier that a text persists: the text must be a persisted object of
/// the present version whose data hold the machine.
pub open spec fn persisted_machine(text: Seq<char>) -> Option<VerifierSMView> {
    match persisted_in(text) {
        Some((version, data)) => if version == SERIALIZE_VERSION@ {
            VerifierSMView::from_doc(data)
        } else {
            None
        },
        None => None,
    }
}

/// A machine that was persisted is read back as it was: the document in
/// which it is persisted holds the present version and, as its data, the
/// document from which the machine is read back.
pub proof fn persisted_machine_is_read_back(machine: VerifierSMView)
    ensures
        unframed(framed(SERIALIZE_VERSION@, machine.to_doc())) == Some(
            (SERIALIZE_VERSION@, machine.to_doc()),
        ),
        VerifierSMView::from_doc(machine.to_doc()) == Some(machine),
{
    unframed_is_what_was_framed(SERIALIZE_VERSION@, machine.to_doc());
    machine.read_back();
}

impl VerifierSM {
    /// The text in which the machine is persisted.
    pub fn to_string(&self) -> (text: String)
        ensures
            text@ == json_text(framed(SERIALIZE_VERSION@, self@.to_doc())),
    {
        ObjectWithVersion {
            version: String::from_str(SERIALIZE_VERSION),
            data: self.to_document(),
        }.serialize()
    }

    /// The machine that the persisted object `object` holds.
    ///
    /// Fails with `InvalidJson` where the object is of another version than
    /// the present one or its data hold no machine.
    pub fn from_object(object: ObjectWithVersion) -> (machine: VcxResult<VerifierSM>)
        ensures
            match (if object.version@ == SERIALIZE_VERSION@ {
                VerifierSMView::from_doc(object.data@)
            } else {
                None
            }) {
                Some(view) => machine is Ok && machine->Ok_0@ == view,
                None => machine is Err && machine->Err_0.kind() == VcxErrorKind::InvalidJson,
            },
    {
        if !text_eq(object.version.as_str(), SERIALIZE_VERSION) {
            return Err(
                VcxError::from_msg(
                    VcxErrorKind::InvalidJson,
                    "Found an object of an unsupported version",
                ),
            );
        }
        match VerifierSM::from_document(&object.data) {
            Some(machine) => Ok(machine),
            None => Err(
                VcxError::from_msg(VcxErrorKind::InvalidJson, "Cannot deserialize the machine"),
            ),
        }
    }

    /// The machine that the text `text` persists.
    ///
    /// Fails with `InvalidJson` where the text is no JSON, has not the layout
    /// of a persisted object, is of another version than the present one, or
    /// holds no machine.
    pub fn from_string(text: &str) -> (machine: VcxResult<VerifierSM>)
        ensures
            match persisted_machine(text@) {
                Some(view) => machine is Ok && machine->Ok_0@ == view,
                None => machine is Err && machine->Err_0.kind() == VcxErrorKind::InvalidJson,
            },
    {
        match ObjectWithVersion::deserialize(text) {
            Ok(object) => VerifierSM::from_object(object),
            Err(failure) => Err(failure),
        }
    }
}


impl Correlated for VerifierSM {
    type Event = VerifierEvent;

    open spec fn carried_thread(event: &VerifierEvent) -> Option<ThreadView> {
        match event {
            VerifierEvent::Presentation(presentation, _) => Some(presentation.thread@),
            VerifierEvent::ProblemReport(report) => Some(report@.thread),
        }
    }

    open spec fn conversation_id(&self) -> Seq<char> {
        self.thread_id@
    }

    open spec fn rejects(&self, event: &VerifierEvent) -> Option<VcxErrorKind> {
        rejection(self.state, self.thread_id@, *event)
    }

    open spec fn reaches(&self, event: &VerifierEvent, next: &VerifierSM) -> bool {
        &&& next.state == next_state(self.state, *event)
        &&& next.source_id == self.source_id
        &&& next.thread_id == self.thread_id
    }

    fn event_thread(event: &VerifierEvent) -> (carried: Option<Thread>) {
        match event {
            VerifierEvent::Presentation(presentation, _) => Some(presentation.thread.duplicate()),
            VerifierEvent::ProblemReport(report) => Some(report.thread.duplicate()),
        }
    }

    fn thread_id(&self) -> (id: String) {
        self.thread_id.clone()
    }

    fn step(&mut self, event: VerifierEvent) -> (outcome: VcxResult<()>) {
        self.handle(event)
    }
}

} // verus!
