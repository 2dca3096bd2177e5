//! The prover's state machine.

use vstd::prelude::*;
use vstd::string::StringExecFns;

use crate::error::{VcxError, VcxErrorKind, VcxResult};
use crate::messages::a2a::MessageId;
use crate::messages::attachment::{AttachmentId, AttachmentView};
use crate::messages::error::{ProblemReport, ProblemReportView};
use crate::messages::proof_presentation::presentation::Presentation;
use crate::messages::proof_presentation::presentation_request::PresentationRequest;
use crate::messages::status::Status;
use crate::messages::thread::{Thread, ThreadView};
use crate::protocols::proof_presentation::prover::states::finished::{
    FinishedState, FinishedStateView,
};
use crate::protocols::proof_presentation::prover::states::presentation_preparation_failed::{
    PresentationPreparationFailedState, PresentationPreparationFailedStateView,
};
use crate::protocols::proof_presentation::prover::states::presentation_prepared::{
    PresentationPreparedState, PresentationPreparedStateView,
};
use crate::protocols::proof_presentation::prover::states::presentation_request_received::{
    PresentationRequestReceived, PresentationRequestReceivedView,
};
use crate::utils::codec::{as_text, member_doc, read_text, values_are_read_back};
use crate::utils::json::{json_text, JsonDoc, JsonValue};
use crate::utils::serialization::{
    framed, persisted_in, unframed, unframed_is_what_was_framed, ObjectWithVersion,
    SERIALIZE_VERSION,
};
use crate::utils::text::text_eq;

verus! {

/// The state a prover is in.
#[derive(Debug, Clone, PartialEq)]
pub enum ProverFullState {
    PresentationRequestReceived(PresentationRequestReceived),
    PresentationPrepared(PresentationPreparedState),
    PresentationPreparationFailed(PresentationPreparationFailedState),
    Finished(FinishedState),
}

/// What can happen to a prover.
#[derive(Debug, Clone, PartialEq)]
pub enum ProverEvent {
    /// The proof was made.
    PresentationPrepared(Presentation),
    /// The proof could not be made, for the reason given.
    PreparationFailed(ProblemReport),
    /// The request needs no proof and was accepted as it is.
    NoPresentationRequired,
    /// The request was declined, for the reason given.
    Declined(ProblemReport),
    /// What was prepared, the proof or the report of the failure, was
    /// delivered to the verifier.
    Delivered,
}

/// Whether `state` takes `event`. Everything starts from a request that was
/// received; what was prepared can then be delivered; nothing happens once
/// the presentation has ended.
pub open spec fn accepts(state: ProverFullState, event: ProverEvent) -> bool {
    match (state, event) {
        (ProverFullState::PresentationRequestReceived(_), ProverEvent::Delivered) => false,
        (ProverFullState::PresentationRequestReceived(_), _) => true,
        (ProverFullState::PresentationPrepared(_), ProverEvent::Delivered) => true,
        (ProverFullState::PresentationPreparationFailed(_), ProverEvent::Delivered) => true,
        _ => false,
    }
}

/// The state that an accepted event leads to: it holds what the transition
/// carries over, and nothing else.
pub open spec fn next_state(state: ProverFullState, event: ProverEvent) -> ProverFullState {
    match (state, event) {
        (
            ProverFullState::PresentationRequestReceived(received),
            ProverEvent::PresentationPrepared(presentation),
        ) => ProverFullState::PresentationPrepared(
            PresentationPreparedState {
                presentation_request: received.presentation_request,
                presentation,
            },
        ),
        (
            ProverFullState::PresentationRequestReceived(received),
            ProverEvent::PreparationFailed(problem_report),
        ) => ProverFullState::PresentationPreparationFailed(
            PresentationPreparationFailedState {
                presentation_request: received.presentation_request,
                problem_report,
            },
        ),
        (
            ProverFullState::PresentationRequestReceived(received),
            ProverEvent::NoPresentationRequired,
        ) => ProverFullState::Finished(
            FinishedState {
                presentation_request: Some(received.presentation_request),
                presentation: None,
                status: Status::Success,
            },
        ),
        (
            ProverFullState::PresentationRequestReceived(received),
            ProverEvent::Declined(problem_report),
        ) => ProverFullState::Finished(
            FinishedState {
                presentation_request: Some(received.presentation_request),
                presentation: None,
                status: Status::Declined(problem_report),
            },
        ),
        (ProverFullState::PresentationPrepared(prepared), ProverEvent::Delivered) => {
            ProverFullState::Finished(
                FinishedState {
                    presentation_request: Some(prepared.presentation_request),
                    presentation: Some(prepared.presentation),
                    status: Status::Success,
                },
            )
        },
        (ProverFullState::PresentationPreparationFailed(failed), ProverEvent::Delivered) => {
            ProverFullState::Finished(
                FinishedState {
                    presentation_request: Some(failed.presentation_request),
                    presentation: None,
                    status: Status::Declined(failed.problem_report),
                },
            )
        },
        _ => state,
    }
}

/// A rejected event: the state as it was, and the failure.
#[derive(Debug, Clone, PartialEq)]
pub struct Rejected {
    pub state: ProverFullState,
    pub failure: VcxError,
}

impl ProverFullState {
    /// Applies `event` to the state.
    ///
    /// An accepted event gives the next state. A rejected one gives the state
    /// back as it was, with an `InvalidState` failure.
    pub fn apply(self, event: ProverEvent) -> (outcome: Result<ProverFullState, Rejected>)
        ensures
            accepts(self, event) ==> outcome == Ok::<ProverFullState, Rejected>(
                next_state(self, event),
            ),
            !accepts(self, event) ==> outcome is Err && outcome->Err_0.state == self
                && outcome->Err_0.failure.kind() == VcxErrorKind::InvalidState,
    {
        match (self, event) {
            (
                ProverFullState::PresentationRequestReceived(state),
                ProverEvent::PresentationPrepared(presentation),
            ) => Ok(
                ProverFullState::PresentationPrepared(
                    PresentationPreparedState::from((state, presentation)),
                ),
            ),
            (
                ProverFullState::PresentationRequestReceived(state),
                ProverEvent::PreparationFailed(problem_report),
            ) => Ok(
                ProverFullState::PresentationPreparationFailed(
                    PresentationPreparationFailedState::from((state, problem_report)),
                ),
            ),
            (
                ProverFullState::PresentationRequestReceived(state),
                ProverEvent::NoPresentationRequired,
            ) => Ok(ProverFullState::Finished(FinishedState::from(state))),
            (
                ProverFullState::PresentationRequestReceived(state),
                ProverEvent::Declined(problem_report),
            ) => Ok(ProverFullState::Finished(FinishedState::from((state, problem_report)))),
            (ProverFullState::PresentationPrepared(state), ProverEvent::Delivered) => Ok(
                ProverFullState::Finished(FinishedState::from(state)),
            ),
            (ProverFullState::PresentationPreparationFailed(state), ProverEvent::Delivered) => Ok(
                ProverFullState::Finished(FinishedState::from(state)),
            ),
            (state, _) => Err(
                Rejected {
                    state,
                    failure: VcxError::from_msg(
                        VcxErrorKind::InvalidState,
                        "The message is not expected in this state",
                    ),
                },
            ),
        }
    }
}

/// The event that the answer of the credential backend amounts to, for a
/// presentation on the thread `thread_id`: a proof gives the presentation
/// message that carries it, a failure gives the report that describes it.
/// The messages get the identifier `id`.
pub fn generated_event(generated: VcxResult<String>, id: MessageId, thread_id: &str) -> (event:
    ProverEvent)
    ensures
        match generated {
            Ok(proof) => {
                &&& event is PresentationPrepared
                &&& event->PresentationPrepared_0.id == id
                &&& event->PresentationPrepared_0.comment is None
                &&& event->PresentationPrepared_0.presentations_attach@ == seq![
                    AttachmentView::json(AttachmentId::Presentation, proof@),
                ]
                &&& event->PresentationPrepared_0.thread@ == (ThreadView {
                    thid: Some(thread_id@),
                    ..Thread::new_view()
                })
                &&& event->PresentationPrepared_0.please_ack is None
            },
            Err(failure) => {
                &&& event is PreparationFailed
                &&& event->PreparationFailed_0@ == (ProblemReportView {
                    id: id@,
                    thread: ThreadView { thid: Some(thread_id@), ..Thread::new_view() },
                    description: Some(failure.spec_message()),
                    code: Some(failure.spec_kind().spec_code()),
                })
            },
        },
{
    match generated {
        Ok(proof) => ProverEvent::PresentationPrepared(
            Presentation::create_with_id(id, thread_id, proof.as_str()),
        ),
        Err(failure) => {
            let description = failure.message().to_owned();
            let code = failure.kind().code();
            ProverEvent::PreparationFailed(
                ProblemReport::create_with_id(id).set_thread_id(thread_id).set_description(
                    description,
                ).set_code(code),
            )
        },
    }
}

/// A prover: the state machine of one presentation, as the party that
/// proves. The thread is fixed when the machine is made.
#[derive(Debug, Clone, PartialEq)]
pub struct ProverSM {
    pub source_id: String,
    pub thread_id: String,
    pub state: ProverFullState,
}

impl ProverSM {
    /// The prover that received `presentation_request`, on the thread of the
    /// request.
    pub fn new(presentation_request: PresentationRequest, source_id: String) -> (machine: ProverSM)
        ensures
            machine.state == ProverFullState::PresentationRequestReceived(
                PresentationRequestReceived { presentation_request },
            ),
            machine.source_id == source_id,
            machine.thread_id@ == presentation_request.spec_thread_id(),
    {
        let thread_id = presentation_request.get_thread_id();
        ProverSM {
            source_id,
            thread_id,
            state: ProverFullState::PresentationRequestReceived(
                PresentationRequestReceived::new(presentation_request),
            ),
        }
    }

    /// Applies `event` to the machine: an accepted event installs the next
    /// state, a rejected one leaves the machine as it was and reports an
    /// `InvalidState` failure. The thread and the source never change.
    pub fn handle(&mut self, event: ProverEvent) -> (outcome: VcxResult<()>)
        ensures
            final(self).source_id == old(self).source_id,
            final(self).thread_id == old(self).thread_id,
            accepts(old(self).state, event) ==> outcome is Ok && final(self).state == next_state(
                old(self).state,
                event,
            ),
            !accepts(old(self).state, event) ==> outcome is Err && final(self).state == old(
                self,
            ).state && outcome->Err_0.kind() == VcxErrorKind::InvalidState,
    {
        let mut state = ProverFullState::Finished(
            FinishedState { presentation_request: None, presentation: None, status: Status::Success },
        );
        core::mem::swap(&mut self.state, &mut state);
        match state.apply(event) {
            Ok(next) => {
                self.state = next;
                Ok(())
            },
            Err(rejected) => {
                self.state = rejected.state;
                Err(rejected.failure)
            },
        }
    }

    /// Whether the presentation has ended.
    pub fn is_terminal_state(&self) -> (terminal: bool)
        ensures
            terminal == (self.state is Finished),
    {
        match &self.state {
            ProverFullState::Finished(_) => true,
            _ => false,
        }
    }

    /// The presentation request that the machine is about, as long as it is
    /// kept.
    pub fn presentation_request(&self) -> (request: Option<&PresentationRequest>)
        ensures
            match self.state {
                ProverFullState::PresentationRequestReceived(state) => request == Some(
                    &state.presentation_request,
                ),
                ProverFullState::PresentationPrepared(state) => request == Some(
                    &state.presentation_request,
                ),
                ProverFullState::PresentationPreparationFailed(state) => request == Some(
                    &state.presentation_request,
                ),
                ProverFullState::Finished(state) => match state.presentation_request {
                    Some(kept) => request == Some(&kept),
                    None => request is None,
                },
            },
    {
        match &self.state {
            ProverFullState::PresentationRequestReceived(state) => Some(
                &state.presentation_request,
            ),
            ProverFullState::PresentationPrepared(state) => Some(&state.presentation_request),
            ProverFullState::PresentationPreparationFailed(state) => Some(
                &state.presentation_request,
            ),
            ProverFullState::Finished(state) => match &state.presentation_request {
                Some(kept) => Some(kept),
                None => None,
            },
        }
    }
}

/// What a `ProverFullState` is: its value, with texts as sequences of characters.
pub enum ProverFullStateView {
    PresentationRequestReceived(PresentationRequestReceivedView),
    PresentationPrepared(PresentationPreparedStateView),
    PresentationPreparationFailed(PresentationPreparationFailedStateView),
    Finished(FinishedStateView),
}

impl View for ProverFullState {
    type V = ProverFullStateView;

    open spec fn view(&self) -> ProverFullStateView {
        match self {
            ProverFullState::PresentationRequestReceived(inner) => {
                ProverFullStateView::PresentationRequestReceived(inner@)
            },
            ProverFullState::PresentationPrepared(inner) => {
                ProverFullStateView::PresentationPrepared(inner@)
            },
            ProverFullState::PresentationPreparationFailed(inner) => {
                ProverFullStateView::PresentationPreparationFailed(inner@)
            },
            ProverFullState::Finished(inner) => ProverFullStateView::Finished(inner@),
        }
    }
}

impl DeepView for ProverFullState {
    type V = ProverFullStateView;

    open spec fn deep_view(&self) -> ProverFullStateView {
        self@
    }
}

impl ProverFullStateView {
    /// The document in which the state of the machine is persisted: an object with one member,
    /// named after the variant.
    pub open spec fn to_doc(self) -> JsonDoc {
        match self {
            ProverFullStateView::PresentationRequestReceived(inner) => JsonDoc::Object(
                Map::<Seq<char>, JsonDoc>::empty().insert(
                    "PresentationRequestReceived"@,
                    inner.to_doc(),
                ),
            ),
            ProverFullStateView::PresentationPrepared(inner) => JsonDoc::Object(
                Map::<Seq<char>, JsonDoc>::empty().insert("PresentationPrepared"@, inner.to_doc()),
            ),
            ProverFullStateView::PresentationPreparationFailed(inner) => JsonDoc::Object(
                Map::<Seq<char>, JsonDoc>::empty().insert(
                    "PresentationPreparationFailed"@,
                    inner.to_doc(),
                ),
            ),
            ProverFullStateView::Finished(inner) => JsonDoc::Object(
                Map::<Seq<char>, JsonDoc>::empty().insert("Finished"@, inner.to_doc()),
            ),
        }
    }

    /// The state of the machine that a document persists: the first variant, in the order of
    /// their declaration, after which a member is named decides.
    pub open spec fn from_doc(document: JsonDoc) -> Option<ProverFullStateView> {
        match document {
            JsonDoc::Object(members) => if members.contains_key("PresentationRequestReceived"@) {
                match PresentationRequestReceivedView::from_doc(
                    members["PresentationRequestReceived"@],
                ) {
                    Some(inner) => Some(ProverFullStateView::PresentationRequestReceived(inner)),
                    None => None,
                }
            } else if members.contains_key("PresentationPrepared"@) {
                match PresentationPreparedStateView::from_doc(members["PresentationPrepared"@]) {
                    Some(inner) => Some(ProverFullStateView::PresentationPrepared(inner)),
                    None => None,
                }
            } else if members.contains_key("PresentationPreparationFailed"@) {
                match PresentationPreparationFailedStateView::from_doc(
                    members["PresentationPreparationFailed"@],
                ) {
                    Some(inner) => Some(ProverFullStateView::PresentationPreparationFailed(inner)),
                    None => None,
                }
            } else if members.contains_key("Finished"@) {
                match FinishedStateView::from_doc(members["Finished"@]) {
                    Some(inner) => Some(ProverFullStateView::Finished(inner)),
                    None => None,
                }
            } else {
                None
            },
            _ => None,
        }
    }

    /// What was persisted is what is read back.
    pub proof fn read_back(self)
        ensures
            ProverFullStateView::from_doc(self.to_doc()) == Some(self),
            self.to_doc() is Object,
    {
        reveal_strlit("PresentationRequestReceived");
        reveal_strlit("PresentationPrepared");
        reveal_strlit("PresentationPreparationFailed");
        reveal_strlit("Finished");
        assert("PresentationRequestReceived"@.len() == 27);
        assert("PresentationPrepared"@.len() == 20);
        assert("PresentationPreparationFailed"@.len() == 29);
        assert("Finished"@.len() == 8);
        match self {
            ProverFullStateView::PresentationRequestReceived(inner) => {
                inner.read_back();
            },
            ProverFullStateView::PresentationPrepared(inner) => {
                inner.read_back();
            },
            ProverFullStateView::PresentationPreparationFailed(inner) => {
                inner.read_back();
            },
            ProverFullStateView::Finished(inner) => {
                inner.read_back();
            },
        }
    }
}

impl ProverFullState {
    /// Writes the state of the machine as a document.
    pub fn to_document(&self) -> (document: JsonValue)
        ensures
            document@ == self@.to_doc(),
    {
        let mut document = JsonValue::object();
        match self {
            ProverFullState::PresentationRequestReceived(inner) => {
                document.insert(
                    String::from_str("PresentationRequestReceived"),
                    inner.to_document(),
                );
            },
            ProverFullState::PresentationPrepared(inner) => {
                document.insert(String::from_str("PresentationPrepared"), inner.to_document());
            },
            ProverFullState::PresentationPreparationFailed(inner) => {
                document.insert(
                    String::from_str("PresentationPreparationFailed"),
                    inner.to_document(),
                );
            },
            ProverFullState::Finished(inner) => {
                document.insert(String::from_str("Finished"), inner.to_document());
            },
        }
        document
    }

    /// Reads the state of the machine from a document.
    pub fn from_document(document: &JsonValue) -> (read: Option<ProverFullState>)
        ensures
            match ProverFullStateView::from_doc(document@) {
                Some(view) => read is Some && read->0@ == view,
                None => read is None,
            },
    {
        if !document.is_object() {
            return None;
        }
        match document.get("PresentationRequestReceived") {
            Some(inner) => {
                return match PresentationRequestReceived::from_document(inner) {
                    Some(inner) => Some(ProverFullState::PresentationRequestReceived(inner)),
                    None => None,
                };
            },
            None => {},
        }
        match document.get("PresentationPrepared") {
            Some(inner) => {
                return match PresentationPreparedState::from_document(inner) {
                    Some(inner) => Some(ProverFullState::PresentationPrepared(inner)),
                    None => None,
                };
            },
            None => {},
        }
        match document.get("PresentationPreparationFailed") {
            Some(inner) => {
                return match PresentationPreparationFailedState::from_document(inner) {
                    Some(inner) => Some(ProverFullState::PresentationPreparationFailed(inner)),
                    None => None,
                };
            },
            None => {},
        }
        match document.get("Finished") {
            Some(inner) => {
                return match FinishedState::from_document(inner) {
                    Some(inner) => Some(ProverFullState::Finished(inner)),
                    None => None,
                };
            },
            None => {},
        }
        None
    }

    /// Reads the state of the machine from a member that may be missing.
    pub fn read(member: Option<&JsonValue>) -> (read: Option<ProverFullState>)
        ensures
            match ProverFullStateView::from_doc(member_doc(member)) {
                Some(view) => read is Some && read->0@ == view,
                None => read is None,
            },
    {
        match member {
            Some(document) => ProverFullState::from_document(document),
            None => None,
        }
    }
}

/// What a `ProverSM` is: its value, with texts as sequences of characters.
pub struct ProverSMView {
    pub source_id: Seq<char>,
    pub thread_id: Seq<char>,
    pub state: ProverFullStateView,
}

impl View for ProverSM {
    type V = ProverSMView;

    open spec fn view(&self) -> ProverSMView {
        ProverSMView {
            source_id: self.source_id@,
            thread_id: self.thread_id@,
            state: self.state@,
        }
    }
}

impl DeepView for ProverSM {
    type V = ProverSMView;

    open spec fn deep_view(&self) -> ProverSMView {
        self@
    }
}

impl ProverSMView {
    /// The document in which the machine is persisted.
    pub open spec fn to_doc(self) -> JsonDoc {
        JsonDoc::Object(
            Map::<Seq<char>, JsonDoc>::empty().insert(
                "source_id"@,
                JsonDoc::Text(self.source_id),
            ).insert(
                "thread_id"@,
                JsonDoc::Text(self.thread_id),
            ).insert(
                "state"@,
                self.state.to_doc(),
            ),
        )
    }

    /// The machine that a document persists: an object whose members hold it.
    pub open spec fn from_doc(document: JsonDoc) -> Option<ProverSMView> {
        if document is Object
            && as_text(document.member("source_id"@)) is Some
            && as_text(document.member("thread_id"@)) is Some
            && ProverFullStateView::from_doc(document.member("state"@)) is Some {
            Some(
                ProverSMView {
                    source_id: as_text(document.member("source_id"@))->0,
                    thread_id: as_text(document.member("thread_id"@))->0,
                    state: ProverFullStateView::from_doc(document.member("state"@))->0,
                },
            )
        } else {
            None
        }
    }

    /// What was persisted is what is read back.
    pub proof fn read_back(self)
        ensures
            ProverSMView::from_doc(self.to_doc()) == Some(self),
            self.to_doc() is Object,
    {
        reveal_strlit("source_id");
        reveal_strlit("thread_id");
        reveal_strlit("state");
        assert("source_id"@.len() == 9);
        assert("thread_id"@.len() == 9);
        assert("state"@.len() == 5);
        assert("source_id"@[0] != "thread_id"@[0]);
        values_are_read_back();
        self.state.read_back();
    }
}

impl ProverSM {
    /// Writes the machine as a document.
    pub fn to_document(&self) -> (document: JsonValue)
        ensures
            document@ == self@.to_doc(),
    {
        let mut document = JsonValue::object();
        document.insert(String::from_str("source_id"), JsonValue::String(self.source_id.clone()));
        document.insert(String::from_str("thread_id"), JsonValue::String(self.thread_id.clone()));
        document.insert(String::from_str("state"), self.state.to_document());
        document
    }

    /// Reads the machine from a document.
    pub fn from_document(document: &JsonValue) -> (read: Option<ProverSM>)
        ensures
            match ProverSMView::from_doc(document@) {
                Some(view) => read is Some && read->0@ == view,
                None => read is None,
            },
    {
        if !document.is_object() {
            return None;
        }
        let source_id = match read_text(document.get("source_id")) {
            Some(value) => value,
            None => {
                return None;
            },
        };
        let thread_id = match read_text(document.get("thread_id")) {
            Some(value) => value,
            None => {
                return None;
            },
        };
        let state = match ProverFullState::read(document.get("state")) {
            Some(value) => value,
            None => {
                return None;
            },
        };
        Some(ProverSM { source_id, thread_id, state })
    }

    /// Reads the machine from a member that may be missing.
    pub fn read(member: Option<&JsonValue>) -> (read: Option<ProverSM>)
        ensures
            match ProverSMView::from_doc(member_doc(member)) {
                Some(view) => read is Some && read->0@ == view,
                None => read is None,
            },
    {
        match member {
            Some(document) => ProverSM::from_document(document),
            None => None,
        }
    }
}


/// The prover that a text persists: the text must be a persisted object of
/// the present version whose data hold the machine.
pub open spec fn persisted_machine(text: Seq<char>) -> Option<ProverSMView> {
    match persisted_in(text) {
        Some((version, data)) => if version == SERIALIZE_VERSION@ {
            ProverSMView::from_doc(data)
        } else {
            None
        },
        None => None,
    }
}

/// A machine that was persisted is read back as it was: the document in
/// which it is persisted holds the present version and, as its data, the
/// document from which the machine is read back.
pub proof fn persisted_machine_is_read_back(machine: ProverSMView)
    ensures
        unframed(framed(SERIALIZE_VERSION@, machine.to_doc())) == Some(
            (SERIALIZE_VERSION@, machine.to_doc()),
        ),
        ProverSMView::from_doc(machine.to_doc()) == Some(machine),
{
    unframed_is_what_was_framed(SERIALIZE_VERSION@, machine.to_doc());
    machine.read_back();
}

impl ProverSM {
    /// The text in which the machine is persisted.
    pub fn to_string(&self) -> (text: String)
        ensures
            text@ == json_text(framed(SERIALIZE_VERSION@, self@.to_doc())),
    {
        ObjectWithVersion {
            version: String::from_str(SERIALIZE_VERSION),
            data: self.to_document(),
        }.serialize()
    }

    /// The machine that the persisted object `object` holds.
    ///
    /// Fails with `InvalidJson` where the object is of another version than
    /// the present one or its data hold no machine.
    pub fn from_object(object: ObjectWithVersion) -> (machine: VcxResult<ProverSM>)
        ensures
            match (if object.version@ == SERIALIZE_VERSION@ {
                ProverSMView::from_doc(object.data@)
            } else {
                None
            }) {
                Some(view) => machine is Ok && machine->Ok_0@ == view,
                None => machine is Err && machine->Err_0.kind() == VcxErrorKind::InvalidJson,
            },
    {
        if !text_eq(object.version.as_str(), SERIALIZE_VERSION) {
            return Err(
                VcxError::from_msg(
                    VcxErrorKind::InvalidJson,
                    "Found an object of an unsupported version",
                ),
            );
        }
        match ProverSM::from_document(&object.data) {
            Some(machine) => Ok(machine),
            None => Err(
                VcxError::from_msg(VcxErrorKind::InvalidJson, "Cannot deserialize the machine"),
            ),
        }
    }

    /// The machine that the text `text` persists.
    ///
    /// Fails with `InvalidJson` where the text is no JSON, has not the layout
    /// of a persisted object, is of another version than the present one, or
    /// holds no machine.
    pub fn from_string(text: &str) -> (machine: VcxResult<ProverSM>)
        ensures
            match persisted_machine(text@) {
                Some(view) => machine is Ok && machine->Ok_0@ == view,
                None => machine is Err && machine->Err_0.kind() == VcxErrorKind::InvalidJson,
            },
    {
        match ObjectWithVersion::deserialize(text) {
            Ok(object) => ProverSM::from_object(object),
            Err(failure) => Err(failure),
        }
    }
}

} // verus!
