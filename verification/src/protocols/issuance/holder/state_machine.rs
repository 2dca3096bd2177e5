//! The holder's state machine.

use vstd::prelude::*;
use vstd::string::StringExecFns;

use crate::error::{VcxError, VcxErrorKind, VcxResult};
use crate::messages::error::ProblemReport;
use crate::messages::issuance::credential::Credential;
use crate::messages::issuance::credential_offer::CredentialOffer;
use crate::messages::status::Status;
use crate::messages::thread::{Thread, ThreadView};
use crate::protocols::conversation::Correlated;
use crate::protocols::issuance::holder::states::finished::{
    FinishedHolderState, FinishedHolderStateView,
};
use crate::protocols::issuance::holder::states::offer_received::{
    OfferReceivedState, OfferReceivedStateView,
};
use crate::protocols::issuance::holder::states::request_sent::{
    RequestSentState, RequestSentStateView,
};
use crate::utils::codec::{as_text, member_doc, read_text, values_are_read_back};
use crate::utils::json::{json_text, JsonDoc, JsonValue};
use crate::utils::serialization::{
    framed, persisted_in, unframed, unframed_is_what_was_framed, ObjectWithVersion,
    SERIALIZE_VERSION,
};
use crate::utils::text::text_eq;

verus! {

/// The state a holder is in.
#[derive(Debug, Clone, PartialEq)]
pub enum HolderFullState {
    OfferReceived(OfferReceivedState),
    RequestSent(RequestSentState),
    Finished(FinishedHolderState),
}

/// What can happen to a holder.
#[derive(Debug, Clone, PartialEq)]
pub enum HolderEvent {
    /// The request was made and sent: its metadata and the credential
    /// definition, as JSON text.
    CredentialRequestSent(String, String),
    /// The credential arrived and was stored: the identifier under which it
    /// was stored, the message, and the revocation registry definition where
    /// the credential can be revoked.
    Credential(String, Credential, Option<String>),
    /// A problem report arrived.
    ProblemReport(ProblemReport),
}

/// What an event does to a state: the kind of failure with which it is
/// rejected, or nothing where it is accepted.
///
/// The request can be sent once an offer was received, and the credential
/// can arrive once the request was sent. A problem report is accepted until
/// the issuance has ended. A credential or a report that is not on the
/// thread of the issuance is rejected.
pub open spec fn rejection(state: HolderFullState, thread_id: Seq<char>, event: HolderEvent)
    -> Option<VcxErrorKind> {
    match (state, event) {
        (HolderFullState::Finished(_), _) => Some(VcxErrorKind::InvalidState),
        (_, HolderEvent::ProblemReport(report)) => if report@.thread.thid.unwrap_or(Seq::empty())
            == thread_id {
            None
        } else {
            Some(VcxErrorKind::InvalidThread)
        },
        (HolderFullState::OfferReceived(_), HolderEvent::CredentialRequestSent(_, _)) => None,
        (HolderFullState::RequestSent(_), HolderEvent::Credential(_, credential, _)) => if credential@.thread.thid.unwrap_or(
            Seq::empty(),
        ) == thread_id {
            None
        } else {
            Some(VcxErrorKind::InvalidThread)
        },
        _ => Some(VcxErrorKind::InvalidState),
    }
}

/// The state that an accepted event leads to: it holds what the transition
/// carries over, and nothing else.
pub open spec fn next_state(state: HolderFullState, event: HolderEvent) -> HolderFullState {
    match (state, event) {
        (_, HolderEvent::ProblemReport(report)) => HolderFullState::Finished(
            FinishedHolderState::declined(report),
        ),
        (_, HolderEvent::CredentialRequestSent(req_meta, cred_def_json)) => {
            HolderFullState::RequestSent(RequestSentState { req_meta, cred_def_json })
        },
        (_, HolderEvent::Credential(cred_id, credential, rev_reg_def_json)) => {
            HolderFullState::Finished(
                FinishedHolderState {
                    cred_id: Some(cred_id),
                    credential: Some(credential),
                    status: Status::Success,
                    rev_reg_def_json,
                },
            )
        },
    }
}

/// A rejected event: the state as it was, and the failure.
#[derive(Debug, Clone, PartialEq)]
pub struct Rejected {
    pub state: HolderFullState,
    pub failure: VcxError,
}

impl HolderFullState {
    /// Applies `event` to the state of an issuance on the thread `thread_id`.
    ///
    /// An accepted event gives the next state. A rejected one gives the state
    /// back as it was, with the failure: `InvalidState` for an event that the
    /// state does not take, `InvalidThread` for a message of another thread.
    pub fn apply(self, thread_id: &str, event: HolderEvent) -> (outcome: Result<
        HolderFullState,
        Rejected,
    >)
        ensures
            match rejection(self, thread_id@, event) {
                None => outcome == Ok::<HolderFullState, Rejected>(next_state(self, event)),
                Some(kind) => outcome is Err && outcome->Err_0.state == self
                    && outcome->Err_0.failure.kind() == kind,
            },
    {
        match (self, event) {
            (HolderFullState::Finished(state), _) => Err(
                Rejected {
                    state: HolderFullState::Finished(state),
                    failure: VcxError::from_msg(
                        VcxErrorKind::InvalidState,
                        "The issuance has ended",
                    ),
                },
            ),
            (HolderFullState::OfferReceived(state), HolderEvent::ProblemReport(report)) => {
                if report.thread.is_reply(thread_id) {
                    Ok(HolderFullState::Finished(FinishedHolderState::from((state, report))))
                } else {
                    Err(
                        Rejected {
                            state: HolderFullState::OfferReceived(state),
                            failure: VcxError::from_msg(
                                VcxErrorKind::InvalidThread,
                                "The problem report is not on the thread of the issuance",
                            ),
                        },
                    )
                }
            },
            (HolderFullState::RequestSent(state), HolderEvent::ProblemReport(report)) => {
                if report.thread.is_reply(thread_id) {
                    Ok(HolderFullState::Finished(FinishedHolderState::from((state, report))))
                } else {
                    Err(
                        Rejected {
                            state: HolderFullState::RequestSent(state),
                            failure: VcxError::from_msg(
                                VcxErrorKind::InvalidThread,
                                "The problem report is not on the thread of the issuance",
                            ),
                        },
                    )
                }
            },
            (
                HolderFullState::OfferReceived(state),
                HolderEvent::CredentialRequestSent(req_meta, cred_def_json),
            ) => Ok(
                HolderFullState::RequestSent(RequestSentState::from((state, req_meta, cred_def_json))),
            ),
            (
                HolderFullState::RequestSent(state),
                HolderEvent::Credential(cred_id, credential, rev_reg_def_json),
            ) => {
                if credential.from_thread(thread_id) {
                    Ok(
                        HolderFullState::Finished(
                            FinishedHolderState::from(
                                (state, cred_id, credential, rev_reg_def_json),
                            ),
                        ),
                    )
                } else {
                    Err(
                        Rejected {
                            state: HolderFullState::RequestSent(state),
                            failure: VcxError::from_msg(
                                VcxErrorKind::InvalidThread,
                                "The credential is not on the thread of the issuance",
                            ),
                        },
                    )
                }
            },
            (state, _) => Err(
                Rejected {
                    state,
                    failure: VcxError::from_msg(
                        VcxErrorKind::InvalidState,
                        "The message is not expected in this state",
                    ),
                },
            ),
        }
    }
}

/// A holder: the state machine of one issuance, as the party that receives
/// the credential. The thread is fixed when the machine is made.
#[derive(Debug, Clone, PartialEq)]
pub struct HolderSM {
    pub state: HolderFullState,
    pub source_id: String,
    pub thread_id: String,
}

impl HolderSM {
    /// The holder that received `offer`, on the thread of the offer.
    pub fn new(offer: CredentialOffer, source_id: String) -> (machine: HolderSM)
        ensures
            machine.state == HolderFullState::OfferReceived(OfferReceivedState { offer }),
            machine.source_id == source_id,
            machine.thread_id@ == offer.spec_thread_id(),
    {
        let thread_id = offer.get_thread_id();
        HolderSM {
            state: HolderFullState::OfferReceived(OfferReceivedState::new(offer)),
            source_id,
            thread_id,
        }
    }

    /// Applies `event` to the machine: an accepted event installs the next
    /// state, a rejected one leaves the machine as it was and reports the
    /// failure. The thread and the source never change.
    pub fn handle(&mut self, event: HolderEvent) -> (outcome: VcxResult<()>)
        ensures
            final(self).source_id == old(self).source_id,
            final(self).thread_id == old(self).thread_id,
            match rejection(old(self).state, old(self).thread_id@, event) {
                None => outcome is Ok && final(self).state == next_state(old(self).state, event),
                Some(kind) => outcome is Err && final(self).state == old(self).state
                    && outcome->Err_0.kind() == kind,
            },
    {
        let mut state = HolderFullState::RequestSent(
            RequestSentState { req_meta: String::new(), cred_def_json: String::new() },
        );
        core::mem::swap(&mut self.state, &mut state);
        match state.apply(self.thread_id.as_str(), event) {
            Ok(next) => {
                self.state = next;
                Ok(())
            },
            Err(rejected) => {
                self.state = rejected.state;
                Err(rejected.failure)
            },
        }
    }

    /// Whether the issuance has ended.
    pub fn is_terminal_state(&self) -> (terminal: bool)
        ensures
            terminal == (self.state is Finished),
    {
        match &self.state {
            HolderFullState::Finished(_) => true,
            _ => false,
        }
    }

    /// Whether the credential can be revoked: once the request was sent, what
    /// the credential definition says; once the issuance ended, whether a
    /// revocation registry definition was recorded.
    ///
    /// Fails with `InvalidState` while only the offer is there, and as
    /// [`RequestSentState::is_revokable`] does.
    pub fn is_revokable(&self) -> (revokable: VcxResult<bool>)
        ensures
            match self.state {
                HolderFullState::OfferReceived(_) => revokable is Err && revokable->Err_0.kind()
                    == VcxErrorKind::InvalidState,
                HolderFullState::RequestSent(state) => match crate::utils::json::json_parsed(
                    state.cred_def_json@,
                ) {
                    Some(cred_def) => revokable == Ok::<bool, VcxError>(
                        crate::protocols::issuance::holder::states::request_sent::supports_revocation(
                            cred_def,
                        ),
                    ),
                    None => revokable is Err && revokable->Err_0.kind()
                        == VcxErrorKind::SerializationError,
                },
                HolderFullState::Finished(state) => revokable == Ok::<bool, VcxError>(
                    state.rev_reg_def_json is Some,
                ),
            },
    {
        match &self.state {
            HolderFullState::OfferReceived(_) => Err(
                VcxError::from_msg(
                    VcxErrorKind::InvalidState,
                    "Revocation is not known before the request was sent",
                ),
            ),
            HolderFullState::RequestSent(state) => state.is_revokable(),
            HolderFullState::Finished(state) => Ok(state.is_revokable()),
        }
    }
}

/// What a `HolderFullState` is: its value, with texts as sequences of characters.
pub enum HolderFullStateView {
    OfferReceived(OfferReceivedStateView),
    RequestSent(RequestSentStateView),
    Finished(FinishedHolderStateView),
}

impl View for HolderFullState {
    type V = HolderFullStateView;

    open spec fn view(&self) -> HolderFullStateView {
        match self {
            HolderFullState::OfferReceived(inner) => HolderFullStateView::OfferReceived(inner@),
            HolderFullState::RequestSent(inner) => HolderFullStateView::RequestSent(inner@),
            HolderFullState::Finished(inner) => HolderFullStateView::Finished(inner@),
        }
    }
}

impl DeepView for HolderFullState {
    type V = HolderFullStateView;

    open spec fn deep_view(&self) -> HolderFullStateView {
        self@
    }
}

impl HolderFullStateView {
    /// The document in which the state of the machine is persisted: an object with one member,
    /// named after the variant.
    pub open spec fn to_doc(self) -> JsonDoc {
        match self {
            HolderFullStateView::OfferReceived(inner) => JsonDoc::Object(
                Map::<Seq<char>, JsonDoc>::empty().insert("OfferReceived"@, inner.to_doc()),
            ),
            HolderFullStateView::RequestSent(inner) => JsonDoc::Object(
                Map::<Seq<char>, JsonDoc>::empty().insert("RequestSent"@, inner.to_doc()),
            ),
            HolderFullStateView::Finished(inner) => JsonDoc::Object(
                Map::<Seq<char>, JsonDoc>::empty().insert("Finished"@, inner.to_doc()),
            ),
        }
    }

    /// The state of the machine that a document persists: the first variant, in the order of
    /// their declaration, after which a member is named decides.
    pub open spec fn from_doc(document: JsonDoc) -> Option<HolderFullStateView> {
        match document {
            JsonDoc::Object(members) => if members.contains_key("OfferReceived"@) {
                match OfferReceivedStateView::from_doc(members["OfferReceived"@]) {
                    Some(inner) => Some(HolderFullStateView::OfferReceived(inner)),
                    None => None,
                }
            } else if members.contains_key("RequestSent"@) {
                match RequestSentStateView::from_doc(members["RequestSent"@]) {
                    Some(inner) => Some(HolderFullStateView::RequestSent(inner)),
                    None => None,
                }
            } else if members.contains_key("Finished"@) {
                match FinishedHolderStateView::from_doc(members["Finished"@]) {
                    Some(inner) => Some(HolderFullStateView::Finished(inner)),
                    None => None,
                }
            } else {
                None
            },
            _ => None,
        }
    }

    /// What was persisted is what is read back.
    pub proof fn read_back(self)
        ensures
            HolderFullStateView::from_doc(self.to_doc()) == Some(self),
            self.to_doc() is Object,
    {
        reveal_strlit("OfferReceived");
        reveal_strlit("RequestSent");
        reveal_strlit("Finished");
        assert("OfferReceived"@.len() == 13);
        assert("RequestSent"@.len() == 11);
        assert("Finished"@.len() == 8);
        match self {
            HolderFullStateView::OfferReceived(inner) => {
                inner.read_back();
            },
            HolderFullStateView::RequestSent(inner) => {
                inner.read_back();
            },
            HolderFullStateView::Finished(inner) => {
                inner.read_back();
            },
        }
    }
}

impl HolderFullState {
    /// Writes the state of the machine as a document.
    pub fn to_document(&self) -> (document: JsonValue)
        ensures
            document@ == self@.to_doc(),
    {
        let mut document = JsonValue::object();
        match self {
            HolderFullState::OfferReceived(inner) => {
                document.insert(String::from_str("OfferReceived"), inner.to_document());
            },
            HolderFullState::RequestSent(inner) => {
                document.insert(String::from_str("RequestSent"), inner.to_document());
            },
            HolderFullState::Finished(inner) => {
                document.insert(String::from_str("Finished"), inner.to_document());
            },
        }
        document
    }

    /// Reads the state of the machine from a document.
    pub fn from_document(document: &JsonValue) -> (read: Option<HolderFullState>)
        ensures
            match HolderFullStateView::from_doc(document@) {
                Some(view) => read is Some && read->0@ == view,
                None => read is None,
            },
    {
        if !document.is_object() {
            return None;
        }
        match document.get("OfferReceived") {
            Some(inner) => {
                return match OfferReceivedState::from_document(inner) {
                    Some(inner) => Some(HolderFullState::OfferReceived(inner)),
                    None => None,
                };
            },
            None => {},
        }
        match document.get("RequestSent") {
            Some(inner) => {
                return match RequestSentState::from_document(inner) {
                    Some(inner) => Some(HolderFullState::RequestSent(inner)),
                    None => None,
                };
            },
            None => {},
        }
        match document.get("Finished") {
            Some(inner) => {
                return match FinishedHolderState::from_document(inner) {
                    Some(inner) => Some(HolderFullState::Finished(inner)),
                    None => None,
                };
            },
            None => {},
        }
        None
    }

    /// Reads the state of the machine from a member that may be missing.
    pub fn read(member: Option<&JsonValue>) -> (read: Option<HolderFullState>)
        ensures
            match HolderFullStateView::from_doc(member_doc(member)) {
                Some(view) => read is Some && read->0@ == view,
                None => read is None,
            },
    {
        match member {
            Some(document) => HolderFullState::from_document(document),
            None => None,
        }
    }
}

/// What a `HolderSM` is: its value, with texts as sequences of characters.
pub struct HolderSMView {
    pub state: HolderFullStateView,
    pub source_id: Seq<char>,
    pub thread_id: Seq<char>,
}

impl View for HolderSM {
    type V = HolderSMView;

    open spec fn view(&self) -> HolderSMView {
        HolderSMView {
            state: self.state@,
            source_id: self.source_id@,
            thread_id: self.thread_id@,
        }
    }
}

impl DeepView for HolderSM {
    type V = HolderSMView;

    open spec fn deep_view(&self) -> HolderSMView {
        self@
    }
}

impl HolderSMView {
    /// The document in which the machine is persisted.
    pub open spec fn to_doc(self) -> JsonDoc {
        JsonDoc::Object(
            Map::<Seq<char>, JsonDoc>::empty().insert(
                "state"@,
                self.state.to_doc(),
            ).insert(
                "source_id"@,
                JsonDoc::Text(self.source_id),
            ).insert(
                "thread_id"@,
                JsonDoc::Text(self.thread_id),
            ),
        )
    }

    /// The machine that a document persists: an object whose members hold it.
    pub open spec fn from_doc(document: JsonDoc) -> Option<HolderSMView> {
        if document is Object
            && HolderFullStateView::from_doc(document.member("state"@)) is Some
            && as_text(document.member("source_id"@)) is Some
            && as_text(document.member("thread_id"@)) is Some {
            Some(
                HolderSMView {
                    state: HolderFullStateView::from_doc(document.member("state"@))->0,
                    source_id: as_text(document.member("source_id"@))->0,
                    thread_id: as_text(document.member("thread_id"@))->0,
                },
            )
        } else {
            None
        }
    }

    /// What was persisted is what is read back.
    pub proof fn read_back(self)
        ensures
            HolderSMView::from_doc(self.to_doc()) == Some(self),
            self.to_doc() is Object,
    {
        reveal_strlit("state");
        reveal_strlit("source_id");
        reveal_strlit("thread_id");
        assert("state"@.len() == 5);
        assert("source_id"@.len() == 9);
        assert("thread_id"@.len() == 9);
        assert("source_id"@[0] != "thread_id"@[0]);
        values_are_read_back();
        self.state.read_back();
    }
}

impl HolderSM {
    /// Writes the machine as a document.
    pub fn to_document(&self) -> (document: JsonValue)
        ensures
            document@ == self@.to_doc(),
    {
        let mut document = JsonValue::object();
        document.insert(String::from_str("state"), self.state.to_document());
        document.insert(String::from_str("source_id"), JsonValue::String(self.source_id.clone()));
        document.insert(String::from_str("thread_id"), JsonValue::String(self.thread_id.clone()));
        document
    }

    /// Reads the machine from a document.
    pub fn from_document(document: &JsonValue) -> (read: Option<HolderSM>)
        ensures
            match HolderSMView::from_doc(document@) {
                Some(view) => read is Some && read->0@ == view,
                None => read is None,
            },
    {
        if !document.is_object() {
            return None;
        }
        let state = match HolderFullState::read(document.get("state")) {
            Some(value) => value,
            None => {
                return None;
            },
        };
        let source_id = match read_text(document.get("source_id")) {
            Some(value) => value,
            None => {
                return None;
            },
        };
        let thread_id = match read_text(document.get("thread_id")) {
            Some(value) => value,
            None => {
                return None;
            },
        };
        Some(HolderSM { state, source_id, thread_id })
    }

    /// Reads the machine from a member that may be missing.
    pub fn read(member: Option<&JsonValue>) -> (read: Option<HolderSM>)
        ensures
            match HolderSMView::from_doc(member_doc(member)) {
                Some(view) => read is Some && read->0@ == view,
                None => read is None,
            },
    {
        match member {
            Some(document) => HolderSM::from_document(document),
            None => None,
        }
    }
}


/// The holder that a text persists: the text must be a persisted object of
/// the present version whose data hold the machine.
pub open spec fn persisted_machine(text: Seq<char>) -> Option<HolderSMView> {
    match persisted_in(text) {
        Some((version, data)) => if version == SERIALIZE_VERSION@ {
            HolderSMView::from_doc(data)
        } else {
            None
        },
        None => None,
    }
}

/// A machine that was persisted is read back as it was: the document in
/// which it is persisted holds the present version and, as its data, the
/// document from which the machine is read back.
pub proof fn persisted_machine_is_read_back(machine: HolderSMView)
    ensures
        unframed(framed(SERIALIZE_VERSION@, machine.to_doc())) == Some(
            (SERIALIZE_VERSION@, machine.to_doc()),
        ),
        HolderSMView::from_doc(machine.to_doc()) == Some(machine),
{
    unframed_is_what_was_framed(SERIALIZE_VERSION@, machine.to_doc());
    machine.read_back();
}

impl HolderSM {
    /// The text in which the machine is persisted.
    pub fn to_string(&self) -> (text: String)
        ensures
            text@ == json_text(framed(SERIALIZE_VERSION@, self@.to_doc())),
    {
        ObjectWithVersion {
            version: String::from_str(SERIALIZE_VERSION),
            data: self.to_document(),
        }.serialize()
    }

    /// The machine that the persisted object `object` holds.
    ///
    /// Fails with `InvalidJson` where the object is of another version than
    /// the present one or its data hold no machine.
    pub fn from_object(object: ObjectWithVersion) -> (machine: VcxResult<HolderSM>)
        ensures
            match (if object.version@ == SERIALIZE_VERSION@ {
                HolderSMView::from_doc(object.data@)
            } else {
                None
            }) {
                Some(view) => machine is Ok && machine->Ok_0@ == view,
                None => machine is Err && machine->Err_0.kind() == VcxErrorKind::InvalidJson,
            },
    {
        if !text_eq(object.version.as_str(), SERIALIZE_VERSION) {
            return Err(
                VcxError::from_msg(
                    VcxErrorKind::InvalidJson,
                    "Found an object of an unsupported version",
                ),
            );
        }
        match HolderSM::from_document(&object.data) {
            Some(machine) => Ok(machine),
            None => Err(
                VcxError::from_msg(VcxErrorKind::InvalidJson, "Cannot deserialize the machine"),
            ),
        }
    }

    /// The machine that the text `text` persists.
    ///
    /// Fails with `InvalidJson` where the text is no JSON, has not the layout
    /// of a persisted object, is of another version than the present one, or
    /// holds no machine.
    pub fn from_string(text: &str) -> (machine: VcxResult<HolderSM>)
        ensures
            match persisted_machine(text@) {
                Some(view) => machine is Ok && machine->Ok_0@ == view,
                None => machine is Err && machine->Err_0.kind() == VcxErrorKind::InvalidJson,
            },
    {
        match ObjectWithVersion::deserialize(text) {
            Ok(object) => HolderSM::from_object(object),
            Err(failure) => Err(failure),
        }
    }
}


impl Correlated for HolderSM {
    type Event = HolderEvent;

    open spec fn carried_thread(event: &HolderEvent) -> Option<ThreadView> {
        match event {
            HolderEvent::Credential(_, credential, _) => Some(credential@.thread),
            HolderEvent::ProblemReport(report) => Some(report@.thread),
            HolderEvent::CredentialRequestSent(_, _) => None,
        }
    }

    open spec fn conversation_id(&self) -> Seq<char> {
        self.thread_id@
    }

    open spec fn rejects(&self, event: &HolderEvent) -> Option<VcxErrorKind> {
        rejection(self.state, self.thread_id@, *event)
    }

    open spec fn reaches(&self, event: &HolderEvent, next: &HolderSM) -> bool {
        &&& next.state == next_state(self.state, *event)
        &&& next.source_id == self.source_id
        &&& next.thread_id == self.thread_id
    }

    fn event_thread(event: &HolderEvent) -> (carried: Option<Thread>) {
        match event {
            HolderEvent::Credential(_, credential, _) => Some(credential.thread.duplicate()),
            HolderEvent::ProblemReport(report) => Some(report.thread.duplicate()),
            HolderEvent::CredentialRequestSent(_, _) => None,
        }
    }

    fn thread_id(&self) -> (id: String) {
        self.thread_id.clone()
    }

    fn step(&mut self, event: HolderEvent) -> (outcome: VcxResult<()>) {
        self.handle(event)
    }
}

} // verus!
