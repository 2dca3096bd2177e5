//! The issuer's state machine.

use vstd::prelude::*;
use vstd::string::StringExecFns;

use crate::error::{VcxError, VcxErrorKind, VcxResult};
use crate::messages::error::ProblemReport;
use crate::messages::issuance::credential_offer::CredentialOffer;
use crate::messages::issuance::credential_request::CredentialRequest;
use crate::messages::status::Status;
use crate::messages::thread::{Thread, ThreadView};
use crate::protocols::conversation::Correlated;
use crate::protocols::issuance::issuer::states::finished::{FinishedState, FinishedStateView};
use crate::protocols::issuance::issuer::states::offer_sent::{OfferSentState, OfferSentStateView};
use crate::protocols::issuance::issuer::states::request_received::{
    RequestReceivedState, RequestReceivedStateView,
};
use crate::utils::codec::{as_text, member_doc, read_text, values_are_read_back};
use crate::utils::json::{json_text, JsonDoc, JsonValue};
use crate::utils::serialization::{
    framed, persisted_in, unframed, unframed_is_what_was_framed, ObjectWithVersion,
    SERIALIZE_VERSION,
};
use crate::utils::text::text_eq;

verus! {

/// The state an issuer is in.
#[derive(Debug, Clone, PartialEq)]
pub enum IssuerFullState {
    OfferSent(OfferSentState),
    RequestReceived(RequestReceivedState),
    Finished(FinishedState),
}

/// What can happen to an issuer.
#[derive(Debug, Clone, PartialEq)]
pub enum IssuerEvent {
    /// The request for the credential arrived.
    CredentialRequest(CredentialRequest),
    /// The credential was made and sent; where it can be revoked, the
    /// identifier under which it can.
    CredentialSent(Option<String>),
    /// A problem report arrived.
    ProblemReport(ProblemReport),
}

/// What an event does to a state: the kind of failure with which it is
/// rejected, or nothing where it is accepted.
///
/// The request can arrive once the offer was sent, and the credential can be
/// sent once the request arrived. A problem report is accepted until the
/// issuance has ended. A request or a report that is not on the thread of
/// the issuance is rejected.
pub open spec fn rejection(state: IssuerFullState, thread_id: Seq<char>, event: IssuerEvent)
    -> Option<VcxErrorKind> {
    match (state, event) {
        (IssuerFullState::Finished(_), _) => Some(VcxErrorKind::InvalidState),
        (_, IssuerEvent::ProblemReport(report)) => if report@.thread.thid.unwrap_or(Seq::empty())
            == thread_id {
            None
        } else {
            Some(VcxErrorKind::InvalidThread)
        },
        (IssuerFullState::OfferSent(_), IssuerEvent::CredentialRequest(request)) => if request.thread@.thid.unwrap_or(
            Seq::empty(),
        ) == thread_id {
            None
        } else {
            Some(VcxErrorKind::InvalidThread)
        },
        (IssuerFullState::RequestReceived(_), IssuerEvent::CredentialSent(_)) => None,
        _ => Some(VcxErrorKind::InvalidState),
    }
}

/// The state that an accepted event leads to: it holds what the transition
/// carries over, and nothing else.
pub open spec fn next_state(state: IssuerFullState, event: IssuerEvent) -> IssuerFullState {
    match (state, event) {
        (_, IssuerEvent::ProblemReport(report)) => IssuerFullState::Finished(
            FinishedState::declined(report),
        ),
        (IssuerFullState::OfferSent(sent), IssuerEvent::CredentialRequest(request)) => {
            IssuerFullState::RequestReceived(
                RequestReceivedState { offer: sent.offer, cred_data: sent.cred_data, request },
            )
        },
        (_, IssuerEvent::CredentialSent(cred_id)) => IssuerFullState::Finished(
            FinishedState { cred_id, status: Status::Success },
        ),
        _ => state,
    }
}

/// A rejected event: the state as it was, and the failure.
#[derive(Debug, Clone, PartialEq)]
pub struct Rejected {
    pub state: IssuerFullState,
    pub failure: VcxError,
}

impl IssuerFullState {
    /// Applies `event` to the state of an issuance on the thread `thread_id`.
    ///
    /// An accepted event gives the next state. A rejected one gives the state
    /// back as it was, with the failure: `InvalidState` for an event that the
    /// state does not take, `InvalidThread` for a message of another thread.
    pub fn apply(self, thread_id: &str, event: IssuerEvent) -> (outcome: Result<
        IssuerFullState,
        Rejected,
    >)
        ensures
            match rejection(self, thread_id@, event) {
                None => outcome == Ok::<IssuerFullState, Rejected>(next_state(self, event)),
                Some(kind) => outcome is Err && outcome->Err_0.state == self
                    && outcome->Err_0.failure.kind() == kind,
            },
    {
        match (self, event) {
            (IssuerFullState::Finished(state), _) => Err(
                Rejected {
                    state: IssuerFullState::Finished(state),
                    failure: VcxError::from_msg(
                        VcxErrorKind::InvalidState,
                        "The issuance has ended",
                    ),
                },
            ),
            (IssuerFullState::OfferSent(state), IssuerEvent::ProblemReport(report)) => {
                if report.thread.is_reply(thread_id) {
                    Ok(IssuerFullState::Finished(FinishedState::from((state, report))))
                } else {
                    Err(
                        Rejected {
                            state: IssuerFullState::OfferSent(state),
                            failure: VcxError::from_msg(
                                VcxErrorKind::InvalidThread,
                                "The problem report is not on the thread of the issuance",
                            ),
                        },
                    )
                }
            },
            (IssuerFullState::RequestReceived(state), IssuerEvent::ProblemReport(report)) => {
                if report.thread.is_reply(thread_id) {
                    Ok(IssuerFullState::Finished(FinishedState::from((state, report))))
                } else {
                    Err(
                        Rejected {
                            state: IssuerFullState::RequestReceived(state),
                            failure: VcxError::from_msg(
                                VcxErrorKind::InvalidThread,
                                "The problem report is not on the thread of the issuance",
                            ),
                        },
                    )
                }
            },
            (IssuerFullState::OfferSent(state), IssuerEvent::CredentialRequest(request)) => {
                if request.thread.is_reply(thread_id) {
                    Ok(IssuerFullState::RequestReceived(RequestReceivedState::from((state, request))))
                } else {
                    Err(
                        Rejected {
                            state: IssuerFullState::OfferSent(state),
                            failure: VcxError::from_msg(
                                VcxErrorKind::InvalidThread,
                                "The request is not on the thread of the issuance",
                            ),
                        },
                    )
                }
            },
            (IssuerFullState::RequestReceived(state), IssuerEvent::CredentialSent(cred_id)) => Ok(
                IssuerFullState::Finished(FinishedState::from((state, cred_id))),
            ),
            (state, _) => Err(
                Rejected {
                    state,
                    failure: VcxError::from_msg(
                        VcxErrorKind::InvalidState,
                        "The message is not expected in this state",
                    ),
                },
            ),
        }
    }
}

/// An issuer: the state machine of one issuance, as the party that makes the
/// credential. The thread is fixed when the machine is made.
#[derive(Debug, Clone, PartialEq)]
pub struct IssuerSM {
    pub state: IssuerFullState,
    pub source_id: String,
    pub thread_id: String,
}

impl IssuerSM {
    /// The issuer that sent `offer` for the values `cred_data`, on the thread
    /// of the offer.
    pub fn new(offer: CredentialOffer, cred_data: String, source_id: String) -> (machine: IssuerSM)
        ensures
            machine.state == IssuerFullState::OfferSent(OfferSentState { offer, cred_data }),
            machine.source_id == source_id,
            machine.thread_id@ == offer.spec_thread_id(),
    {
        let thread_id = offer.get_thread_id();
        IssuerSM {
            state: IssuerFullState::OfferSent(OfferSentState::new(offer, cred_data)),
            source_id,
            thread_id,
        }
    }

    /// Applies `event` to the machine: an accepted event installs the next
    /// state, a rejected one leaves the machine as it was and reports the
    /// failure. The thread and the source never change.
    pub fn handle(&mut self, event: IssuerEvent) -> (outcome: VcxResult<()>)
        ensures
            final(self).source_id == old(self).source_id,
            final(self).thread_id == old(self).thread_id,
            match rejection(old(self).state, old(self).thread_id@, event) {
                None => outcome is Ok && final(self).state == next_state(old(self).state, event),
                Some(kind) => outcome is Err && final(self).state == old(self).state
                    && outcome->Err_0.kind() == kind,
            },
    {
        let mut state = IssuerFullState::Finished(
            FinishedState { cred_id: None, status: Status::Success },
        );
        core::mem::swap(&mut self.state, &mut state);
        match state.apply(self.thread_id.as_str(), event) {
            Ok(next) => {
                self.state = next;
                Ok(())
            },
            Err(rejected) => {
                self.state = rejected.state;
                Err(rejected.failure)
            },
        }
    }

    /// Whether the issuance has ended.
    pub fn is_terminal_state(&self) -> (terminal: bool)
        ensures
            terminal == (self.state is Finished),
    {
        match &self.state {
            IssuerFullState::Finished(_) => true,
            _ => false,
        }
    }
}

/// What a `IssuerFullState` is: its value, with texts as sequences of characters.
pub enum IssuerFullStateView {
    OfferSent(OfferSentStateView),
    RequestReceived(RequestReceivedStateView),
    Finished(FinishedStateView),
}

impl View for IssuerFullState {
    type V = IssuerFullStateView;

    open spec fn view(&self) -> IssuerFullStateView {
        match self {
            IssuerFullState::OfferSent(inner) => IssuerFullStateView::OfferSent(inner@),
            IssuerFullState::RequestReceived(inner) => IssuerFullStateView::RequestReceived(inner@),
            IssuerFullState::Finished(inner) => IssuerFullStateView::Finished(inner@),
        }
    }
}

impl DeepView for IssuerFullState {
    type V = IssuerFullStateView;

    open spec fn deep_view(&self) -> IssuerFullStateView {
        self@
    }
}

impl IssuerFullStateView {
    /// The document in which the state of the machine is persisted: an object with one member,
    /// named after the variant.
    pub open spec fn to_doc(self) -> JsonDoc {
        match self {
            IssuerFullStateView::OfferSent(inner) => JsonDoc::Object(
                Map::<Seq<char>, JsonDoc>::empty().insert("OfferSent"@, inner.to_doc()),
            ),
            IssuerFullStateView::RequestReceived(inner) => JsonDoc::Object(
                Map::<Seq<char>, JsonDoc>::empty().insert("RequestReceived"@, inner.to_doc()),
            ),
            IssuerFullStateView::Finished(inner) => JsonDoc::Object(
                Map::<Seq<char>, JsonDoc>::empty().insert("Finished"@, inner.to_doc()),
            ),
        }
    }

    /// The state of the machine that a document persists: the first variant, in the order of
    /// their declaration, after which a member is named decides.
    pub open spec fn from_doc(document: JsonDoc) -> Option<IssuerFullStateView> {
        match document {
            JsonDoc::Object(members) => if members.contains_key("OfferSent"@) {
                match OfferSentStateView::from_doc(members["OfferSent"@]) {
                    Some(inner) => Some(IssuerFullStateView::OfferSent(inner)),
                    None => None,
                }
            } else if members.contains_key("RequestReceived"@) {
                match RequestReceivedStateView::from_doc(members["RequestReceived"@]) {
                    Some(inner) => Some(IssuerFullStateView::RequestReceived(inner)),
                    None => None,
                }
            } else if members.contains_key("Finished"@) {
                match FinishedStateView::from_doc(members["Finished"@]) {
                    Some(inner) => Some(IssuerFullStateView::Finished(inner)),
                    None => None,
                }
            } else {
                None
            },
            _ => None,
        }
    }

    /// What was persisted is what is read back.
    pub proof fn read_back(self)
        ensures
            IssuerFullStateView::from_doc(self.to_doc()) == Some(self),
            self.to_doc() is Object,
    {
        reveal_strlit("OfferSent");
        reveal_strlit("RequestReceived");
        reveal_strlit("Finished");
        assert("OfferSent"@.len() == 9);
        assert("RequestReceived"@.len() == 15);
        assert("Finished"@.len() == 8);
        match self {
            IssuerFullStateView::OfferSent(inner) => {
                inner.read_back();
            },
            IssuerFullStateView::RequestReceived(inner) => {
                inner.read_back();
            },
            IssuerFullStateView::Finished(inner) => {
                inner.read_back();
            },
        }
    }
}

impl IssuerFullState {
    /// Writes the state of the machine as a document.
    pub fn to_document(&self) -> (document: JsonValue)
        ensures
            document@ == self@.to_doc(),
    {
        let mut document = JsonValue::object();
        match self {
            IssuerFullState::OfferSent(inner) => {
                document.insert(String::from_str("OfferSent"), inner.to_document());
            },
            IssuerFullState::RequestReceived(inner) => {
                document.insert(String::from_str("RequestReceived"), inner.to_document());
            },
            IssuerFullState::Finished(inner) => {
                document.insert(String::from_str("Finished"), inner.to_document());
            },
        }
        document
    }

    /// Reads the state of the machine from a document.
    pub fn from_document(document: &JsonValue) -> (read: Option<IssuerFullState>)
        ensures
            match IssuerFullStateView::from_doc(document@) {
                Some(view) => read is Some && read->0@ == view,
                None => read is None,
            },
    {
        if !document.is_object() {
            return None;
        }
        match document.get("OfferSent") {
            Some(inner) => {
                return match OfferSentState::from_document(inner) {
                    Some(inner) => Some(IssuerFullState::OfferSent(inner)),
                    None => None,
                };
            },
            None => {},
        }
        match document.get("RequestReceived") {
            Some(inner) => {
                return match RequestReceivedState::from_document(inner) {
                    Some(inner) => Some(IssuerFullState::RequestReceived(inner)),
                    None => None,
                };
            },
            None => {},
        }
        match document.get("Finished") {
            Some(inner) => {
                return match FinishedState::from_document(inner) {
                    Some(inner) => Some(IssuerFullState::Finished(inner)),
                    None => None,
                };
            },
            None => {},
        }
        None
    }

    /// Reads the state of the machine from a member that may be missing.
    pub fn read(member: Option<&JsonValue>) -> (read: Option<IssuerFullState>)
        ensures
            match IssuerFullStateView::from_doc(member_doc(member)) {
                Some(view) => read is Some && read->0@ == view,
                None => read is None,
            },
    {
        match member {
            Some(document) => IssuerFullState::from_document(document),
            None => None,
        }
    }
}

/// What a `IssuerSM` is: its value, with texts as sequences of characters.
pub struct IssuerSMView {
    pub state: IssuerFullStateView,
    pub source_id: Seq<char>,
    pub thread_id: Seq<char>,
}

impl View for IssuerSM {
    type V = IssuerSMView;

    open spec fn view(&self) -> IssuerSMView {
        IssuerSMView {
            state: self.state@,
            source_id: self.source_id@,
            thread_id: self.thread_id@,
        }
    }
}

impl DeepView for IssuerSM {
    type V = IssuerSMView;

    open spec fn deep_view(&self) -> IssuerSMView {
        self@
    }
}

impl IssuerSMView {
    /// The document in which the machine is persisted.
    pub open spec fn to_doc(self) -> JsonDoc {
        JsonDoc::Object(
            Map::<Seq<char>, JsonDoc>::empty().insert(
                "state"@,
                self.state.to_doc(),
            ).insert(
                "source_id"@,
                JsonDoc::Text(self.source_id),
            ).insert(
                "thread_id"@,
                JsonDoc::Text(self.thread_id),
            ),
        )
    }

    /// The machine that a document persists: an object whose members hold it.
    pub open spec fn from_doc(document: JsonDoc) -> Option<IssuerSMView> {
        if document is Object
            && IssuerFullStateView::from_doc(document.member("state"@)) is Some
            && as_text(document.member("source_id"@)) is Some
            && as_text(document.member("thread_id"@)) is Some {
            Some(
                IssuerSMView {
                    state: IssuerFullStateView::from_doc(document.member("state"@))->0,
                    source_id: as_text(document.member("source_id"@))->0,
                    thread_id: as_text(document.member("thread_id"@))->0,
                },
            )
        } else {
            None
        }
    }

    /// What was persisted is what is read back.
    pub proof fn read_back(self)
        ensures
            IssuerSMView::from_doc(self.to_doc()) == Some(self),
            self.to_doc() is Object,
    {
        reveal_strlit("state");
        reveal_strlit("source_id");
        reveal_strlit("thread_id");
        assert("state"@.len() == 5);
        assert("source_id"@.len() == 9);
        assert("thread_id"@.len() == 9);
        assert("source_id"@[0] != "thread_id"@[0]);
        values_are_read_back();
        self.state.read_back();
    }
}

impl IssuerSM {
    /// Writes the machine as a document.
    pub fn to_document(&self) -> (document: JsonValue)
        ensures
            document@ == self@.to_doc(),
    {
        let mut document = JsonValue::object();
        document.insert(String::from_str("state"), self.state.to_document());
        document.insert(String::from_str("source_id"), JsonValue::String(self.source_id.clone()));
        document.insert(String::from_str("thread_id"), JsonValue::String(self.thread_id.clone()));
        document
    }

    /// Reads the machine from a document.
    pub fn from_document(document: &JsonValue) -> (read: Option<IssuerSM>)
        ensures
            match IssuerSMView::from_doc(document@) {
                Some(view) => read is Some && read->0@ == view,
                None => read is None,
            },
    {
        if !document.is_object() {
            return None;
        }
        let state = match IssuerFullState::read(document.get("state")) {
            Some(value) => value,
            None => {
                return None;
            },
        };
        let source_id = match read_text(document.get("source_id")) {
            Some(value) => value,
            None => {
                return None;
            },
        };
        let thread_id = match read_text(document.get("thread_id")) {
            Some(value) => value,
            None => {
                return None;
            },
        };
        Some(IssuerSM { state, source_id, thread_id })
    }

    /// Reads the machine from a member that may be missing.
    pub fn read(member: Option<&JsonValue>) -> (read: Option<IssuerSM>)
        ensures
            match IssuerSMView::from_doc(member_doc(member)) {
                Some(view) => read is Some && read->0@ == view,
                None => read is None,
            },
    {
        match member {
            Some(document) => IssuerSM::from_document(document),
            None => None,
        }
    }
}


/// The issuer that a text persists: the text must be a persisted object of
/// the present version whose data hold the machine.
pub open spec fn persisted_machine(text: Seq<char>) -> Option<IssuerSMView> {
    match persisted_in(text) {
        Some((version, data)) => if version == SERIALIZE_VERSION@ {
            IssuerSMView::from_doc(data)
        } else {
            None
        },
        None => None,
    }
}

/// A machine that was persisted is read back as it was: the document in
/// which it is persisted holds the present version and, as its data, the
/// document from which the machine is read back.
pub proof fn persisted_machine_is_read_back(machine: IssuerSMView)
    ensures
        unframed(framed(SERIALIZE_VERSION@, machine.to_doc())) == Some(
            (SERIALIZE_VERSION@, machine.to_doc()),
        ),
        IssuerSMView::from_doc(machine.to_doc()) == Some(machine),
{
    unframed_is_what_was_framed(SERIALIZE_VERSION@, machine.to_doc());
    machine.read_back();
}

impl IssuerSM {
    /// The text in which the machine is persisted.
    pub fn to_string(&self) -> (text: String)
        ensures
            text@ == json_text(framed(SERIALIZE_VERSION@, self@.to_doc())),
    {
        ObjectWithVersion {
            version: String::from_str(SERIALIZE_VERSION),
            data: self.to_document(),
        }.serialize()
    }

    /// The machine that the persisted object `object` holds.
    ///
    /// Fails with `InvalidJson` where the object is of another version than
    /// the present one or its data hold no machine.
    pub fn from_object(object: ObjectWithVersion) -> (machine: VcxResult<IssuerSM>)
        ensures
            match (if object.version@ == SERIALIZE_VERSION@ {
                IssuerSMView::from_doc(object.data@)
            } else {
                None
            }) {
                Some(view) => machine is Ok && machine->Ok_0@ == view,
                None => machine is Err && machine->Err_0.kind() == VcxErrorKind::InvalidJson,
            },
    {
        if !text_eq(object.version.as_str(), SERIALIZE_VERSION) {
            return Err(
                VcxError::from_msg(
                    VcxErrorKind::InvalidJson,
                    "Found an object of an unsupported version",
                ),
            );
        }
        match IssuerSM::from_document(&object.data) {
            Some(machine) => Ok(machine),
            None => Err(
                VcxError::from_msg(VcxErrorKind::InvalidJson, "Cannot deserialize the machine"),
            ),
        }
    }

    /// The machine that the text `text` persists.
    ///
    /// Fails with `InvalidJson` where the text is no JSON, has not the layout
    /// of a persisted object, is of another version than the present one, or
    /// holds no machine.
    pub fn from_string(text: &str) -> (machine: VcxResult<IssuerSM>)
        ensures
            match persisted_machine(text@) {
                Some(view) => machine is Ok && machine->Ok_0@ == view,
                None => machine is Err && machine->Err_0.kind() == VcxErrorKind::InvalidJson,
            },
    {
        match ObjectWithVersion::deserialize(text) {
            Ok(object) => IssuerSM::from_object(object),
            Err(failure) => Err(failure),
        }
    }
}


impl Correlated for IssuerSM {
    type Event = IssuerEvent;

    open spec fn carried_thread(event: &IssuerEvent) -> Option<ThreadView> {
        match event {
            IssuerEvent::CredentialRequest(request) => Some(request.thread@),
            IssuerEvent::ProblemReport(report) => Some(report@.thread),
            IssuerEvent::CredentialSent(_) => None,
        }
    }

    open spec fn conversation_id(&self) -> Seq<char> {
        self.thread_id@
    }

    open spec fn rejects(&self, event: &IssuerEvent) -> Option<VcxErrorKind> {
        rejection(self.state, self.thread_id@, *event)
    }

    open spec fn reaches(&self, event: &IssuerEvent, next: &IssuerSM) -> bool {
        &&& next.state == next_state(self.state, *event)
        &&& next.source_id == self.source_id
        &&& next.thread_id == self.thread_id
    }

    fn event_thread(event: &IssuerEvent) -> (carried: Option<Thread>) {
        match event {
            IssuerEvent::CredentialRequest(request) => Some(request.thread.duplicate()),
            IssuerEvent::ProblemReport(report) => Some(report.thread.duplicate()),
            IssuerEvent::CredentialSent(_) => None,
        }
    }

    fn thread_id(&self) -> (id: String) {
        self.thread_id.clone()
    }

    fn step(&mut self, event: IssuerEvent) -> (outcome: VcxResult<()>) {
        self.handle(event)
    }
}

} // verus!
