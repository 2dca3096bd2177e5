//! The proof as a verifier's agency-side object keeps it: what was asked
//! for, how far the exchange has come, and what was found out of the proof
//! that arrived.

use vstd::arithmetic::power2::pow2;
use vstd::prelude::*;
use vstd::string::StringExecFns;

use crate::api_lib::{ProofStateType, VcxStateType};
use crate::error::{VcxError, VcxErrorKind, VcxResult};
use crate::messages::proofs::proof_message::{proof_message_in, ProofMessage, ProofMessageView};
use crate::messages::proofs::proof_request::{
    ProofRequestMessage, ProofRequestMessageView, ProofRequestVersion,
};
use crate::messages::thread::{
    accepted, accepted_advances_sender_only, replay_is_rejected, Thread, ThreadView,
};
use crate::utils::codec::{
    as_opt_text, as_opt_u64, as_text, member_doc, opt_text_doc, opt_u64_doc, read_opt_text,
    read_opt_u64, read_text, values_are_read_back, write_opt_text, write_opt_u64,
};
use crate::utils::decimal::decimal_text;
use crate::utils::encoding::{bignum_new, bignum_rand, bignum_to_dec_str};
use crate::utils::error::SUCCESS;
use crate::utils::json::{json_parsed, json_text, JsonDoc, JsonValue};
use crate::utils::qualifier::{fully_qualified, is_fully_qualified};
use crate::utils::serialization::{framed, persisted_in, ObjectWithVersion};
use crate::utils::text::{clone_opt_text, opt_text};

pub mod validation;

verus! {

/// The number of bits of a nonce.
pub const LARGE_NONCE: i32 = 80;

/// The span of time in which a credential must not have been revoked.
#[derive(Debug, Clone, Copy, PartialEq, Eq, Structural)]
pub struct RevocationInterval {
    pub from: Option<u64>,
    pub to: Option<u64>,
}

/// A bound of the interval: missing or null is no bound, an unsigned number
/// is a bound, anything else is a mistake (`None`).
pub open spec fn optional_bound(member: JsonDoc) -> Option<Option<u64>> {
    match member {
        JsonDoc::Null => Some(None),
        JsonDoc::Number(_, _) => match member.unsigned() {
            Some(bound) => Some(Some(bound)),
            None => None,
        },
        _ => None,
    }
}

/// The interval that a document holds: an object with the optional members
/// `from` and `to`, whatever else it holds, or an array of the two bounds.
pub open spec fn interval_of(document: JsonDoc) -> Option<RevocationInterval> {
    match document {
        JsonDoc::Object(_) => match (
            optional_bound(document.member("from"@)),
            optional_bound(document.member("to"@)),
        ) {
            (Some(from), Some(to)) => Some(RevocationInterval { from, to }),
            _ => None,
        },
        JsonDoc::Array(bounds) => if bounds.len() == 2 {
            match (optional_bound(bounds[0]), optional_bound(bounds[1])) {
                (Some(from), Some(to)) => Some(RevocationInterval { from, to }),
                _ => None,
            }
        } else {
            None
        },
        _ => None,
    }
}

/// The interval that a JSON text holds.
///
/// The text is seen as the JSON parser reads it: of a member that is written
/// more than once in an object, only the one that the parser kept counts, so
/// a text that repeats `from` or `to` is not told apart from one that does
/// not.
pub open spec fn interval_in(text: Seq<char>) -> Option<RevocationInterval> {
    match json_parsed(text) {
        Some(document) => interval_of(document),
        None => None,
    }
}

fn read_bound(member: &JsonValue) -> (bound: Option<Option<u64>>)
    ensures
        bound == optional_bound(member@),
{
    match member {
        JsonValue::Null => Some(None),
        JsonValue::Number(_) => match member.as_u64() {
            Some(bound) => Some(Some(bound)),
            None => None,
        },
        _ => None,
    }
}

impl RevocationInterval {
    /// The interval that `document` holds, if it holds one.
    pub fn from_document(document: &JsonValue) -> (interval: Option<RevocationInterval>)
        ensures
            interval == interval_of(document@),
    {
        match document {
            JsonValue::Object(_) => {
                let from = match document.get("from") {
                    Some(member) => read_bound(member),
                    None => Some(None),
                };
                let to = match document.get("to") {
                    Some(member) => read_bound(member),
                    None => Some(None),
                };
                match (from, to) {
                    (Some(from), Some(to)) => Some(RevocationInterval { from, to }),
                    _ => None,
                }
            },
            JsonValue::Array(bounds) => {
                proof {
                    crate::utils::json::lemma_items_doc(bounds@);
                }
                if bounds.len() == 2 {
                    match (read_bound(&bounds[0]), read_bound(&bounds[1])) {
                        (Some(from), Some(to)) => Some(RevocationInterval { from, to }),
                        _ => None,
                    }
                } else {
                    None
                }
            },
            _ => None,
        }
    }
}

/// What the agency knows of the two ends of a connection.
#[derive(Debug, Clone, PartialEq)]
pub struct MyAgentInfo {
    pub my_pw_did: Option<String>,
    pub my_pw_vk: Option<String>,
    pub their_pw_did: Option<String>,
    pub their_pw_vk: Option<String>,
    pub pw_agent_did: Option<String>,
    pub pw_agent_vk: Option<String>,
    pub connection_handle: Option<u32>,
}

/// A proof, from the request for it to its validation.
#[derive(Debug, Clone, PartialEq)]
pub struct Proof {
    pub source_id: String,
    pub requested_attrs: String,
    pub requested_predicates: String,
    pub msg_uid: String,
    pub ref_msg_id: String,
    pub state: VcxStateType,
    pub proof_state: ProofStateType,
    pub name: String,
    pub version: String,
    pub nonce: String,
    pub proof: Option<ProofMessage>,
    pub proof_request: Option<ProofRequestMessage>,
    pub my_did: Option<String>,
    pub my_vk: Option<String>,
    pub their_did: Option<String>,
    pub their_vk: Option<String>,
    pub agent_did: Option<String>,
    pub agent_vk: Option<String>,
    pub revocation_interval: RevocationInterval,
    pub thread: Option<Thread>,
}

/// A message as it was delivered: what it holds, the thread it carried and
/// who sent it.
#[derive(Debug, Clone, PartialEq)]
pub struct Delivery {
    pub payload: String,
    pub thread: Thread,
    pub sender: String,
}

/// What is to be done next to bring the state of a proof up to date.
#[derive(Debug, Clone, Copy, PartialEq, Eq, Structural)]
pub enum NextStep {
    /// Nothing; the state has the given number.
    Done(u32),
    /// The message has to be fetched from the agency and handed in.
    FetchMessage,
    /// The proof that arrived has to be validated and the answer handed in.
    Validate,
}

/// Draws a nonce: a random number of 80 bits, in decimal.
///
/// Fails with `EncodeError` where OpenSSL cannot allocate or draw the number.
pub fn generate_nonce() -> (nonce: VcxResult<String>)
    ensures
        nonce matches Ok(text) ==> exists|n: nat| n < pow2(80) && text@ == decimal_text(n),
        nonce matches Err(failure) ==> failure.kind() == VcxErrorKind::EncodeError,
{
    let mut number = match bignum_new() {
        Some(number) => number,
        None => {
            return Err(VcxError::from_msg(VcxErrorKind::EncodeError, "Cannot generate nonce"));
        },
    };
    if !bignum_rand(&mut number, LARGE_NONCE) {
        return Err(VcxError::from_msg(VcxErrorKind::EncodeError, "Cannot generate nonce"));
    }
    match bignum_to_dec_str(&number) {
        Some(text) => {
            assert(text@ == decimal_text(crate::utils::encoding::bignum_value(number) as nat));
            Ok(text)
        },
        None => Err(VcxError::from_msg(VcxErrorKind::EncodeError, "Cannot generate nonce")),
    }
}

impl Proof {
    /// Whether this is the proof as it is made for the given request: it is
    /// initialized, nothing was sent or received, and the thread is new. The
    /// nonce is not looked at.
    pub open spec fn is_new(
        self,
        source_id: String,
        requested_attrs: String,
        requested_predicates: String,
        revocation_interval: RevocationInterval,
        name: String,
    ) -> bool {
        &&& self.source_id == source_id
        &&& self.requested_attrs == requested_attrs
        &&& self.requested_predicates == requested_predicates
        &&& self.name == name
        &&& self.msg_uid@.len() == 0
        &&& self.ref_msg_id@.len() == 0
        &&& self.state == VcxStateType::VcxStateInitialized
        &&& self.proof_state == ProofStateType::ProofUndefined
        &&& self.version@ == "1.0"@
        &&& self.proof is None
        &&& self.proof_request is None
        &&& self.revocation_interval == revocation_interval
        &&& self.my_did is None
        &&& self.my_vk is None
        &&& self.their_did is None
        &&& self.their_vk is None
        &&& self.agent_did is None
        &&& self.agent_vk is None
        &&& self.thread is Some
        &&& self.thread->0@ == Thread::new_view()
    }

    /// The proof for the given request, with the nonce `nonce`.
    pub fn create_with_nonce(
        source_id: String,
        requested_attrs: String,
        requested_predicates: String,
        revocation_interval: RevocationInterval,
        name: String,
        nonce: String,
    ) -> (proof: Proof)
        ensures
            proof.is_new(source_id, requested_attrs, requested_predicates, revocation_interval, name),
            proof.nonce == nonce,
    {
        Proof {
            source_id,
            requested_attrs,
            requested_predicates,
            name,
            msg_uid: String::new(),
            ref_msg_id: String::new(),
            state: VcxStateType::VcxStateInitialized,
            proof_state: ProofStateType::ProofUndefined,
            version: String::from_str("1.0"),
            nonce,
            proof: None,
            proof_request: None,
            revocation_interval,
            my_did: None,
            my_vk: None,
            their_did: None,
            their_vk: None,
            agent_did: None,
            agent_vk: None,
            thread: Some(Thread::new()),
        }
    }

    /// The proof for the given request, with a fresh nonce.
    ///
    /// Fails with `InvalidJson` where no attributes are asked for or the
    /// revocation details are no JSON of an interval, and with `EncodeError`
    /// where no nonce can be drawn.
    pub fn create(
        source_id: String,
        requested_attrs: String,
        requested_predicates: String,
        revocation_details: String,
        name: String,
    ) -> (proof: VcxResult<Proof>)
        ensures
            requested_attrs@.len() == 0 || interval_in(revocation_details@) is None ==> proof is Err
                && proof->Err_0.kind() == VcxErrorKind::InvalidJson,
            requested_attrs@.len() > 0 && interval_in(revocation_details@) is Some ==> {
                &&& proof matches Ok(made) ==> made.is_new(
                    source_id,
                    requested_attrs,
                    requested_predicates,
                    interval_in(revocation_details@)->0,
                    name,
                ) && exists|n: nat| n < pow2(80) && made.nonce@ == decimal_text(n)
                &&& proof matches Err(failure) ==> failure.kind() == VcxErrorKind::EncodeError
            },
    {
        if requested_attrs.as_str().is_empty() {
            return Err(VcxError::from_kind(VcxErrorKind::InvalidJson));
        }
        let interval = match JsonValue::from_text(revocation_details.as_str()) {
            Some(document) => RevocationInterval::from_document(&document),
            None => None,
        };
        let revocation_interval = match interval {
            Some(interval) => interval,
            None => {
                return Err(VcxError::from_kind(VcxErrorKind::InvalidJson));
            },
        };
        match generate_nonce() {
            Ok(nonce) => Ok(
                Proof::create_with_nonce(
                    source_id,
                    requested_attrs,
                    requested_predicates,
                    revocation_interval,
                    name,
                    nonce,
                ),
            ),
            Err(failure) => Err(failure),
        }
    }

    /// The proof that arrived, as JSON text.
    ///
    /// Fails with `InvalidProof` where none arrived.
    pub fn build_proof_json(&self) -> (json: VcxResult<String>)
        ensures
            match self.proof {
                Some(message) => json == Ok::<String, VcxError>(message.libindy_proof),
                None => json is Err && json->Err_0.kind() == VcxErrorKind::InvalidProof,
            },
    {
        match &self.proof {
            Some(message) => Ok(message.libindy_proof.clone()),
            None => Err(VcxError::from_kind(VcxErrorKind::InvalidProof)),
        }
    }

    /// The proof request that was made, as JSON text.
    ///
    /// Fails with `InvalidProof` where none was made.
    pub fn build_proof_req_json(&self) -> (json: VcxResult<String>)
        ensures
            match self.proof_request {
                Some(message) => json == Ok::<String, VcxError>(message.proof_request_data),
                None => json is Err && json->Err_0.kind() == VcxErrorKind::InvalidProof,
            },
    {
        match &self.proof_request {
            Some(message) => Ok(message.get_proof_request_data()),
            None => Err(VcxError::from_kind(VcxErrorKind::InvalidProof)),
        }
    }

    /// Records what the validation of the proof found, `verified` being the
    /// verdict on it.
    ///
    /// Without a proof or without a proof request nothing is recorded and the
    /// failure is `InvalidProof`. A verdict marks the proof validated or
    /// invalid, and the result is the code of success. A failure of kind
    /// `InvalidProof` says that the proof cannot be right: the proof is marked
    /// invalid and the failure is `InvalidProof`. Any other failure is one of
    /// the credential backend or of the ledger and says nothing of the proof:
    /// it is handed on as it is, and nothing is recorded.
    pub fn proof_validation(&mut self, verified: VcxResult<bool>) -> (code: VcxResult<u32>)
        ensures
            old(self).proof is None || old(self).proof_request is None ==> *final(self) == *old(
                self,
            ) && code is Err && code->Err_0.kind() == VcxErrorKind::InvalidProof,
            old(self).proof is Some && old(self).proof_request is Some ==> match verified {
                Ok(valid) => code == Ok::<u32, VcxError>(SUCCESS) && *final(self) == (Proof {
                    proof_state: if valid {
                        ProofStateType::ProofValidated
                    } else {
                        ProofStateType::ProofInvalid
                    },
                    ..*old(self)
                }),
                Err(failure) => if failure.kind() == VcxErrorKind::InvalidProof {
                    code is Err && code->Err_0.kind() == VcxErrorKind::InvalidProof && *final(self)
                        == (Proof { proof_state: ProofStateType::ProofInvalid, ..*old(self) })
                } else {
                    code == Err::<u32, VcxError>(failure) && *final(self) == *old(self)
                },
            },
    {
        if self.proof.is_none() || self.proof_request.is_none() {
            return Err(VcxError::from_kind(VcxErrorKind::InvalidProof));
        }
        match verified {
            Err(failure) => match failure.kind() {
                VcxErrorKind::InvalidProof => {
                    self.proof_state = ProofStateType::ProofInvalid;
                    Err(failure.map(VcxErrorKind::InvalidProof, "Proof had invalid format"))
                },
                _ => Err(failure),
            },
            Ok(false) => {
                self.proof_state = ProofStateType::ProofInvalid;
                Ok(SUCCESS)
            },
            Ok(true) => {
                self.proof_state = ProofStateType::ProofValidated;
                Ok(SUCCESS)
            },
        }
    }

    /// The format of the proof request to make for the counterpart
    /// `their_did`: the second version for a fully qualified identifier, none
    /// otherwise, and none where the counterpart is not known.
    pub fn format_version_for(their_did: &Option<String>) -> (version: Option<ProofRequestVersion>)
        ensures
            version == if fully_qualified(
                match their_did {
                    Some(did) => did@,
                    None => Seq::empty(),
                },
            ) {
                Some(ProofRequestVersion::V2)
            } else {
                None
            },
    {
        let qualified = match their_did {
            Some(did) => is_fully_qualified(did.as_str()),
            None => {
                proof {
                    reveal_strlit("");
                    assert(""@ =~= Seq::<char>::empty());
                }
                is_fully_qualified("")
            },
        };
        if qualified {
            Some(ProofRequestVersion::V2)
        } else {
            None
        }
    }

    /// The format of the proof request to make for the counterpart that is
    /// recorded in this proof; see [`Proof::format_version_for`].
    pub fn proof_request_format_version(&self) -> (version: Option<ProofRequestVersion>)
        ensures
            version == if fully_qualified(
                match self.their_did {
                    Some(did) => did@,
                    None => Seq::empty(),
                },
            ) {
                Some(ProofRequestVersion::V2)
            } else {
                None
            },
    {
        Proof::format_version_for(&self.their_did)
    }

    /// Records the proof request that was made.
    pub fn set_proof_request(&mut self, proof_request: ProofRequestMessage)
        ensures
            *final(self) == (Proof { proof_request: Some(proof_request), ..*old(self) }),
    {
        self.proof_request = Some(proof_request);
    }

    /// The title under which the request for this proof is shown when it is
    /// sent in the name of `institution_name`.
    ///
    /// Fails with `NotReady` unless the proof is initialized: only then can
    /// its request be sent.
    pub fn proof_request_title(&self, institution_name: &str) -> (title: VcxResult<String>)
        ensures
            self.state != VcxStateType::VcxStateInitialized ==> title is Err
                && title->Err_0.kind() == VcxErrorKind::NotReady,
            self.state == VcxStateType::VcxStateInitialized ==> title is Ok && title->Ok_0@
                == institution_name@ + " wants you to share: "@ + self.name@,
    {
        if self.state != VcxStateType::VcxStateInitialized {
            return Err(VcxError::from_kind(VcxErrorKind::NotReady));
        }
        let mut title = String::from_str(institution_name);
        title.append(" wants you to share: ");
        title.append(self.name.as_str());
        Ok(title)
    }

    /// Whether `after` is this proof once its request went out: the ends of
    /// the connection, the request and the identifier that the agency gave it
    /// are recorded, the request counts as sent, and the identifier names the
    /// thread on which the answer is awaited.
    pub open spec fn request_sent(
        self,
        agent_info: MyAgentInfo,
        proof_request: ProofRequestMessage,
        msg_uid: String,
        after: Proof,
    ) -> bool {
        &&& after.thread is Some
        &&& after.thread->0@ == (ThreadView {
            thid: Some(msg_uid@),
            ..match self.thread {
                Some(thread) => thread@,
                None => Thread::new_view(),
            }
        })
        &&& after == (Proof {
            my_did: agent_info.my_pw_did,
            my_vk: agent_info.my_pw_vk,
            their_did: agent_info.their_pw_did,
            their_vk: agent_info.their_pw_vk,
            agent_did: agent_info.pw_agent_did,
            agent_vk: agent_info.pw_agent_vk,
            proof_request: Some(proof_request),
            msg_uid,
            state: VcxStateType::VcxStateOfferSent,
            thread: after.thread,
            ..self
        })
    }

    /// Records the outcome of sending the request `proof_request` over the
    /// connection that `agent_info` describes; `sent` is what the transport
    /// answered: the identifier that the agency gave the message, or the
    /// failure.
    ///
    /// The proof advances only where the send was acknowledged: then
    /// everything is recorded at once, see [`Proof::request_sent`], and the
    /// result is the code of success. A failed send is handed on and leaves
    /// the proof as it was, so that it can be tried again. Unless the proof is
    /// initialized, the failure is `NotReady` and nothing changes.
    pub fn send_proof_request(
        &mut self,
        agent_info: &MyAgentInfo,
        proof_request: ProofRequestMessage,
        sent: VcxResult<String>,
    ) -> (code: VcxResult<u32>)
        ensures
            old(self).state != VcxStateType::VcxStateInitialized ==> *final(self) == *old(self)
                && code is Err && code->Err_0.kind() == VcxErrorKind::NotReady,
            old(self).state == VcxStateType::VcxStateInitialized ==> match sent {
                Ok(msg_uid) => code == Ok::<u32, VcxError>(SUCCESS) && old(self).request_sent(
                    *agent_info,
                    proof_request,
                    msg_uid,
                    *final(self),
                ),
                Err(failure) => code == Err::<u32, VcxError>(failure) && *final(self) == *old(self),
            },
    {
        if self.state != VcxStateType::VcxStateInitialized {
            return Err(VcxError::from_kind(VcxErrorKind::NotReady));
        }
        let msg_uid = match sent {
            Ok(msg_uid) => msg_uid,
            Err(failure) => {
                return Err(failure);
            },
        };
        let mut thread: Option<Thread> = None;
        core::mem::swap(&mut thread, &mut self.thread);
        let thread = match thread {
            Some(thread) => thread,
            None => Thread::new(),
        };
        self.thread = Some(thread.set_thid(msg_uid.clone()));
        apply_agent_info(self, agent_info);
        self.proof_request = Some(proof_request);
        self.msg_uid = msg_uid;
        self.state = VcxStateType::VcxStateOfferSent;
        Ok(SUCCESS)
    }

    /// The proof that arrived.
    ///
    /// Fails with `InvalidProofHandle` where none arrived.
    pub fn get_proof(&self) -> (json: VcxResult<String>)
        ensures
            match self.proof {
                Some(message) => json == Ok::<String, VcxError>(message.libindy_proof),
                None => json is Err && json->Err_0.kind() == VcxErrorKind::InvalidProofHandle,
            },
    {
        match &self.proof {
            Some(message) => Ok(message.libindy_proof.clone()),
            None => Err(VcxError::from_kind(VcxErrorKind::InvalidProofHandle)),
        }
    }

    /// What is to be done next for the proof while no message is at hand: an
    /// accepted proof that was not judged yet is to be validated; a message is
    /// to be fetched while the request is out, has an identifier and the own
    /// end of the connection is known; otherwise nothing.
    pub open spec fn pending(self) -> NextStep {
        if self.state == VcxStateType::VcxStateAccepted {
            if self.proof_state == ProofStateType::ProofUndefined {
                NextStep::Validate
            } else {
                NextStep::Done(self.state.spec_code())
            }
        } else if self.state == VcxStateType::VcxStateOfferSent && self.msg_uid@.len() > 0
            && self.my_did is Some {
            NextStep::FetchMessage
        } else {
            NextStep::Done(self.state.spec_code())
        }
    }

    /// What the message brings that `sender` sent with the thread `incoming`
    /// and the payload `payload`: the thread of the proof after the
    /// correlation check and the proof message that the payload holds, or
    /// the kind of the failure.
    ///
    /// A payload that holds no proof message is `InvalidJson`. Then comes the
    /// correlation check: a message of another thread, or one that repeats or
    /// precedes what `sender` sent before, is `InvalidThread`, and so is any
    /// message while the proof has no thread with an identifier. An accepted
    /// proof takes no further message: `InvalidState`.
    pub open spec fn brought(self, payload: Seq<char>, incoming: ThreadView, sender: Seq<char>)
        -> Result<(ThreadView, ProofMessageView), VcxErrorKind> {
        match proof_message_in(payload) {
            None => Err(VcxErrorKind::InvalidJson),
            Some(message) => if self.thread is None {
                Err(VcxErrorKind::InvalidThread)
            } else {
                match accepted(self.thread->0@, incoming, sender) {
                    None => Err(VcxErrorKind::InvalidThread),
                    Some(thread) => if self.state == VcxStateType::VcxStateAccepted {
                        Err(VcxErrorKind::InvalidState)
                    } else {
                        Ok((thread, message))
                    },
                }
            },
        }
    }

    /// Records the proof message that arrived: the proof takes the state
    /// that the message names, or else is accepted. The next step is to
    /// validate the proof where it is accepted now.
    pub fn receive_proof_message(&mut self, message: ProofMessage) -> (next: NextStep)
        ensures
            *final(self) == (Proof {
                proof: Some(message),
                state: match message.state {
                    Some(state) => state,
                    None => VcxStateType::VcxStateAccepted,
                },
                ..*old(self)
            }),
            next == if final(self).state == VcxStateType::VcxStateAccepted {
                NextStep::Validate
            } else {
                NextStep::Done(final(self).state.spec_code())
            },
    {
        self.state = match message.state {
            Some(state) => state,
            None => VcxStateType::VcxStateAccepted,
        };
        self.proof = Some(message);
        if self.state == VcxStateType::VcxStateAccepted {
            NextStep::Validate
        } else {
            NextStep::Done(self.get_state())
        }
    }

    /// Brings the state of the proof up to date as far as the library can,
    /// and says what is to be done next; `delivery` is the message that
    /// arrived, where one did.
    ///
    /// Without a message nothing changes; the next step is
    /// [`Proof::pending`]. The payload of a message is read, and the message
    /// goes through the correlation check; see [`Proof::brought`]. Where
    /// that fails, the failure is returned and the proof is left as it was:
    /// a message that is delivered a second time is rejected with
    /// `InvalidThread`. Otherwise
    /// the counter that the message carried is recorded for its sender, the
    /// proof message is recorded, and the proof takes the state that the
    /// message names, or else is accepted; where it is accepted, the next
    /// step is to validate it.
    pub fn get_proof_request_status(&mut self, delivery: Option<Delivery>) -> (next: VcxResult<
        NextStep,
    >)
        ensures
            delivery is None ==> *final(self) == *old(self) && next == Ok::<NextStep, VcxError>(
                old(self).pending(),
            ),
            delivery matches Some(message) ==> match old(self).brought(
                message.payload@,
                message.thread@,
                message.sender@,
            ) {
                Err(kind) => next is Err && next->Err_0.kind() == kind && *final(self) == *old(
                    self,
                ),
                Ok((thread, proof)) => {
                    &&& final(self).thread is Some
                    &&& final(self).thread->0@ == thread
                    &&& final(self).proof is Some
                    &&& final(self).proof->0@ == proof
                    &&& *final(self) == (Proof {
                        thread: final(self).thread,
                        proof: final(self).proof,
                        state: match proof.state {
                            Some(state) => state,
                            None => VcxStateType::VcxStateAccepted,
                        },
                        ..*old(self)
                    })
                    &&& next == Ok::<NextStep, VcxError>(
                        if final(self).state == VcxStateType::VcxStateAccepted {
                            NextStep::Validate
                        } else {
                            NextStep::Done(final(self).state.spec_code())
                        },
                    )
                },
            },
    {
        let delivery = match delivery {
            None => {
                return Ok(self.next_step());
            },
            Some(delivery) => delivery,
        };
        let message = match parse_proof_payload(delivery.payload.as_str()) {
            Ok(message) => message,
            Err(failure) => {
                return Err(failure);
            },
        };
        let on_thread = match &self.thread {
            Some(thread) => thread.accepts(&delivery.thread, delivery.sender.as_str()),
            None => false,
        };
        if !on_thread {
            return Err(
                VcxError::from_msg(
                    VcxErrorKind::InvalidThread,
                    "The message is not the next one on the thread of the proof",
                ),
            );
        }
        if self.state == VcxStateType::VcxStateAccepted {
            return Err(VcxError::from_kind(VcxErrorKind::InvalidState));
        }
        match &mut self.thread {
            Some(thread) => {
                let _ = thread.accept(&delivery.thread, delivery.sender.as_str());
            },
            None => {},
        }
        Ok(self.receive_proof_message(message))
    }

    /// What is to be done next for the proof while no message is at hand.
    pub fn next_step(&self) -> (next: NextStep)
        ensures
            next == self.pending(),
    {
        if self.state == VcxStateType::VcxStateAccepted {
            if self.proof_state == ProofStateType::ProofUndefined {
                NextStep::Validate
            } else {
                NextStep::Done(self.get_state())
            }
        } else if self.state == VcxStateType::VcxStateOfferSent && !self.msg_uid.as_str().is_empty()
            && self.my_did.is_some() {
            NextStep::FetchMessage
        } else {
            NextStep::Done(self.get_state())
        }
    }

    /// Whether the outcome `verified` of a validation says nothing of the
    /// proof: a proof and its request are there, and the failure is one of
    /// the credential backend or of the ledger.
    pub open spec fn unjudged(self, verified: VcxResult<bool>) -> bool {
        self.proof is Some && self.proof_request is Some && verified is Err
            && verified->Err_0.kind() != VcxErrorKind::InvalidProof
    }

    /// Records the outcome of validating the proof that was accepted,
    /// `verified` being the verdict on it, and gives the number of the state
    /// the proof is in then.
    ///
    /// A failure of the credential backend or of the ledger is handed on as
    /// it is and leaves the proof as it was, so that the validation can be
    /// tried again. A verdict marks the proof as it was found, and the proof
    /// keeps its state. A proof that cannot be right, because the failure is
    /// `InvalidProof` or because the proof or its request is missing, is
    /// marked invalid and goes back to the state in which the request was
    /// received.
    pub fn validated(&mut self, verified: VcxResult<bool>) -> (state: VcxResult<u32>)
        ensures
            old(self).unjudged(verified) ==> state == Err::<u32, VcxError>(verified->Err_0)
                && *final(self) == *old(self),
            !old(self).unjudged(verified) ==> state == Ok::<u32, VcxError>(
                final(self).state.spec_code(),
            ) && *final(self) == (Proof {
                state: if old(self).proof is Some && old(self).proof_request is Some
                    && verified is Ok {
                    old(self).state
                } else {
                    VcxStateType::VcxStateRequestReceived
                },
                proof_state: if old(self).proof is Some && old(self).proof_request is Some
                    && verified == Ok::<bool, VcxError>(true) {
                    ProofStateType::ProofValidated
                } else {
                    ProofStateType::ProofInvalid
                },
                ..*old(self)
            }),
    {
        match self.proof_validation(verified) {
            Ok(_) => Ok(self.get_state()),
            Err(failure) => match failure.kind() {
                VcxErrorKind::InvalidProof => {
                    self.state = VcxStateType::VcxStateRequestReceived;
                    self.proof_state = ProofStateType::ProofInvalid;
                    Ok(self.get_state())
                },
                _ => Err(failure),
            },
        }
    }

    /// Brings the state of the proof up to date; see
    /// [`Proof::get_proof_request_status`].
    pub fn update_state(&mut self, delivery: Option<Delivery>) -> (next: VcxResult<NextStep>)
        ensures
            delivery is None ==> *final(self) == *old(self) && next == Ok::<NextStep, VcxError>(
                old(self).pending(),
            ),
            delivery matches Some(message) ==> match old(self).brought(
                message.payload@,
                message.thread@,
                message.sender@,
            ) {
                Err(kind) => next is Err && next->Err_0.kind() == kind && *final(self) == *old(
                    self,
                ),
                Ok((thread, proof)) => {
                    &&& final(self).thread is Some
                    &&& final(self).thread->0@ == thread
                    &&& final(self).proof is Some
                    &&& final(self).proof->0@ == proof
                    &&& *final(self) == (Proof {
                        thread: final(self).thread,
                        proof: final(self).proof,
                        state: match proof.state {
                            Some(state) => state,
                            None => VcxStateType::VcxStateAccepted,
                        },
                        ..*old(self)
                    })
                    &&& next == Ok::<NextStep, VcxError>(
                        if final(self).state == VcxStateType::VcxStateAccepted {
                            NextStep::Validate
                        } else {
                            NextStep::Done(final(self).state.spec_code())
                        },
                    )
                },
            },
    {
        self.get_proof_request_status(delivery)
    }

    /// The number of the state of the exchange.
    pub fn get_state(&self) -> (state: u32)
        ensures
            state == self.state.spec_code(),
    {
        self.state.code()
    }

    /// The number of the state of the proof.
    pub fn get_proof_state(&self) -> (state: u32)
        ensures
            state == self.proof_state.spec_code(),
    {
        self.proof_state.code()
    }
}

/// Records the two ends of a connection in a proof.
pub fn apply_agent_info(proof: &mut Proof, agent_info: &MyAgentInfo)
    ensures
        *final(proof) == (Proof {
            my_did: agent_info.my_pw_did,
            my_vk: agent_info.my_pw_vk,
            their_did: agent_info.their_pw_did,
            their_vk: agent_info.their_pw_vk,
            agent_did: agent_info.pw_agent_did,
            agent_vk: agent_info.pw_agent_vk,
            ..*old(proof)
        }),
{
    proof.my_did = clone_opt_text(&agent_info.my_pw_did);
    proof.my_vk = clone_opt_text(&agent_info.my_pw_vk);
    proof.their_did = clone_opt_text(&agent_info.their_pw_did);
    proof.their_vk = clone_opt_text(&agent_info.their_pw_vk);
    proof.agent_did = clone_opt_text(&agent_info.pw_agent_did);
    proof.agent_vk = clone_opt_text(&agent_info.pw_agent_vk);
}

/// A proof message that is taken moves the counter of its sender strictly
/// forward (or starts it), to the counter that the message carried, and
/// leaves the counters of all other parties, the counter of the proof's own
/// side and the identifier of the thread as they were.
pub proof fn taken_message_advances_its_sender_only(
    proof: Proof,
    payload: Seq<char>,
    incoming: ThreadView,
    sender: Seq<char>,
)
    requires
        proof.brought(payload, incoming, sender) is Ok,
    ensures
        ({
            let before = proof.thread->0@;
            let after = proof.brought(payload, incoming, sender)->Ok_0.0;
            &&& after.received_orders.contains_key(sender)
            &&& after.received_orders[sender] == incoming.sender_order
            &&& before.received_orders.contains_key(sender) ==> after.received_orders[sender]
                > before.received_orders[sender]
            &&& forall|other: Seq<char>|
                other != sender ==> (after.received_orders.contains_key(other)
                    <==> before.received_orders.contains_key(other))
            &&& forall|other: Seq<char>|
                other != sender && before.received_orders.contains_key(other)
                    ==> after.received_orders[other] == before.received_orders[other]
            &&& after.thid == before.thid
            &&& after.pthid == before.pthid
            &&& after.sender_order == before.sender_order
        }),
{
    accepted_advances_sender_only(proof.thread->0@, incoming, sender);
}

/// A proof message that was taken is rejected when it is delivered again:
/// whatever the proof is by then, as long as its thread is the one that the
/// first delivery left, the second one fails with `InvalidThread`.
pub proof fn taken_message_is_rejected_again(
    proof: Proof,
    later: Proof,
    payload: Seq<char>,
    incoming: ThreadView,
    sender: Seq<char>,
)
    requires
        proof.brought(payload, incoming, sender) is Ok,
        later.thread is Some,
        later.thread->0@ == proof.brought(payload, incoming, sender)->Ok_0.0,
    ensures
        later.brought(payload, incoming, sender) == Err::<
            (ThreadView, ProofMessageView),
            VcxErrorKind,
        >(VcxErrorKind::InvalidThread),
{
    replay_is_rejected(proof.thread->0@, incoming, sender);
}

/// The version under which proofs are persisted by the first generation of
/// the protocols. Such proofs are not read any more.
pub const LEGACY_OBJECT_SERIALIZE_VERSION: &'static str = "1.0";

/// The version under which proofs are persisted.
pub const V3_OBJECT_SERIALIZE_VERSION: &'static str = "2.0";

/// The version under which proofs that wait for their connection are
/// persisted. Such proofs are not read any more.
pub const PENDING_OBJECT_SERIALIZE_VERSION: &'static str = "3.0";

/// The text in which a proof with the data `data` is persisted.
pub fn to_string(data: JsonValue) -> (text: String)
    ensures
        text@ == json_text(framed(V3_OBJECT_SERIALIZE_VERSION@, data@)),
{
    ObjectWithVersion { version: String::from_str(V3_OBJECT_SERIALIZE_VERSION), data }.serialize()
}

/// The data of the proof that a persisted object holds: only objects of the
/// present version hold one.
///
/// Fails with `InvalidJson` for an object of another version.
pub fn proof_data(object: ObjectWithVersion) -> (data: VcxResult<JsonValue>)
    ensures
        object.version@ == V3_OBJECT_SERIALIZE_VERSION@ ==> data is Ok && data->Ok_0 == object.data,
        object.version@ != V3_OBJECT_SERIALIZE_VERSION@ ==> data is Err && data->Err_0.kind()
            == VcxErrorKind::InvalidJson,
{
    if crate::utils::text::text_eq(object.version.as_str(), V3_OBJECT_SERIALIZE_VERSION) {
        Ok(object.data)
    } else {
        Err(VcxError::from_msg(VcxErrorKind::InvalidJson, "Found proof of unsupported version"))
    }
}

/// The data of the proof that the text `proof_data` persists.
///
/// Fails with `InvalidJson` where the text is no JSON, has not the layout of
/// a persisted object, or is of another version than the present one.
pub fn from_string(proof_data: &str) -> (data: VcxResult<JsonValue>)
    ensures
        match persisted_in(proof_data@) {
            Some((version, held)) => if version == V3_OBJECT_SERIALIZE_VERSION@ {
                data is Ok && data->Ok_0@ == held
            } else {
                data is Err && data->Err_0.kind() == VcxErrorKind::InvalidJson
            },
            None => data is Err && data->Err_0.kind() == VcxErrorKind::InvalidJson,
        },
{
    match ObjectWithVersion::deserialize(proof_data) {
        Ok(object) => self::proof_data(object),
        Err(failure) => Err(failure),
    }
}

/// The proof message that the payload holds.
///
/// Fails with `InvalidJson` where it holds none.
pub fn parse_proof_payload(payload: &str) -> (message: VcxResult<ProofMessage>)
    ensures
        match proof_message_in(payload@) {
            Some(view) => message is Ok && message->Ok_0@ == view,
            None => message is Err && message->Err_0.kind() == VcxErrorKind::InvalidJson,
        },
{
    ProofMessage::from_str(payload)
}

impl RevocationInterval {
    /// The document in which the interval is persisted.
    pub open spec fn to_doc(self) -> JsonDoc {
        JsonDoc::Object(
            Map::<Seq<char>, JsonDoc>::empty().insert(
                "from"@,
                opt_u64_doc(self.from),
            ).insert(
                "to"@,
                opt_u64_doc(self.to),
            ),
        )
    }

    /// The interval that a document persists: an object whose members hold it.
    pub open spec fn from_doc(document: JsonDoc) -> Option<RevocationInterval> {
        if document is Object
            && as_opt_u64(document.member("from"@)) is Some
            && as_opt_u64(document.member("to"@)) is Some {
            Some(
                RevocationInterval {
                    from: as_opt_u64(document.member("from"@))->0,
                    to: as_opt_u64(document.member("to"@))->0,
                },
            )
        } else {
            None
        }
    }

    /// What was persisted is what is read back.
    pub proof fn read_back(self)
        ensures
            RevocationInterval::from_doc(self.to_doc()) == Some(self),
            self.to_doc() is Object,
    {
        reveal_strlit("from");
        reveal_strlit("to");
        assert("from"@.len() == 4);
        assert("to"@.len() == 2);
        values_are_read_back();
    }

    /// Writes the interval as a document.
    pub fn to_document(&self) -> (document: JsonValue)
        ensures
            document@ == (*self).to_doc(),
    {
        let mut document = JsonValue::object();
        document.insert(String::from_str("from"), write_opt_u64(self.from));
        document.insert(String::from_str("to"), write_opt_u64(self.to));
        document
    }

    /// Reads the interval from a document.
    pub fn from_persisted(document: &JsonValue) -> (read: Option<RevocationInterval>)
        ensures
            match RevocationInterval::from_doc(document@) {
                Some(view) => read is Some && read->0 == view,
                None => read is None,
            },
    {
        if !document.is_object() {
            return None;
        }
        let from = match read_opt_u64(document.get("from")) {
            Some(value) => value,
            None => {
                return None;
            },
        };
        let to = match read_opt_u64(document.get("to")) {
            Some(value) => value,
            None => {
                return None;
            },
        };
        Some(RevocationInterval { from, to })
    }

    /// Reads the interval from a member that may be missing.
    pub fn read(member: Option<&JsonValue>) -> (read: Option<RevocationInterval>)
        ensures
            match RevocationInterval::from_doc(member_doc(member)) {
                Some(view) => read is Some && read->0 == view,
                None => read is None,
            },
    {
        match member {
            Some(document) => RevocationInterval::from_persisted(document),
            None => None,
        }
    }
}

/// What a `Proof` is: its value, with texts as sequences of characters.
pub struct ProofView {
    pub source_id: Seq<char>,
    pub requested_attrs: Seq<char>,
    pub requested_predicates: Seq<char>,
    pub msg_uid: Seq<char>,
    pub ref_msg_id: Seq<char>,
    pub state: VcxStateType,
    pub proof_state: ProofStateType,
    pub name: Seq<char>,
    pub version: Seq<char>,
    pub nonce: Seq<char>,
    pub proof: Option<ProofMessageView>,
    pub proof_request: Option<ProofRequestMessageView>,
    pub my_did: Option<Seq<char>>,
    pub my_vk: Option<Seq<char>>,
    pub their_did: Option<Seq<char>>,
    pub their_vk: Option<Seq<char>>,
    pub agent_did: Option<Seq<char>>,
    pub agent_vk: Option<Seq<char>>,
    pub revocation_interval: RevocationInterval,
    pub thread: Option<ThreadView>,
}

impl View for Proof {
    type V = ProofView;

    open spec fn view(&self) -> ProofView {
        ProofView {
            source_id: self.source_id@,
            requested_attrs: self.requested_attrs@,
            requested_predicates: self.requested_predicates@,
            msg_uid: self.msg_uid@,
            ref_msg_id: self.ref_msg_id@,
            state: self.state,
            proof_state: self.proof_state,
            name: self.name@,
            version: self.version@,
            nonce: self.nonce@,
            proof: self.proof.deep_view(),
            proof_request: self.proof_request.deep_view(),
            my_did: opt_text(self.my_did),
            my_vk: opt_text(self.my_vk),
            their_did: opt_text(self.their_did),
            their_vk: opt_text(self.their_vk),
            agent_did: opt_text(self.agent_did),
            agent_vk: opt_text(self.agent_vk),
            revocation_interval: self.revocation_interval,
            thread: self.thread.deep_view(),
        }
    }
}

impl DeepView for Proof {
    type V = ProofView;

    open spec fn deep_view(&self) -> ProofView {
        self@
    }
}

impl ProofView {
    /// The document in which the proof is persisted.
    pub open spec fn to_doc(self) -> JsonDoc {
        JsonDoc::Object(
            Map::<Seq<char>, JsonDoc>::empty().insert(
                "source_id"@,
                JsonDoc::Text(self.source_id),
            ).insert(
                "requested_attrs"@,
                JsonDoc::Text(self.requested_attrs),
            ).insert(
                "requested_predicates"@,
                JsonDoc::Text(self.requested_predicates),
            ).insert(
                "msg_uid"@,
                JsonDoc::Text(self.msg_uid),
            ).insert(
                "ref_msg_id"@,
                JsonDoc::Text(self.ref_msg_id),
            ).insert(
                "state"@,
                self.state.to_doc(),
            ).insert(
                "proof_state"@,
                self.proof_state.to_doc(),
            ).insert(
                "name"@,
                JsonDoc::Text(self.name),
            ).insert(
                "version"@,
                JsonDoc::Text(self.version),
            ).insert(
                "nonce"@,
                JsonDoc::Text(self.nonce),
            ).insert(
                "proof"@,
                ProofMessageView::opt_to_doc(self.proof),
            ).insert(
                "proof_request"@,
                ProofRequestMessageView::opt_to_doc(self.proof_request),
            ).insert(
                "prover_did"@,
                opt_text_doc(self.my_did),
            ).insert(
                "prover_vk"@,
                opt_text_doc(self.my_vk),
            ).insert(
                "remote_did"@,
                opt_text_doc(self.their_did),
            ).insert(
                "remote_vk"@,
                opt_text_doc(self.their_vk),
            ).insert(
                "agent_did"@,
                opt_text_doc(self.agent_did),
            ).insert(
                "agent_vk"@,
                opt_text_doc(self.agent_vk),
            ).insert(
                "revocation_interval"@,
                self.revocation_interval.to_doc(),
            ).insert(
                "thread"@,
                ThreadView::opt_to_doc(self.thread),
            ),
        )
    }

    /// The proof that a document persists: an object whose members hold it.
    pub open spec fn from_doc(document: JsonDoc) -> Option<ProofView> {
        if document is Object
            && as_text(document.member("source_id"@)) is Some
            && as_text(document.member("requested_attrs"@)) is Some
            && as_text(document.member("requested_predicates"@)) is Some
            && as_text(document.member("msg_uid"@)) is Some
            && as_text(document.member("ref_msg_id"@)) is Some
            && VcxStateType::from_doc(document.member("state"@)) is Some
            && ProofStateType::from_doc(document.member("proof_state"@)) is Some
            && as_text(document.member("name"@)) is Some
            && as_text(document.member("version"@)) is Some
            && as_text(document.member("nonce"@)) is Some
            && ProofMessageView::opt_from_doc(document.member("proof"@)) is Some
            && ProofRequestMessageView::opt_from_doc(document.member("proof_request"@)) is Some
            && as_opt_text(document.member("prover_did"@)) is Some
            && as_opt_text(document.member("prover_vk"@)) is Some
            && as_opt_text(document.member("remote_did"@)) is Some
            && as_opt_text(document.member("remote_vk"@)) is Some
            && as_opt_text(document.member("agent_did"@)) is Some
            && as_opt_text(document.member("agent_vk"@)) is Some
            && RevocationInterval::from_doc(document.member("revocation_interval"@)) is Some
            && ThreadView::opt_from_doc(document.member("thread"@)) is Some {
            Some(
                ProofView {
                    source_id: as_text(document.member("source_id"@))->0,
                    requested_attrs: as_text(document.member("requested_attrs"@))->0,
                    requested_predicates: as_text(document.member("requested_predicates"@))->0,
                    msg_uid: as_text(document.member("msg_uid"@))->0,
                    ref_msg_id: as_text(document.member("ref_msg_id"@))->0,
                    state: VcxStateType::from_doc(document.member("state"@))->0,
                    proof_state: ProofStateType::from_doc(document.member("proof_state"@))->0,
                    name: as_text(document.member("name"@))->0,
                    version: as_text(document.member("version"@))->0,
                    nonce: as_text(document.member("nonce"@))->0,
                    proof: ProofMessageView::opt_from_doc(document.member("proof"@))->0,
                    proof_request: ProofRequestMessageView::opt_from_doc(
                        document.member("proof_request"@),
                    )->0,
                    my_did: as_opt_text(document.member("prover_did"@))->0,
                    my_vk: as_opt_text(document.member("prover_vk"@))->0,
                    their_did: as_opt_text(document.member("remote_did"@))->0,
                    their_vk: as_opt_text(document.member("remote_vk"@))->0,
                    agent_did: as_opt_text(document.member("agent_did"@))->0,
                    agent_vk: as_opt_text(document.member("agent_vk"@))->0,
                    revocation_interval: RevocationInterval::from_doc(
                        document.member("revocation_interval"@),
                    )->0,
                    thread: ThreadView::opt_from_doc(document.member("thread"@))->0,
                },
            )
        } else {
            None
        }
    }

    /// What was persisted is what is read back.
    pub proof fn read_back(self)
        ensures
            ProofView::from_doc(self.to_doc()) == Some(self),
            self.to_doc() is Object,
    {
        reveal_strlit("source_id");
        reveal_strlit("requested_attrs");
        reveal_strlit("requested_predicates");
        reveal_strlit("msg_uid");
        reveal_strlit("ref_msg_id");
        reveal_strlit("state");
        reveal_strlit("proof_state");
        reveal_strlit("name");
        reveal_strlit("version");
        reveal_strlit("nonce");
        reveal_strlit("proof");
        reveal_strlit("proof_request");
        reveal_strlit("prover_did");
        reveal_strlit("prover_vk");
        reveal_strlit("remote_did");
        reveal_strlit("remote_vk");
        reveal_strlit("agent_did");
        reveal_strlit("agent_vk");
        reveal_strlit("revocation_interval");
        reveal_strlit("thread");
        assert("source_id"@.len() == 9);
        assert("requested_attrs"@.len() == 15);
        assert("requested_predicates"@.len() == 20);
        assert("msg_uid"@.len() == 7);
        assert("ref_msg_id"@.len() == 10);
        assert("state"@.len() == 5);
        assert("proof_state"@.len() == 11);
        assert("name"@.len() == 4);
        assert("version"@.len() == 7);
        assert("nonce"@.len() == 5);
        assert("proof"@.len() == 5);
        assert("proof_request"@.len() == 13);
        assert("prover_did"@.len() == 10);
        assert("prover_vk"@.len() == 9);
        assert("remote_did"@.len() == 10);
        assert("remote_vk"@.len() == 9);
        assert("agent_did"@.len() == 9);
        assert("agent_vk"@.len() == 8);
        assert("revocation_interval"@.len() == 19);
        assert("thread"@.len() == 6);
        assert("source_id"@[0] != "prover_vk"@[0]);
        assert("source_id"@[0] != "remote_vk"@[0]);
        assert("source_id"@[0] != "agent_did"@[0]);
        assert("msg_uid"@[0] != "version"@[0]);
        assert("ref_msg_id"@[0] != "prover_did"@[0]);
        assert("ref_msg_id"@[2] != "remote_did"@[2]);
        assert("state"@[0] != "nonce"@[0]);
        assert("state"@[0] != "proof"@[0]);
        assert("nonce"@[0] != "proof"@[0]);
        assert("prover_did"@[0] != "remote_did"@[0]);
        assert("prover_vk"@[0] != "remote_vk"@[0]);
        assert("prover_vk"@[0] != "agent_did"@[0]);
        assert("remote_vk"@[0] != "agent_did"@[0]);
        values_are_read_back();
        self.state.read_back();
        self.proof_state.read_back();
        ProofMessageView::opt_read_back(self.proof);
        ProofRequestMessageView::opt_read_back(self.proof_request);
        self.revocation_interval.read_back();
        ThreadView::opt_read_back(self.thread);
    }
}

impl Proof {
    /// Writes the proof as a document.
    pub fn to_document(&self) -> (document: JsonValue)
        ensures
            document@ == self@.to_doc(),
    {
        let mut document = JsonValue::object();
        document.insert(String::from_str("source_id"), JsonValue::String(self.source_id.clone()));
        document.insert(
            String::from_str("requested_attrs"),
            JsonValue::String(self.requested_attrs.clone()),
        );
        document.insert(
            String::from_str("requested_predicates"),
            JsonValue::String(self.requested_predicates.clone()),
        );
        document.insert(String::from_str("msg_uid"), JsonValue::String(self.msg_uid.clone()));
        document.insert(String::from_str("ref_msg_id"), JsonValue::String(self.ref_msg_id.clone()));
        document.insert(String::from_str("state"), self.state.to_document());
        document.insert(String::from_str("proof_state"), self.proof_state.to_document());
        document.insert(String::from_str("name"), JsonValue::String(self.name.clone()));
        document.insert(String::from_str("version"), JsonValue::String(self.version.clone()));
        document.insert(String::from_str("nonce"), JsonValue::String(self.nonce.clone()));
        document.insert(String::from_str("proof"), ProofMessage::write_opt(&self.proof));
        document.insert(
            String::from_str("proof_request"),
            ProofRequestMessage::write_opt(&self.proof_request),
        );
        document.insert(String::from_str("prover_did"), write_opt_text(&self.my_did));
        document.insert(String::from_str("prover_vk"), write_opt_text(&self.my_vk));
        document.insert(String::from_str("remote_did"), write_opt_text(&self.their_did));
        document.insert(String::from_str("remote_vk"), write_opt_text(&self.their_vk));
        document.insert(String::from_str("agent_did"), write_opt_text(&self.agent_did));
        document.insert(String::from_str("agent_vk"), write_opt_text(&self.agent_vk));
        document.insert(
            String::from_str("revocation_interval"),
            self.revocation_interval.to_document(),
        );
        document.insert(String::from_str("thread"), Thread::write_opt(&self.thread));
        document
    }

    /// Reads the proof from a document.
    pub fn from_document(document: &JsonValue) -> (read: Option<Proof>)
        ensures
            match ProofView::from_doc(document@) {
                Some(view) => read is Some && read->0@ == view,
                None => read is None,
            },
    {
        if !document.is_object() {
            return None;
        }
        let source_id = match read_text(document.get("source_id")) {
            Some(value) => value,
            None => {
                return None;
            },
        };
        let requested_attrs = match read_text(document.get("requested_attrs")) {
            Some(value) => value,
            None => {
                return None;
            },
        };
        let requested_predicates = match read_text(document.get("requested_predicates")) {
            Some(value) => value,
            None => {
                return None;
            },
        };
        let msg_uid = match read_text(document.get("msg_uid")) {
            Some(value) => value,
            None => {
                return None;
            },
        };
        let ref_msg_id = match read_text(document.get("ref_msg_id")) {
            Some(value) => value,
            None => {
                return None;
            },
        };
        let state = match VcxStateType::read(document.get("state")) {
            Some(value) => value,
            None => {
                return None;
            },
        };
        let proof_state = match ProofStateType::read(document.get("proof_state")) {
            Some(value) => value,
            None => {
                return None;
            },
        };
        let name = match read_text(document.get("name")) {
            Some(value) => value,
            None => {
                return None;
            },
        };
        let version = match read_text(document.get("version")) {
            Some(value) => value,
            None => {
                return None;
            },
        };
        let nonce = match read_text(document.get("nonce")) {
            Some(value) => value,
            None => {
                return None;
            },
        };
        let proof = match ProofMessage::read_opt(document.get("proof")) {
            Some(value) => value,
            None => {
                return None;
            },
        };
        let proof_request = match ProofRequestMessage::read_opt(document.get("proof_request")) {
            Some(value) => value,
            None => {
                return None;
            },
        };
        let my_did = match read_opt_text(document.get("prover_did")) {
            Some(value) => value,
            None => {
                return None;
            },
        };
        let my_vk = match read_opt_text(document.get("prover_vk")) {
            Some(value) => value,
            None => {
                return None;
            },
        };
        let their_did = match read_opt_text(document.get("remote_did")) {
            Some(value) => value,
            None => {
                return None;
            },
        };
        let their_vk = match read_opt_text(document.get("remote_vk")) {
            Some(value) => value,
            None => {
                return None;
            },
        };
        let agent_did = match read_opt_text(document.get("agent_did")) {
            Some(value) => value,
            None => {
                return None;
            },
        };
        let agent_vk = match read_opt_text(document.get("agent_vk")) {
            Some(value) => value,
            None => {
                return None;
            },
        };
        let revocation_interval = match RevocationInterval::read(
            document.get("revocation_interval"),
        ) {
            Some(value) => value,
            None => {
                return None;
            },
        };
        let thread = match Thread::read_opt(document.get("thread")) {
            Some(value) => value,
            None => {
                return None;
            },
        };
        Some(
            Proof {
                source_id,
                requested_attrs,
                requested_predicates,
                msg_uid,
                ref_msg_id,
                state,
                proof_state,
                name,
                version,
                nonce,
                proof,
                proof_request,
                my_did,
                my_vk,
                their_did,
                their_vk,
                agent_did,
                agent_vk,
                revocation_interval,
                thread,
            },
        )
    }

    /// Reads the proof from a member that may be missing.
    pub fn read(member: Option<&JsonValue>) -> (read: Option<Proof>)
        ensures
            match ProofView::from_doc(member_doc(member)) {
                Some(view) => read is Some && read->0@ == view,
                None => read is None,
            },
    {
        match member {
            Some(document) => Proof::from_document(document),
            None => None,
        }
    }
}

/// The proof that a text persists: the text must be a persisted object of
/// the present version whose data hold the proof.
pub open spec fn persisted_proof(text: Seq<char>) -> Option<ProofView> {
    match persisted_in(text) {
        Some((version, data)) => if version == V3_OBJECT_SERIALIZE_VERSION@ {
            ProofView::from_doc(data)
        } else {
            None
        },
        None => None,
    }
}

impl Proof {
    /// The text in which the proof is persisted.
    pub fn to_string(&self) -> (text: String)
        ensures
            text@ == json_text(framed(V3_OBJECT_SERIALIZE_VERSION@, self@.to_doc())),
    {
        self::to_string(self.to_document())
    }

    /// The proof that the data `data` of a persisted object hold.
    ///
    /// Fails with `InvalidJson` where they hold none.
    pub fn from_data(data: &JsonValue) -> (proof: VcxResult<Proof>)
        ensures
            match ProofView::from_doc(data@) {
                Some(view) => proof is Ok && proof->Ok_0@ == view,
                None => proof is Err && proof->Err_0.kind() == VcxErrorKind::InvalidJson,
            },
    {
        match Proof::from_document(data) {
            Some(proof) => Ok(proof),
            None => Err(VcxError::from_msg(VcxErrorKind::InvalidJson, "Cannot deserialize the proof")),
        }
    }

    /// The proof that the text `text` persists.
    ///
    /// Fails with `InvalidJson` where the text is no JSON, has not the layout
    /// of a persisted object, is of another version than the present one, or
    /// holds no proof.
    pub fn from_string(text: &str) -> (proof: VcxResult<Proof>)
        ensures
            match persisted_proof(text@) {
                Some(view) => proof is Ok && proof->Ok_0@ == view,
                None => proof is Err && proof->Err_0.kind() == VcxErrorKind::InvalidJson,
            },
    {
        match self::from_string(text) {
            Ok(data) => Proof::from_data(&data),
            Err(failure) => Err(failure),
        }
    }
}

} // verus!
