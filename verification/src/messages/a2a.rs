//! The identifier that every message carries.

use vstd::prelude::*;
use vstd::string::StringExecFns;

use crate::messages::basic_message::message::BasicMessage;
use crate::messages::connection::invite::Invitation;
use crate::messages::connection::request::Request;
use crate::messages::connection::response::SignedResponse;
use crate::messages::error::ProblemReport;
use crate::messages::issuance::credential::Credential;
use crate::messages::issuance::credential_offer::CredentialOffer;
use crate::messages::issuance::credential_request::CredentialRequest;
use crate::messages::proof_presentation::presentation::Presentation;
use crate::messages::proof_presentation::presentation_request::PresentationRequest;

verus! {

/// The messages that agents exchange, by type.
#[derive(Clone, Debug, PartialEq)]
pub enum A2AMessage {
    ConnectionInvitation(Invitation),
    ConnectionRequest(Request),
    ConnectionResponse(SignedResponse),
    ConnectionProblemReport(ProblemReport),
    CredentialOffer(CredentialOffer),
    CredentialRequest(CredentialRequest),
    Credential(Credential),
    PresentationRequest(PresentationRequest),
    Presentation(Presentation),
    CommonProblemReport(ProblemReport),
    BasicMessage(BasicMessage),
}

/// The identifier of a message: opaque text, unique per message.
#[derive(Clone, Debug, PartialEq)]
pub struct MessageId(pub String);

impl View for MessageId {
    type V = Seq<char>;

    open spec fn view(&self) -> Seq<char> {
        self.0@
    }
}

impl DeepView for MessageId {
    type V = Seq<char>;

    open spec fn deep_view(&self) -> Seq<char> {
        self@
    }
}

/// Calls `uuid::Uuid::new_v4` and writes the identifier as text.
///
/// The identifier is random, so nothing is claimed of its characters; its
/// text form is the hyphenated one, which always has 36 characters. The call
/// panics only where the operating system cannot supply random bytes.
#[verifier::external_body]
fn random_uuid_text() -> (text: String)
    ensures
        text@.len() == 36,
{
    uuid::Uuid::new_v4().to_string()
}

impl MessageId {
    /// The fixed identifier used where messages have to be comparable.
    pub fn id() -> (id: MessageId)
        ensures
            id@ == "testid"@,
    {
        MessageId(String::from_str("testid"))
    }

    /// A fresh random identifier.
    pub fn new() -> (id: MessageId)
        ensures
            id@.len() == 36,
    {
        MessageId(random_uuid_text())
    }

    /// The identifier with the given text.
    pub fn from_text(text: String) -> (id: MessageId)
        ensures
            id.0 == text,
    {
        MessageId(text)
    }
}

impl Default for MessageId {
    /// A fresh random identifier.
    fn default() -> (id: MessageId)
        ensures
            id@.len() == 36,
    {
        MessageId::new()
    }
}

} // verus!
