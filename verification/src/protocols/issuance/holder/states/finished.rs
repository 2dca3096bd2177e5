//! The holder once the issuance ended.

use vstd::prelude::*;
use vstd::string::StringExecFns;

use crate::messages::error::ProblemReport;
use crate::messages::issuance::credential::{Credential, CredentialView};
use crate::messages::status::{Status, StatusView};
use crate::utils::codec::{
    as_opt_text, member_doc, opt_text_doc, read_opt_text, values_are_read_back, write_opt_text,
};
use crate::utils::json::{JsonDoc, JsonValue};
use crate::utils::text::opt_text;

verus! {

/// The issuance ended: with the credential, or declined.
#[derive(Debug, Clone, PartialEq)]
pub struct FinishedHolderState {
    pub cred_id: Option<String>,
    pub credential: Option<Credential>,
    pub status: Status,
    pub rev_reg_def_json: Option<String>,
}

impl FinishedHolderState {
    /// The state of an issuance that was declined with `problem_report`: no
    /// credential is recorded.
    pub open spec fn declined(problem_report: ProblemReport) -> FinishedHolderState {
        FinishedHolderState {
            cred_id: None,
            credential: None,
            status: Status::Declined(problem_report),
            rev_reg_def_json: None,
        }
    }

    /// Whether a revocation registry definition was recorded with the
    /// credential.
    pub fn is_revokable(&self) -> (revokable: bool)
        ensures
            revokable == (self.rev_reg_def_json is Some),
    {
        self.rev_reg_def_json.is_some()
    }
}

/// What a `FinishedHolderState` is: its value, with texts as sequences of characters.
pub struct FinishedHolderStateView {
    pub cred_id: Option<Seq<char>>,
    pub credential: Option<CredentialView>,
    pub status: StatusView,
    pub rev_reg_def_json: Option<Seq<char>>,
}

impl View for FinishedHolderState {
    type V = FinishedHolderStateView;

    open spec fn view(&self) -> FinishedHolderStateView {
        FinishedHolderStateView {
            cred_id: opt_text(self.cred_id),
            credential: self.credential.deep_view(),
            status: self.status@,
            rev_reg_def_json: opt_text(self.rev_reg_def_json),
        }
    }
}

impl DeepView for FinishedHolderState {
    type V = FinishedHolderStateView;

    open spec fn deep_view(&self) -> FinishedHolderStateView {
        self@
    }
}

impl FinishedHolderStateView {
    /// The document in which the state is persisted.
    pub open spec fn to_doc(self) -> JsonDoc {
        JsonDoc::Object(
            Map::<Seq<char>, JsonDoc>::empty().insert(
                "cred_id"@,
                opt_text_doc(self.cred_id),
            ).insert(
                "credential"@,
                CredentialView::opt_to_doc(self.credential),
            ).insert(
                "status"@,
                self.status.to_doc(),
            ).insert(
                "rev_reg_def_json"@,
                opt_text_doc(self.rev_reg_def_json),
            ),
        )
    }

    /// The state that a document persists: an object whose members hold it.
    pub open spec fn from_doc(document: JsonDoc) -> Option<FinishedHolderStateView> {
        if document is Object
            && as_opt_text(document.member("cred_id"@)) is Some
            && CredentialView::opt_from_doc(document.member("credential"@)) is Some
            && StatusView::from_doc(document.member("status"@)) is Some
            && as_opt_text(document.member("rev_reg_def_json"@)) is Some {
            Some(
                FinishedHolderStateView {
                    cred_id: as_opt_text(document.member("cred_id"@))->0,
                    credential: CredentialView::opt_from_doc(document.member("credential"@))->0,
                    status: StatusView::from_doc(document.member("status"@))->0,
                    rev_reg_def_json: as_opt_text(document.member("rev_reg_def_json"@))->0,
                },
            )
        } else {
            None
        }
    }

    /// What was persisted is what is read back.
    pub proof fn read_back(self)
        ensures
            FinishedHolderStateView::from_doc(self.to_doc()) == Some(self),
            self.to_doc() is Object,
    {
        reveal_strlit("cred_id");
        reveal_strlit("credential");
        reveal_strlit("status");
        reveal_strlit("rev_reg_def_json");
        assert("cred_id"@.len() == 7);
        assert("credential"@.len() == 10);
        assert("status"@.len() == 6);
        assert("rev_reg_def_json"@.len() == 16);
        values_are_read_back();
        CredentialView::opt_read_back(self.credential);
        self.status.read_back();
    }
}

impl FinishedHolderState {
    /// Writes the state as a document.
    pub fn to_document(&self) -> (document: JsonValue)
        ensures
            document@ == self@.to_doc(),
    {
        let mut document = JsonValue::object();
        document.insert(String::from_str("cred_id"), write_opt_text(&self.cred_id));
        document.insert(String::from_str("credential"), Credential::write_opt(&self.credential));
        document.insert(String::from_str("status"), self.status.to_document());
        document.insert(
            String::from_str("rev_reg_def_json"),
            write_opt_text(&self.rev_reg_def_json),
        );
        document
    }

    /// Reads the state from a document.
    pub fn from_document(document: &JsonValue) -> (read: Option<FinishedHolderState>)
        ensures
            match FinishedHolderStateView::from_doc(document@) {
                Some(view) => read is Some && read->0@ == view,
                None => read is None,
            },
    {
        if !document.is_object() {
            return None;
        }
        let cred_id = match read_opt_text(document.get("cred_id")) {
            Some(value) => value,
            None => {
                return None;
            },
        };
        let credential = match Credential::read_opt(document.get("credential")) {
            Some(value) => value,
            None => {
                return None;
            },
        };
        let status = match Status::read(document.get("status")) {
            Some(value) => value,
            None => {
                return None;
            },
        };
        let rev_reg_def_json = match read_opt_text(document.get("rev_reg_def_json")) {
            Some(value) => value,
            None => {
                return None;
            },
        };
        Some(FinishedHolderState { cred_id, credential, status, rev_reg_def_json })
    }

    /// Reads the state from a member that may be missing.
    pub fn read(member: Option<&JsonValue>) -> (read: Option<FinishedHolderState>)
        ensures
            match FinishedHolderStateView::from_doc(member_doc(member)) {
                Some(view) => read is Some && read->0@ == view,
                None => read is None,
            },
    {
        match member {
            Some(document) => FinishedHolderState::from_document(document),
            None => None,
        }
    }
}

} // verus!
