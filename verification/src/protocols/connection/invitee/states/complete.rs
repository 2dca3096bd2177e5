//! The invitee once the connection stands.

use vstd::prelude::*;
use vstd::std_specs::convert::FromSpecImpl;
use vstd::string::StringExecFns;

use crate::did_doc::{DidDoc, DidDocView};
use crate::messages::connection::problem_report::ProblemReport;
use crate::protocols::connection::invitee::states::initial::InitialState;
use crate::utils::codec::{
    as_opt_text, as_opt_texts, member_doc, opt_text_doc, opt_texts_doc, read_opt_text,
    read_opt_texts, values_are_read_back, write_opt_text, write_opt_texts,
};
use crate::utils::json::{JsonDoc, JsonValue};
use crate::utils::text::opt_text;

verus! {

/// The connection stands: the inviter's document, the thread under which the
/// connection was made, and the protocols the inviter is known to speak.
#[derive(Debug, Clone, PartialEq)]
pub struct CompleteState {
    pub did_doc: DidDoc,
    pub thread_id: Option<String>,
    pub protocols: Option<Vec<String>>,
}

impl From<(CompleteState, ProblemReport)> for InitialState {
    fn from(pair: (CompleteState, ProblemReport)) -> (initial: InitialState) {
        let (_state, problem_report) = pair;
        InitialState::new(Some(problem_report))
    }
}

impl FromSpecImpl<(CompleteState, ProblemReport)> for InitialState {
    open spec fn obeys_from_spec() -> bool {
        true
    }

    /// Only the report is kept.
    open spec fn from_spec(pair: (CompleteState, ProblemReport)) -> InitialState {
        InitialState { problem_report: Some(pair.1) }
    }
}

/// What a `CompleteState` is: its value, with texts as sequences of characters.
pub struct CompleteStateView {
    pub did_doc: DidDocView,
    pub thread_id: Option<Seq<char>>,
    pub protocols: Option<Seq<Seq<char>>>,
}

impl View for CompleteState {
    type V = CompleteStateView;

    open spec fn view(&self) -> CompleteStateView {
        CompleteStateView {
            did_doc: self.did_doc@,
            thread_id: opt_text(self.thread_id),
            protocols: self.protocols.deep_view(),
        }
    }
}

impl DeepView for CompleteState {
    type V = CompleteStateView;

    open spec fn deep_view(&self) -> CompleteStateView {
        self@
    }
}

impl CompleteStateView {
    /// The document in which the state is persisted.
    pub open spec fn to_doc(self) -> JsonDoc {
        JsonDoc::Object(
            Map::<Seq<char>, JsonDoc>::empty().insert(
                "did_doc"@,
                self.did_doc.to_doc(),
            ).insert(
                "thread_id"@,
                opt_text_doc(self.thread_id),
            ).insert(
                "protocols"@,
                opt_texts_doc(self.protocols),
            ),
        )
    }

    /// The state that a document persists: an object whose members hold it.
    pub open spec fn from_doc(document: JsonDoc) -> Option<CompleteStateView> {
        if document is Object
            && DidDocView::from_doc(document.member("did_doc"@)) is Some
            && as_opt_text(document.member("thread_id"@)) is Some
            && as_opt_texts(document.member("protocols"@)) is Some {
            Some(
                CompleteStateView {
                    did_doc: DidDocView::from_doc(document.member("did_doc"@))->0,
                    thread_id: as_opt_text(document.member("thread_id"@))->0,
                    protocols: as_opt_texts(document.member("protocols"@))->0,
                },
            )
        } else {
            None
        }
    }

    /// What was persisted is what is read back.
    pub proof fn read_back(self)
        ensures
            CompleteStateView::from_doc(self.to_doc()) == Some(self),
            self.to_doc() is Object,
    {
        reveal_strlit("did_doc");
        reveal_strlit("thread_id");
        reveal_strlit("protocols");
        assert("did_doc"@.len() == 7);
        assert("thread_id"@.len() == 9);
        assert("protocols"@.len() == 9);
        assert("thread_id"@[0] != "protocols"@[0]);
        values_are_read_back();
        self.did_doc.read_back();
    }
}

impl CompleteState {
    /// Writes the state as a document.
    pub fn to_document(&self) -> (document: JsonValue)
        ensures
            document@ == self@.to_doc(),
    {
        let mut document = JsonValue::object();
        document.insert(String::from_str("did_doc"), self.did_doc.to_document());
        document.insert(String::from_str("thread_id"), write_opt_text(&self.thread_id));
        document.insert(String::from_str("protocols"), write_opt_texts(&self.protocols));
        document
    }

    /// Reads the state from a document.
    pub fn from_document(document: &JsonValue) -> (read: Option<CompleteState>)
        ensures
            match CompleteStateView::from_doc(document@) {
                Some(view) => read is Some && read->0@ == view,
                None => read is None,
            },
    {
        if !document.is_object() {
            return None;
        }
        let did_doc = match DidDoc::read(document.get("did_doc")) {
            Some(value) => value,
            None => {
                return None;
            },
        };
        let thread_id = match read_opt_text(document.get("thread_id")) {
            Some(value) => value,
            None => {
                return None;
            },
        };
        let protocols = match read_opt_texts(document.get("protocols")) {
            Some(value) => value,
            None => {
                return None;
            },
        };
        Some(CompleteState { did_doc, thread_id, protocols })
    }

    /// Reads the state from a member that may be missing.
    pub fn read(member: Option<&JsonValue>) -> (read: Option<CompleteState>)
        ensures
            match CompleteStateView::from_doc(member_doc(member)) {
                Some(view) => read is Some && read->0@ == view,
                None => read is None,
            },
    {
        match member {
            Some(document) => CompleteState::from_document(document),
            None => None,
        }
    }
}

} // verus!
