//! The invitee before any invitation, or after a problem report.

use vstd::prelude::*;
use vstd::std_specs::convert::FromSpecImpl;
use vstd::string::StringExecFns;

use crate::messages::connection::invite::Invitation;
use crate::messages::connection::problem_report::ProblemReport;
use crate::messages::error::ProblemReportView;
use crate::protocols::connection::invitee::states::invited::InvitedState;
use crate::utils::codec::{member_doc, values_are_read_back};
use crate::utils::json::{JsonDoc, JsonValue};

verus! {

/// Nothing is under way; the report that ended an earlier attempt, if any, is
/// kept for diagnostics.
#[derive(Debug, Clone, PartialEq)]
pub struct InitialState {
    pub problem_report: Option<ProblemReport>,
}

impl From<(InitialState, Invitation)> for InvitedState {
    fn from(pair: (InitialState, Invitation)) -> (invited: InvitedState) {
        let (_state, invitation) = pair;
        InvitedState { invitation }
    }
}

impl FromSpecImpl<(InitialState, Invitation)> for InvitedState {
    open spec fn obeys_from_spec() -> bool {
        true
    }

    /// The invitation is stored; nothing of the earlier state is kept.
    open spec fn from_spec(pair: (InitialState, Invitation)) -> InvitedState {
        InvitedState { invitation: pair.1 }
    }
}

impl From<(InitialState, ProblemReport)> for InitialState {
    fn from(pair: (InitialState, ProblemReport)) -> (initial: InitialState) {
        let (_state, problem_report) = pair;
        InitialState::new(Some(problem_report))
    }
}

impl FromSpecImpl<(InitialState, ProblemReport)> for InitialState {
    open spec fn obeys_from_spec() -> bool {
        true
    }

    /// The new report replaces the old one.
    open spec fn from_spec(pair: (InitialState, ProblemReport)) -> InitialState {
        InitialState { problem_report: Some(pair.1) }
    }
}

impl InitialState {
    /// The initial state that keeps `problem_report`.
    pub fn new(problem_report: Option<ProblemReport>) -> (initial: InitialState)
        ensures
            initial == (InitialState { problem_report }),
    {
        InitialState { problem_report }
    }
}

/// What a `InitialState` is: its value, with texts as sequences of characters.
pub struct InitialStateView {
    pub problem_report: Option<ProblemReportView>,
}

impl View for InitialState {
    type V = InitialStateView;

    open spec fn view(&self) -> InitialStateView {
        InitialStateView {
            problem_report: self.problem_report.deep_view(),
        }
    }
}

impl DeepView for InitialState {
    type V = InitialStateView;

    open spec fn deep_view(&self) -> InitialStateView {
        self@
    }
}

impl InitialStateView {
    /// The document in which the state is persisted.
    pub open spec fn to_doc(self) -> JsonDoc {
        JsonDoc::Object(
            Map::<Seq<char>, JsonDoc>::empty().insert(
                "problem_report"@,
                ProblemReportView::opt_to_doc(self.problem_report),
            ),
        )
    }

    /// The state that a document persists: an object whose members hold it.
    pub open spec fn from_doc(document: JsonDoc) -> Option<InitialStateView> {
        if document is Object
            && ProblemReportView::opt_from_doc(document.member("problem_report"@)) is Some {
            Some(
                InitialStateView {
                    problem_report: ProblemReportView::opt_from_doc(
                        document.member("problem_report"@),
                    )->0,
                },
            )
        } else {
            None
        }
    }

    /// What was persisted is what is read back.
    pub proof fn read_back(self)
        ensures
            InitialStateView::from_doc(self.to_doc()) == Some(self),
            self.to_doc() is Object,
    {
        reveal_strlit("problem_report");
        assert("problem_report"@.len() == 14);
        values_are_read_back();
        ProblemReportView::opt_read_back(self.problem_report);
    }
}

impl InitialState {
    /// Writes the state as a document.
    pub fn to_document(&self) -> (document: JsonValue)
        ensures
            document@ == self@.to_doc(),
    {
        let mut document = JsonValue::object();
        document.insert(
            String::from_str("problem_report"),
            ProblemReport::write_opt(&self.problem_report),
        );
        document
    }

    /// Reads the state from a document.
    pub fn from_document(document: &JsonValue) -> (read: Option<InitialState>)
        ensures
            match InitialStateView::from_doc(document@) {
                Some(view) => read is Some && read->0@ == view,
                None => read is None,
            },
    {
        if !document.is_object() {
            return None;
        }
        let problem_report = match ProblemReport::read_opt(document.get("problem_report")) {
            Some(value) => value,
            None => {
                return None;
            },
        };
        Some(InitialState { problem_report })
    }

    /// Reads the state from a member that may be missing.
    pub fn read(member: Option<&JsonValue>) -> (read: Option<InitialState>)
        ensures
            match InitialStateView::from_doc(member_doc(member)) {
                Some(view) => read is Some && read->0@ == view,
                None => read is None,
            },
    {
        match member {
            Some(document) => InitialState::from_document(document),
            None => None,
        }
    }
}

} // verus!
