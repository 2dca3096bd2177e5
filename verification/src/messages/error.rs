//! The problem report: the message by which a party declines or abandons a
//! conversation.

use vstd::prelude::*;
use vstd::string::StringExecFns;

use crate::messages::a2a::MessageId;
use crate::messages::thread::{Thread, ThreadView};
use crate::utils::codec::{
    as_opt_text, as_opt_u32, as_text, member_doc, opt_text_doc, opt_u32_doc, read_opt_text,
    read_opt_u32, read_text, values_are_read_back, write_opt_text, write_opt_u32,
};
use crate::utils::json::{JsonDoc, JsonValue};
use crate::utils::text::opt_text;

verus! {

/// A problem report: the thread it belongs to, a description for the reader
/// and, optionally, a code for the machine.
#[derive(Clone, Debug, PartialEq)]
pub struct ProblemReport {
    pub id: MessageId,
    pub thread: Thread,
    pub description: Option<String>,
    pub code: Option<u32>,
}

/// What a `ProblemReport` is: its value, with texts as sequences of characters.
pub struct ProblemReportView {
    pub id: Seq<char>,
    pub thread: ThreadView,
    pub description: Option<Seq<char>>,
    pub code: Option<u32>,
}

impl View for ProblemReport {
    type V = ProblemReportView;

    open spec fn view(&self) -> ProblemReportView {
        ProblemReportView {
            id: self.id@,
            thread: self.thread@,
            description: opt_text(self.description),
            code: self.code,
        }
    }
}

impl DeepView for ProblemReport {
    type V = ProblemReportView;

    open spec fn deep_view(&self) -> ProblemReportView {
        self@
    }
}

impl ProblemReport {
    /// A report under the identifier `id` that says nothing yet.
    pub fn create_with_id(id: MessageId) -> (report: ProblemReport)
        ensures
            report.id == id,
            report.thread@ == Thread::new_view(),
            report.description is None,
            report.code is None,
    {
        ProblemReport { id, thread: Thread::new(), description: None, code: None }
    }

    /// A report under a fresh identifier that says nothing yet.
    pub fn create() -> (report: ProblemReport)
        ensures
            report.thread@ == Thread::new_view(),
            report.description is None,
            report.code is None,
    {
        ProblemReport::create_with_id(MessageId::new())
    }

    /// The same report with the description `description`.
    pub fn set_description(self, description: String) -> (report: ProblemReport)
        ensures
            report == (ProblemReport { description: Some(description), ..self }),
    {
        let mut report = self;
        report.description = Some(description);
        report
    }

    /// The same report with the code `code`.
    pub fn set_code(self, code: u32) -> (report: ProblemReport)
        ensures
            report == (ProblemReport { code: Some(code), ..self }),
    {
        let mut report = self;
        report.code = Some(code);
        report
    }

    /// The same report on the thread `id`.
    pub fn set_thread_id(self, id: &str) -> (report: ProblemReport)
        ensures
            report@ == (ProblemReportView {
                thread: ThreadView { thid: Some(id@), ..self@.thread },
                ..self@
            }),
    {
        let ProblemReport { id: own, thread, description, code } = self;
        ProblemReport { id: own, thread: thread.set_thid(id.to_owned()), description, code }
    }
}

impl ProblemReportView {
    /// The document in which the problem report is persisted.
    pub open spec fn to_doc(self) -> JsonDoc {
        JsonDoc::Object(
            Map::<Seq<char>, JsonDoc>::empty().insert(
                "@id"@,
                JsonDoc::Text(self.id),
            ).insert(
                "~thread"@,
                self.thread.to_doc(),
            ).insert(
                "description"@,
                opt_text_doc(self.description),
            ).insert(
                "code"@,
                opt_u32_doc(self.code),
            ),
        )
    }

    /// The problem report that a document persists: an object whose members hold it.
    pub open spec fn from_doc(document: JsonDoc) -> Option<ProblemReportView> {
        if document is Object
            && as_text(document.member("@id"@)) is Some
            && ThreadView::from_doc(document.member("~thread"@)) is Some
            && as_opt_text(document.member("description"@)) is Some
            && as_opt_u32(document.member("code"@)) is Some {
            Some(
                ProblemReportView {
                    id: as_text(document.member("@id"@))->0,
                    thread: ThreadView::from_doc(document.member("~thread"@))->0,
                    description: as_opt_text(document.member("description"@))->0,
                    code: as_opt_u32(document.member("code"@))->0,
                },
            )
        } else {
            None
        }
    }

    /// What was persisted is what is read back.
    pub proof fn read_back(self)
        ensures
            ProblemReportView::from_doc(self.to_doc()) == Some(self),
            self.to_doc() is Object,
    {
        reveal_strlit("@id");
        reveal_strlit("~thread");
        reveal_strlit("description");
        reveal_strlit("code");
        assert("@id"@.len() == 3);
        assert("~thread"@.len() == 7);
        assert("description"@.len() == 11);
        assert("code"@.len() == 4);
        values_are_read_back();
        self.thread.read_back();
    }

    /// The document of an optional problem report: its document, or null.
    pub open spec fn opt_to_doc(value: Option<ProblemReportView>) -> JsonDoc {
        match value {
            Some(v) => v.to_doc(),
            None => JsonDoc::Null,
        }
    }

    /// The optional problem report that a document persists.
    pub open spec fn opt_from_doc(document: JsonDoc) -> Option<Option<ProblemReportView>> {
        match document {
            JsonDoc::Null => Some(None),
            _ => match ProblemReportView::from_doc(document) {
                Some(v) => Some(Some(v)),
                None => None,
            },
        }
    }

    /// What was persisted is what is read back.
    pub proof fn opt_read_back(value: Option<ProblemReportView>)
        ensures
            ProblemReportView::opt_from_doc(ProblemReportView::opt_to_doc(value)) == Some(value),
    {
        if value is Some {
            value->0.read_back();
        }
    }
}

impl ProblemReport {
    /// Writes the problem report as a document.
    pub fn to_document(&self) -> (document: JsonValue)
        ensures
            document@ == self@.to_doc(),
    {
        let mut document = JsonValue::object();
        document.insert(String::from_str("@id"), JsonValue::String(self.id.0.clone()));
        document.insert(String::from_str("~thread"), self.thread.to_document());
        document.insert(String::from_str("description"), write_opt_text(&self.description));
        document.insert(String::from_str("code"), write_opt_u32(self.code));
        document
    }

    /// Reads the problem report from a document.
    pub fn from_document(document: &JsonValue) -> (read: Option<ProblemReport>)
        ensures
            match ProblemReportView::from_doc(document@) {
                Some(view) => read is Some && read->0@ == view,
                None => read is None,
            },
    {
        if !document.is_object() {
            return None;
        }
        let id = match read_text(document.get("@id")) {
            Some(value) => MessageId(value),
            None => {
                return None;
            },
        };
        let thread = match Thread::read(document.get("~thread")) {
            Some(value) => value,
            None => {
                return None;
            },
        };
        let description = match read_opt_text(document.get("description")) {
            Some(value) => value,
            None => {
                return None;
            },
        };
        let code = match read_opt_u32(document.get("code")) {
            Some(value) => value,
            None => {
                return None;
            },
        };
        Some(ProblemReport { id, thread, description, code })
    }

    /// Reads the problem report from a member that may be missing.
    pub fn read(member: Option<&JsonValue>) -> (read: Option<ProblemReport>)
        ensures
            match ProblemReportView::from_doc(member_doc(member)) {
                Some(view) => read is Some && read->0@ == view,
                None => read is None,
            },
    {
        match member {
            Some(document) => ProblemReport::from_document(document),
            None => None,
        }
    }

    /// Writes an optional problem report as a document.
    pub fn write_opt(value: &Option<ProblemReport>) -> (document: JsonValue)
        ensures
            document@ == ProblemReportView::opt_to_doc(value.deep_view()),
    {
        match value {
            Some(v) => v.to_document(),
            None => JsonValue::Null,
        }
    }

    /// Reads an optional problem report from a member that may be missing.
    pub fn read_opt(member: Option<&JsonValue>) -> (read: Option<Option<ProblemReport>>)
        ensures
            match ProblemReportView::opt_from_doc(member_doc(member)) {
                Some(view) => read is Some && read->0.deep_view() == view,
                None => read is None,
            },
    {
        match member {
            None => Some(None),
            Some(JsonValue::Null) => Some(None),
            Some(document) => match ProblemReport::from_document(document) {
                Some(v) => Some(Some(v)),
                None => None,
            },
        }
    }
}

} // verus!
