//! The decorator that carries timing hints. The hints have no effect on the
//! protocol state machines.

use vstd::prelude::*;
use vstd::string::StringExecFns;

use crate::utils::codec::{
    as_opt_text, as_opt_u32, member_doc, opt_text_doc, opt_u32_doc, read_opt_text, read_opt_u32,
    values_are_read_back, write_opt_text, write_opt_u32,
};
use crate::utils::json::{JsonDoc, JsonValue};
use crate::utils::text::{clone_opt_text, opt_text};

verus! {

/// Timing hints of a message; every one of them is optional.
#[derive(Clone, Debug, PartialEq)]
pub struct Timing {
    pub in_time: Option<String>,
    pub out_time: Option<String>,
    pub stale_time: Option<String>,
    pub expires_time: Option<String>,
    pub delay_milli: Option<u32>,
    pub wait_until_time: Option<String>,
}

/// What a `Timing` is: its value, with texts as sequences of characters.
pub struct TimingView {
    pub in_time: Option<Seq<char>>,
    pub out_time: Option<Seq<char>>,
    pub stale_time: Option<Seq<char>>,
    pub expires_time: Option<Seq<char>>,
    pub delay_milli: Option<u32>,
    pub wait_until_time: Option<Seq<char>>,
}

impl TimingView {
    /// The hints of which none is given.
    pub open spec fn empty() -> TimingView {
        TimingView {
            in_time: None,
            out_time: None,
            stale_time: None,
            expires_time: None,
            delay_milli: None,
            wait_until_time: None,
        }
    }
}

impl View for Timing {
    type V = TimingView;

    open spec fn view(&self) -> TimingView {
        TimingView {
            in_time: opt_text(self.in_time),
            out_time: opt_text(self.out_time),
            stale_time: opt_text(self.stale_time),
            expires_time: opt_text(self.expires_time),
            delay_milli: self.delay_milli,
            wait_until_time: opt_text(self.wait_until_time),
        }
    }
}

impl DeepView for Timing {
    type V = TimingView;

    open spec fn deep_view(&self) -> TimingView {
        self@
    }
}

impl Timing {
    /// Hints of which none is given.
    pub fn new() -> (timing: Timing)
        ensures
            timing@ == TimingView::empty(),
    {
        Timing {
            in_time: None,
            out_time: None,
            stale_time: None,
            expires_time: None,
            delay_milli: None,
            wait_until_time: None,
        }
    }

    /// A copy of the hints.
    pub fn duplicate(&self) -> (copy: Timing)
        ensures
            copy@ == self@,
    {
        Timing {
            in_time: clone_opt_text(&self.in_time),
            out_time: clone_opt_text(&self.out_time),
            stale_time: clone_opt_text(&self.stale_time),
            expires_time: clone_opt_text(&self.expires_time),
            delay_milli: self.delay_milli,
            wait_until_time: clone_opt_text(&self.wait_until_time),
        }
    }

    /// The same hints with the time of sending set to `time`.
    pub fn set_out_time(self, time: String) -> (timing: Timing)
        ensures
            timing@ == (TimingView { out_time: Some(time@), ..self@ }),
    {
        let mut timing = self;
        timing.out_time = Some(time);
        timing
    }

    /// The same hints with the time of expiry set to `time`.
    pub fn set_expires_time(self, time: String) -> (timing: Timing)
        ensures
            timing@ == (TimingView { expires_time: Some(time@), ..self@ }),
    {
        let mut timing = self;
        timing.expires_time = Some(time);
        timing
    }

    /// The same hints with the delay set to `millis`.
    pub fn set_delay_milli(self, millis: u32) -> (timing: Timing)
        ensures
            timing@ == (TimingView { delay_milli: Some(millis), ..self@ }),
    {
        let mut timing = self;
        timing.delay_milli = Some(millis);
        timing
    }
}

impl TimingView {
    /// The document in which the timing hints is persisted.
    pub open spec fn to_doc(self) -> JsonDoc {
        JsonDoc::Object(
            Map::<Seq<char>, JsonDoc>::empty().insert(
                "in_time"@,
                opt_text_doc(self.in_time),
            ).insert(
                "out_time"@,
                opt_text_doc(self.out_time),
            ).insert(
                "stale_time"@,
                opt_text_doc(self.stale_time),
            ).insert(
                "expires_time"@,
                opt_text_doc(self.expires_time),
            ).insert(
                "delay_milli"@,
                opt_u32_doc(self.delay_milli),
            ).insert(
                "wait_until_time"@,
                opt_text_doc(self.wait_until_time),
            ),
        )
    }

    /// The timing hints that a document persists: an object whose members hold it.
    pub open spec fn from_doc(document: JsonDoc) -> Option<TimingView> {
        if document is Object
            && as_opt_text(document.member("in_time"@)) is Some
            && as_opt_text(document.member("out_time"@)) is Some
            && as_opt_text(document.member("stale_time"@)) is Some
            && as_opt_text(document.member("expires_time"@)) is Some
            && as_opt_u32(document.member("delay_milli"@)) is Some
            && as_opt_text(document.member("wait_until_time"@)) is Some {
            Some(
                TimingView {
                    in_time: as_opt_text(document.member("in_time"@))->0,
                    out_time: as_opt_text(document.member("out_time"@))->0,
                    stale_time: as_opt_text(document.member("stale_time"@))->0,
                    expires_time: as_opt_text(document.member("expires_time"@))->0,
                    delay_milli: as_opt_u32(document.member("delay_milli"@))->0,
                    wait_until_time: as_opt_text(document.member("wait_until_time"@))->0,
                },
            )
        } else {
            None
        }
    }

    /// What was persisted is what is read back.
    pub proof fn read_back(self)
        ensures
            TimingView::from_doc(self.to_doc()) == Some(self),
            self.to_doc() is Object,
    {
        reveal_strlit("in_time");
        reveal_strlit("out_time");
        reveal_strlit("stale_time");
        reveal_strlit("expires_time");
        reveal_strlit("delay_milli");
        reveal_strlit("wait_until_time");
        assert("in_time"@.len() == 7);
        assert("out_time"@.len() == 8);
        assert("stale_time"@.len() == 10);
        assert("expires_time"@.len() == 12);
        assert("delay_milli"@.len() == 11);
        assert("wait_until_time"@.len() == 15);
        values_are_read_back();
    }

    /// The document of an optional timing hints: its document, or null.
    pub open spec fn opt_to_doc(value: Option<TimingView>) -> JsonDoc {
        match value {
            Some(v) => v.to_doc(),
            None => JsonDoc::Null,
        }
    }

    /// The optional timing hints that a document persists.
    pub open spec fn opt_from_doc(document: JsonDoc) -> Option<Option<TimingView>> {
        match document {
            JsonDoc::Null => Some(None),
            _ => match TimingView::from_doc(document) {
                Some(v) => Some(Some(v)),
                None => None,
            },
        }
    }

    /// What was persisted is what is read back.
    pub proof fn opt_read_back(value: Option<TimingView>)
        ensures
            TimingView::opt_from_doc(TimingView::opt_to_doc(value)) == Some(value),
    {
        if value is Some {
            value->0.read_back();
        }
    }
}

impl Timing {
    /// Writes the timing hints as a document.
    pub fn to_document(&self) -> (document: JsonValue)
        ensures
            document@ == self@.to_doc(),
    {
        let mut document = JsonValue::object();
        document.insert(String::from_str("in_time"), write_opt_text(&self.in_time));
        document.insert(String::from_str("out_time"), write_opt_text(&self.out_time));
        document.insert(String::from_str("stale_time"), write_opt_text(&self.stale_time));
        document.insert(String::from_str("expires_time"), write_opt_text(&self.expires_time));
        document.insert(String::from_str("delay_milli"), write_opt_u32(self.delay_milli));
        document.insert(String::from_str("wait_until_time"), write_opt_text(&self.wait_until_time));
        document
    }

    /// Reads the timing hints from a document.
    pub fn from_document(document: &JsonValue) -> (read: Option<Timing>)
        ensures
            match TimingView::from_doc(document@) {
                Some(view) => read is Some && read->0@ == view,
                None => read is None,
            },
    {
        if !document.is_object() {
            return None;
        }
        let in_time = match read_opt_text(document.get("in_time")) {
            Some(value) => value,
            None => {
                return None;
            },
        };
        let out_time = match read_opt_text(document.get("out_time")) {
            Some(value) => value,
            None => {
                return None;
            },
        };
        let stale_time = match read_opt_text(document.get("stale_time")) {
            Some(value) => value,
            None => {
                return None;
            },
        };
        let expires_time = match read_opt_text(document.get("expires_time")) {
            Some(value) => value,
            None => {
                return None;
            },
        };
        let delay_milli = match read_opt_u32(document.get("delay_milli")) {
            Some(value) => value,
            None => {
                return None;
            },
        };
        let wait_until_time = match read_opt_text(document.get("wait_until_time")) {
            Some(value) => value,
            None => {
                return None;
            },
        };
        Some(Timing { in_time, out_time, stale_time, expires_time, delay_milli, wait_until_time })
    }

    /// Reads the timing hints from a member that may be missing.
    pub fn read(member: Option<&JsonValue>) -> (read: Option<Timing>)
        ensures
            match TimingView::from_doc(member_doc(member)) {
                Some(view) => read is Some && read->0@ == view,
                None => read is None,
            },
    {
        match member {
            Some(document) => Timing::from_document(document),
            None => None,
        }
    }

    /// Writes an optional timing hints as a document.
    pub fn write_opt(value: &Option<Timing>) -> (document: JsonValue)
        ensures
            document@ == TimingView::opt_to_doc(value.deep_view()),
    {
        match value {
            Some(v) => v.to_document(),
            None => JsonValue::Null,
        }
    }

    /// Reads an optional timing hints from a member that may be missing.
    pub fn read_opt(member: Option<&JsonValue>) -> (read: Option<Option<Timing>>)
        ensures
            match TimingView::opt_from_doc(member_doc(member)) {
                Some(view) => read is Some && read->0.deep_view() == view,
                None => read is None,
            },
    {
        match member {
            None => Some(None),
            Some(JsonValue::Null) => Some(None),
            Some(document) => match Timing::from_document(document) {
                Some(v) => Some(Some(v)),
                None => None,
            },
        }
    }
}

} // verus!
