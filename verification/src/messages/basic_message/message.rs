//! The basic message and its builders.

use vstd::prelude::*;

use crate::messages::a2a::{A2AMessage, MessageId};
use crate::messages::localization::Localization;
use crate::messages::thread::{Thread, ThreadView};
use crate::messages::timing::{Timing, TimingView};

verus! {

/// A basic message: a text, the time it was sent and, optionally, the
/// language of the text.
#[derive(Debug, Clone, PartialEq)]
pub struct BasicMessage {
    pub id: MessageId,
    pub sent_time: String,
    pub content: String,
    pub l10n: Option<Localization>,
    pub thread: Option<Thread>,
    pub timing: Option<Timing>,
}

/// What a `BasicMessage` is: its value, with texts as sequences of characters.
pub struct BasicMessageView {
    pub id: Seq<char>,
    pub sent_time: Seq<char>,
    pub content: Seq<char>,
    pub l10n: Option<Seq<char>>,
    pub thread: Option<ThreadView>,
    pub timing: Option<TimingView>,
}

impl BasicMessageView {
    /// The message under `id` that says nothing yet.
    pub open spec fn empty(id: Seq<char>) -> BasicMessageView {
        BasicMessageView {
            id,
            sent_time: Seq::empty(),
            content: Seq::empty(),
            l10n: None,
            thread: None,
            timing: None,
        }
    }
}

impl View for BasicMessage {
    type V = BasicMessageView;

    open spec fn view(&self) -> BasicMessageView {
        BasicMessageView {
            id: self.id@,
            sent_time: self.sent_time@,
            content: self.content@,
            l10n: self.l10n.deep_view(),
            thread: self.thread.deep_view(),
            timing: self.timing.deep_view(),
        }
    }
}

impl DeepView for BasicMessage {
    type V = BasicMessageView;

    open spec fn deep_view(&self) -> BasicMessageView {
        self@
    }
}

/// Reads the clock with `chrono::Utc::now` and writes the time as its `Debug`
/// form does. The text depends on when the call is made, so nothing is
/// claimed of it.
#[verifier::external_body]
fn current_utc_time() -> (time: String) {
    format!("{:?}", chrono::Utc::now())
}

impl Default for BasicMessage {
    /// A message under a fresh identifier that says nothing yet.
    fn default() -> (message: BasicMessage)
        ensures
            message@ == BasicMessageView::empty(message@.id),
    {
        BasicMessage::create_with_id(MessageId::new())
    }
}

impl BasicMessage {
    /// A message under a fresh identifier that says nothing yet.
    pub fn create() -> (message: BasicMessage)
        ensures
            message@ == BasicMessageView::empty(message@.id),
    {
        BasicMessage::create_with_id(MessageId::new())
    }

    /// The message under the identifier `id` that says nothing yet.
    pub fn create_with_id(id: MessageId) -> (message: BasicMessage)
        ensures
            message@ == BasicMessageView::empty(id@),
    {
        BasicMessage {
            id,
            sent_time: String::new(),
            content: String::new(),
            l10n: None,
            thread: None,
            timing: None,
        }
    }

    /// The same message with the text `content`.
    pub fn set_content(self, content: String) -> (message: BasicMessage)
        ensures
            message@ == (BasicMessageView { content: content@, ..self@ }),
    {
        let mut message = self;
        message.content = content;
        message
    }

    /// The same message, sent at `time`.
    pub fn set_sent_time(self, time: String) -> (message: BasicMessage)
        ensures
            message@ == (BasicMessageView { sent_time: time@, ..self@ }),
    {
        let mut message = self;
        message.sent_time = time;
        message
    }

    /// The same message, sent now: only the time of sending changes, to what
    /// the clock says.
    pub fn set_time(self) -> (message: BasicMessage)
        ensures
            message@ == (BasicMessageView { sent_time: message@.sent_time, ..self@ }),
    {
        self.set_sent_time(current_utc_time())
    }

    /// The same message, with its text declared to be English.
    pub fn set_default_localization(self) -> (message: BasicMessage)
        ensures
            message@ == (BasicMessageView { l10n: Some("en"@), ..self@ }),
    {
        let mut message = self;
        message.l10n = Some(Localization::default());
        message
    }

    /// The same message on the thread `id`.
    pub fn set_thread_id(self, id: &str) -> (message: BasicMessage)
        ensures
            message@ == (BasicMessageView {
                thread: Some(
                    ThreadView {
                        thid: Some(id@),
                        ..match self@.thread {
                            Some(thread) => thread,
                            None => Thread::new_view(),
                        }
                    },
                ),
                ..self@
            }),
    {
        let BasicMessage { id: own, sent_time, content, l10n, thread, timing } = self;
        let thread = match thread {
            Some(thread) => thread,
            None => Thread::new(),
        };
        BasicMessage {
            id: own,
            sent_time,
            content,
            l10n,
            thread: Some(thread.set_thid(id.to_owned())),
            timing,
        }
    }

    /// A copy of the message.
    pub fn duplicate(&self) -> (copy: BasicMessage)
        ensures
            copy@ == self@,
    {
        BasicMessage {
            id: MessageId(self.id.0.clone()),
            sent_time: self.sent_time.clone(),
            content: self.content.clone(),
            l10n: match &self.l10n {
                Some(l10n) => Some(Localization { locale: l10n.locale.clone() }),
                None => None,
            },
            thread: match &self.thread {
                Some(thread) => Some(thread.duplicate()),
                None => None,
            },
            timing: match &self.timing {
                Some(timing) => Some(timing.duplicate()),
                None => None,
            },
        }
    }

    /// The message as one of the messages that agents exchange.
    pub fn to_a2a_message(&self) -> (message: A2AMessage)
        ensures
            message is BasicMessage,
            message->BasicMessage_0@ == self@,
    {
        A2AMessage::BasicMessage(self.duplicate())
    }

    /// The same message with the timing hints `timing`.
    pub fn set_timing(self, timing: Timing) -> (message: BasicMessage)
        ensures
            message@ == (BasicMessageView { timing: Some(timing@), ..self@ }),
    {
        let mut message = self;
        message.timing = Some(timing);
        message
    }
}

} // verus!
