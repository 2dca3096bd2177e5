//! A conversation: one state machine bound to the thread that correlates its
//! messages. A message from the counterpart reaches the machine only after
//! the correlation check, and is counted only when the machine took it.

use vstd::prelude::*;
use vstd::string::StringExecFns;

use crate::error::{VcxError, VcxErrorKind, VcxResult};
use crate::messages::thread::{accepted, replay_is_rejected, Thread, ThreadView};

verus! {

/// A state machine whose messages are correlated by a thread.
pub trait Correlated: Sized {
    /// What can happen to the machine.
    type Event;

    /// The thread that an event carries: that of the message, where the event
    /// is a message from the counterpart, and none where it is an action of
    /// the machine's own side.
    spec fn carried_thread(event: &Self::Event) -> Option<ThreadView>;

    /// The identifier of the thread that the machine belongs to.
    spec fn conversation_id(&self) -> Seq<char>;

    /// The kind of failure with which the machine rejects an event, or
    /// nothing where it accepts it.
    spec fn rejects(&self, event: &Self::Event) -> Option<VcxErrorKind>;

    /// Whether `next` is the machine after it accepted `event`.
    spec fn reaches(&self, event: &Self::Event, next: &Self) -> bool;

    /// A copy of the thread that an event carries.
    fn event_thread(event: &Self::Event) -> (carried: Option<Thread>)
        ensures
            carried.deep_view() == Self::carried_thread(event),
    ;

    /// The identifier of the thread that the machine belongs to.
    fn thread_id(&self) -> (id: String)
        ensures
            id@ == self.conversation_id(),
    ;

    /// Applies an event to the machine: an accepted event moves the machine
    /// on, a rejected one leaves it as it was and reports the failure.
    fn step(&mut self, event: Self::Event) -> (outcome: VcxResult<()>)
        ensures
            match old(self).rejects(&event) {
                None => outcome is Ok && old(self).reaches(&event, final(self)),
                Some(kind) => outcome is Err && *final(self) == *old(self) && outcome->Err_0.kind()
                    == kind,
            },
    ;
}

/// A machine together with the thread of its conversation.
#[derive(Debug, Clone, PartialEq)]
pub struct Conversation<M> {
    pub thread: Thread,
    pub machine: M,
}

/// What the delivery of an event from `sender` does to a conversation: the
/// thread after it, or the kind of failure with which it is rejected.
///
/// A message from the counterpart must pass the correlation check, or it is
/// rejected with `InvalidThread`; then the machine must accept the event.
/// The counter of the sender moves only when both did. An action of the
/// machine's own side is not correlated and leaves the thread as it is.
pub open spec fn delivered<M: Correlated>(
    thread: ThreadView,
    machine: &M,
    sender: Seq<char>,
    event: &M::Event,
) -> Result<ThreadView, VcxErrorKind> {
    match M::carried_thread(event) {
        Some(incoming) => match accepted(thread, incoming, sender) {
            Some(after) => match machine.rejects(event) {
                None => Ok(after),
                Some(kind) => Err(kind),
            },
            None => Err(VcxErrorKind::InvalidThread),
        },
        None => match machine.rejects(event) {
            None => Ok(thread),
            Some(kind) => Err(kind),
        },
    }
}

impl<M: Correlated> Conversation<M> {
    /// The conversation of `machine`: on the thread of the machine, with no
    /// message counted yet.
    pub fn new(machine: M) -> (conversation: Conversation<M>)
        ensures
            conversation.machine == machine,
            conversation.thread@ == (ThreadView {
                thid: Some(machine.conversation_id()),
                ..Thread::new_view()
            }),
    {
        let thread = Thread::new().set_thid(machine.thread_id());
        Conversation { thread, machine }
    }

    /// Delivers `event`, which came from `sender`, to the conversation.
    ///
    /// A rejected event changes nothing, neither the machine nor the thread,
    /// and reports the failure: `InvalidThread` for a message that is out of
    /// thread, repeated or out of order, and otherwise the failure of the
    /// machine. An accepted event moves the machine on and, where it is a
    /// message, counts it for its sender.
    pub fn receive(&mut self, sender: &str, event: M::Event) -> (outcome: VcxResult<()>)
        ensures
            match delivered(old(self).thread@, &old(self).machine, sender@, &event) {
                Ok(after) => outcome is Ok && final(self).thread@ == after && old(
                    self,
                ).machine.reaches(&event, &final(self).machine),
                Err(kind) => outcome is Err && outcome->Err_0.kind() == kind && *final(self)
                    == *old(self),
            },
    {
        let carried = M::event_thread(&event);
        match &carried {
            Some(incoming) => {
                if !self.thread.accepts(incoming, sender) {
                    return Err(
                        VcxError::from_msg(
                            VcxErrorKind::InvalidThread,
                            "The message is out of thread, repeated or out of order",
                        ),
                    );
                }
            },
            None => {},
        }
        match self.machine.step(event) {
            Ok(_) => {
                match &carried {
                    Some(incoming) => {
                        let _ = self.thread.accept(incoming, sender);
                    },
                    None => {},
                }
                Ok(())
            },
            Err(failure) => Err(failure),
        }
    }
}

/// A message that a conversation accepted is rejected when it is delivered
/// again, whatever the machine would do with it, and the rejected delivery
/// changes nothing.
pub proof fn redelivery_is_rejected<M: Correlated>(
    thread: ThreadView,
    machine: &M,
    later: &M,
    sender: Seq<char>,
    event: &M::Event,
)
    requires
        M::carried_thread(event) is Some,
        delivered(thread, machine, sender, event) is Ok,
    ensures
        delivered(delivered(thread, machine, sender, event)->Ok_0, later, sender, event) == Err::<
            ThreadView,
            VcxErrorKind,
        >(VcxErrorKind::InvalidThread),
{
    replay_is_rejected(thread, M::carried_thread(event)->0, sender);
}

} // verus!
