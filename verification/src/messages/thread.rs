//! Thread correlation: binds the messages of one conversation together and
//! rejects messages that are out of thread, repeated or out of order.

use vstd::prelude::*;
use vstd::string::StringExecFns;

use crate::error::{VcxError, VcxErrorKind, VcxResult};
use crate::utils::codec::{
    as_opt_text, as_u32, member_doc, opt_text_doc, read_opt_text, read_u32, u32_doc,
    values_are_read_back, write_opt_text, write_u32,
};
use crate::utils::json::{JsonDoc, JsonValue};
use crate::utils::text::{clone_opt_text, opt_text, text_eq};

verus! {

/// The last counter seen from one party.
#[derive(Clone, Debug, PartialEq)]
pub struct ReceivedOrder {
    pub party: String,
    pub order: u32,
}

/// The correlation context of one conversation. Two threads are equal when
/// they have the same identifiers and counters; the order in which the
/// counters of the parties are listed does not matter.
///
/// The counters are kept as a list of records and stand for a map from party
/// to counter, see [`records_map`]: of a hash map with texts as keys the
/// verifier knows too little to prove what a lookup finds after an insert,
/// while every step on the list is proved here.
#[derive(Clone, Debug)]
pub struct Thread {
    pub thid: Option<String>,
    pub pthid: Option<String>,
    pub sender_order: u32,
    pub received_orders: Vec<ReceivedOrder>,
}

/// What a thread is, mathematically: its identifiers, the sender's counter and
/// the last counter seen from each party.
pub struct ThreadView {
    pub thid: Option<Seq<char>>,
    pub pthid: Option<Seq<char>>,
    pub sender_order: u32,
    pub received_orders: Map<Seq<char>, u32>,
}

/// The counter recorded for `party` in a list of records: the first record of
/// that party counts.
pub open spec fn recorded(records: Seq<ReceivedOrder>, party: Seq<char>) -> Option<u32>
    decreases records.len(),
{
    if records.len() == 0 {
        None
    } else if records[0].party@ == party {
        Some(records[0].order)
    } else {
        recorded(records.drop_first(), party)
    }
}

/// The records as a map from party to counter.
pub open spec fn records_map(records: Seq<ReceivedOrder>) -> Map<Seq<char>, u32> {
    Map::new(
        |party: Seq<char>| recorded(records, party) is Some,
        |party: Seq<char>| recorded(records, party)->0,
    )
}

/// The outcome of the correlation check on a conversation `thread` for a
/// message of `sender` that carries the thread `incoming`: the thread after
/// the message was accepted, or `None` where it is rejected.
///
/// A message is accepted when the conversation has an identifier, the message
/// names the same one, and its counter is greater than the last one seen from
/// that sender. Accepting it records its counter for that sender.
pub open spec fn accepted(thread: ThreadView, incoming: ThreadView, sender: Seq<char>) -> Option<
    ThreadView,
> {
    if thread.thid is Some && incoming.thid == thread.thid && (
        thread.received_orders.contains_key(sender) ==> incoming.sender_order
            > thread.received_orders[sender]) {
        Some(
            ThreadView {
                received_orders: thread.received_orders.insert(sender, incoming.sender_order),
                ..thread
            },
        )
    } else {
        None
    }
}

/// The thread after a sequence of deliveries, each checked in turn; a rejected
/// delivery changes nothing.
pub open spec fn after_deliveries(thread: ThreadView, deliveries: Seq<(ThreadView, Seq<char>)>)
    -> ThreadView
    decreases deliveries.len(),
{
    if deliveries.len() == 0 {
        thread
    } else {
        let before = after_deliveries(thread, deliveries.drop_last());
        match accepted(before, deliveries.last().0, deliveries.last().1) {
            Some(after) => after,
            None => before,
        }
    }
}

impl View for Thread {
    type V = ThreadView;

    open spec fn view(&self) -> ThreadView {
        ThreadView {
            thid: opt_text(self.thid),
            pthid: opt_text(self.pthid),
            sender_order: self.sender_order,
            received_orders: records_map(self.received_orders@),
        }
    }
}

impl DeepView for Thread {
    type V = ThreadView;

    open spec fn deep_view(&self) -> ThreadView {
        self@
    }
}

proof fn lemma_recorded_index(records: Seq<ReceivedOrder>, party: Seq<char>) -> (at: int)
    requires
        recorded(records, party) is Some,
    ensures
        0 <= at < records.len(),
        records[at].party@ == party,
    decreases records.len(),
{
    if records[0].party@ == party {
        0
    } else {
        lemma_recorded_index(records.drop_first(), party) + 1
    }
}

proof fn lemma_recorded_update(records: Seq<ReceivedOrder>, at: int, order: u32, party: Seq<char>)
    requires
        0 <= at < records.len(),
        forall|j: int| 0 <= j < at ==> records[j].party@ != records[at].party@,
    ensures
        recorded(
            records.update(at, ReceivedOrder { party: records[at].party, order }),
            party,
        ) == if party == records[at].party@ {
            Some(order)
        } else {
            recorded(records, party)
        },
    decreases records.len(),
{
    let updated = records.update(at, ReceivedOrder { party: records[at].party, order });
    if at == 0 {
        assert(updated.drop_first() =~= records.drop_first());
    } else {
        assert(records[0].party@ != records[at].party@);
        lemma_recorded_update(records.drop_first(), at - 1, order, party);
        assert(updated.drop_first() =~= records.drop_first().update(
            at - 1,
            ReceivedOrder { party: records[at].party, order },
        ));
    }
}

proof fn lemma_recorded_push(records: Seq<ReceivedOrder>, record: ReceivedOrder, party: Seq<char>)
    ensures
        recorded(records.push(record), party) == if recorded(records, party) is Some {
            recorded(records, party)
        } else if party == record.party@ {
            Some(record.order)
        } else {
            None
        },
    decreases records.len(),
{
    if records.len() == 0 {
        assert(records.push(record).drop_first() =~= records);
    } else {
        lemma_recorded_push(records.drop_first(), record, party);
        assert(records.push(record).drop_first() =~= records.drop_first().push(record));
    }
}

proof fn lemma_recorded_same(a: Seq<ReceivedOrder>, b: Seq<ReceivedOrder>, party: Seq<char>)
    requires
        a.len() == b.len(),
        forall|k: int| 0 <= k < a.len() ==> a[k].party@ == b[k].party@ && a[k].order == b[k].order,
    ensures
        recorded(a, party) == recorded(b, party),
    decreases a.len(),
{
    if a.len() > 0 {
        lemma_recorded_same(a.drop_first(), b.drop_first(), party);
    }
}

proof fn lemma_recorded_absent(records: Seq<ReceivedOrder>, party: Seq<char>)
    requires
        forall|j: int| 0 <= j < records.len() ==> records[j].party@ != party,
    ensures
        recorded(records, party) is None,
    decreases records.len(),
{
    if records.len() > 0 {
        lemma_recorded_absent(records.drop_first(), party);
    }
}

proof fn lemma_recorded_found(records: Seq<ReceivedOrder>, at: int)
    requires
        0 <= at < records.len(),
        forall|j: int| 0 <= j < at ==> records[j].party@ != records[at].party@,
    ensures
        recorded(records, records[at].party@) == Some(records[at].order),
    decreases records.len(),
{
    if at > 0 {
        lemma_recorded_found(records.drop_first(), at - 1);
    }
}

/// Whether two optional texts hold the same characters.
fn same_opt_text(a: &Option<String>, b: &Option<String>) -> (same: bool)
    ensures
        same == (opt_text(*a) == opt_text(*b)),
{
    match (a, b) {
        (Some(x), Some(y)) => text_eq(x.as_str(), y.as_str()),
        (None, None) => true,
        _ => false,
    }
}

/// Whether every party of which `a` has a counter has the same counter in
/// `b`.
fn counters_within(a: &Thread, b: &Thread) -> (within: bool)
    ensures
        within == (forall|party: Seq<char>| #[trigger]
            a@.received_orders.contains_key(party) ==> b@.received_orders.contains_key(party)
                && b@.received_orders[party] == a@.received_orders[party]),
{
    let mut i: usize = 0;
    while i < a.received_orders.len()
        invariant
            i <= a.received_orders.len(),
            forall|k: int|
                0 <= k < i ==> b@.received_orders.contains_key(
                    (#[trigger] a.received_orders@[k]).party@,
                ) && b@.received_orders[a.received_orders@[k].party@]
                    == a@.received_orders[a.received_orders@[k].party@],
        decreases a.received_orders.len() - i,
    {
        let party = a.received_orders[i].party.as_str();
        let own = a.received_order(party);
        let other = b.received_order(party);
        proof {
            if !a@.received_orders.contains_key(party@) {
                lemma_recorded_absent_means(a.received_orders@, party@);
            }
        }
        let same = match (own, other) {
            (Some(x), Some(y)) => x == y,
            _ => false,
        };
        if !same {
            return false;
        }
        i += 1;
    }
    proof {
        assert forall|party: Seq<char>| #[trigger]
            a@.received_orders.contains_key(party) implies b@.received_orders.contains_key(party)
            && b@.received_orders[party] == a@.received_orders[party] by {
            let k = lemma_recorded_index(a.received_orders@, party);
            assert(a.received_orders@[k].party@ == party);
        }
    }
    true
}

proof fn lemma_recorded_absent_means(records: Seq<ReceivedOrder>, party: Seq<char>)
    requires
        recorded(records, party) is None,
    ensures
        forall|j: int| 0 <= j < records.len() ==> records[j].party@ != party,
    decreases records.len(),
{
    if records.len() > 0 {
        lemma_recorded_absent_means(records.drop_first(), party);
        assert forall|j: int| 0 <= j < records.len() implies records[j].party@ != party by {
            if j > 0 {
                assert(records.drop_first()[j - 1].party@ != party);
            }
        }
    }
}

impl PartialEq for Thread {
    fn eq(&self, other: &Thread) -> (same: bool) {
        let same = same_opt_text(&self.thid, &other.thid) && same_opt_text(
            &self.pthid,
            &other.pthid,
        ) && self.sender_order == other.sender_order && counters_within(self, other)
            && counters_within(other, self);
        proof {
            if same {
                assert(self@.received_orders =~= other@.received_orders);
            }
        }
        same
    }
}

impl vstd::std_specs::cmp::PartialEqSpecImpl for Thread {
    open spec fn obeys_eq_spec() -> bool {
        true
    }

    open spec fn eq_spec(&self, other: &Thread) -> bool {
        self@ == other@
    }
}

impl Thread {
    /// The thread without identifier, at counter zero, that has seen nothing.
    pub open spec fn new_view() -> ThreadView {
        ThreadView { thid: None, pthid: None, sender_order: 0, received_orders: Map::empty() }
    }

    /// A thread without identifier, at counter zero, that has seen nothing.
    pub fn new() -> (thread: Thread)
        ensures
            thread@ == Thread::new_view(),
    {
        let thread = Thread {
            thid: None,
            pthid: None,
            sender_order: 0,
            received_orders: Vec::new(),
        };
        assert(thread@.received_orders =~= Map::empty());
        thread
    }

    /// The same thread under the identifier `thid`.
    pub fn set_thid(self, thid: String) -> (thread: Thread)
        ensures
            thread@ == (ThreadView { thid: Some(thid@), ..self@ }),
    {
        let mut thread = self;
        thread.thid = Some(thid);
        thread
    }

    /// The identifier of the thread, or the empty text where it has none.
    pub fn get_thid(&self) -> (thid: String)
        ensures
            thid@ == self@.thid.unwrap_or(Seq::empty()),
    {
        match &self.thid {
            Some(thid) => thid.clone(),
            None => String::new(),
        }
    }

    /// A copy of the thread.
    pub fn duplicate(&self) -> (copy: Thread)
        ensures
            copy@ == self@,
    {
        let mut records: Vec<ReceivedOrder> = Vec::new();
        let mut i: usize = 0;
        while i < self.received_orders.len()
            invariant
                i <= self.received_orders.len(),
                records.len() == i,
                forall|k: int|
                    0 <= k < i ==> records[k].party@ == self.received_orders[k].party@
                        && records[k].order == self.received_orders[k].order,
            decreases self.received_orders.len() - i,
        {
            records.push(
                ReceivedOrder {
                    party: self.received_orders[i].party.clone(),
                    order: self.received_orders[i].order,
                },
            );
            i += 1;
        }
        proof {
            assert forall|party: Seq<char>|
                recorded(records@, party) == recorded(self.received_orders@, party) by {
                lemma_recorded_same(records@, self.received_orders@, party);
            }
            assert(records_map(records@) =~= records_map(self.received_orders@));
        }
        Thread {
            thid: clone_opt_text(&self.thid),
            pthid: clone_opt_text(&self.pthid),
            sender_order: self.sender_order,
            received_orders: records,
        }
    }

    /// Whether this thread answers the message `id`: its identifier, or the
    /// empty text where it has none, equals `id`.
    pub fn is_reply(&self, id: &str) -> (reply: bool)
        ensures
            reply == (self@.thid.unwrap_or(Seq::empty()) == id@),
    {
        match &self.thid {
            Some(thid) => text_eq(thid.as_str(), id),
            None => {
                let empty = id.is_empty();
                assert(empty == (Seq::<char>::empty() =~= id@));
                empty
            },
        }
    }

    /// Where the first record of `party` stands, if there is one.
    fn position(&self, party: &str) -> (at: Option<usize>)
        ensures
            match at {
                Some(i) => i < self.received_orders.len() && self.received_orders[i as int].party@
                    == party@ && forall|j: int|
                    0 <= j < i ==> self.received_orders[j].party@ != party@,
                None => forall|j: int|
                    0 <= j < self.received_orders.len() ==> self.received_orders[j].party@
                        != party@,
            },
    {
        let mut i: usize = 0;
        while i < self.received_orders.len()
            invariant
                i <= self.received_orders.len(),
                forall|j: int| 0 <= j < i ==> self.received_orders[j].party@ != party@,
            decreases self.received_orders.len() - i,
        {
            if text_eq(self.received_orders[i].party.as_str(), party) {
                return Some(i);
            }
            i += 1;
        }
        None
    }

    /// The last counter seen from `party`, if any was.
    pub fn received_order(&self, party: &str) -> (order: Option<u32>)
        ensures
            order == if self@.received_orders.contains_key(party@) {
                Some(self@.received_orders[party@])
            } else {
                None
            },
    {
        match self.position(party) {
            Some(i) => {
                proof {
                    lemma_recorded_found(self.received_orders@, i as int);
                }
                Some(self.received_orders[i].order)
            },
            None => {
                proof {
                    lemma_recorded_absent(self.received_orders@, party@);
                }
                None
            },
        }
    }

    /// Records `order` as the last counter seen from `party`.
    fn record(&mut self, party: &str, order: u32)
        ensures
            final(self)@ == (ThreadView {
                received_orders: old(self)@.received_orders.insert(party@, order),
                ..old(self)@
            }),
    {
        let ghost before = self.received_orders@;
        match self.position(party) {
            Some(i) => {
                let name = self.received_orders[i].party.clone();
                self.received_orders.set(i, ReceivedOrder { party: name, order });
                proof {
                    assert forall|p: Seq<char>|
                        recorded(self.received_orders@, p) == (if p == party@ {
                            Some(order)
                        } else {
                            recorded(before, p)
                        }) by {
                        lemma_recorded_update(before, i as int, order, p);
                    }
                }
            },
            None => {
                let record = ReceivedOrder { party: party.to_owned(), order };
                self.received_orders.push(record);
                proof {
                    assert forall|p: Seq<char>|
                        recorded(self.received_orders@, p) == (if p == party@ {
                            Some(order)
                        } else {
                            recorded(before, p)
                        }) by {
                        lemma_recorded_push(before, record, p);
                        lemma_recorded_absent(before, party@);
                    }
                }
            },
        }
        assert(final(self)@.received_orders =~= old(self)@.received_orders.insert(party@, order));
    }

    /// Counts one more message from `did`: a party seen before moves to its
    /// next counter, a new party starts at zero.
    pub fn increment_receiver(&mut self, did: &str)
        requires
            old(self)@.received_orders.contains_key(did@) ==> old(self)@.received_orders[did@]
                < u32::MAX,
        ensures
            final(self)@ == (ThreadView {
                received_orders: old(self)@.received_orders.insert(
                    did@,
                    if old(self)@.received_orders.contains_key(did@) {
                        (old(self)@.received_orders[did@] + 1) as u32
                    } else {
                        0u32
                    },
                ),
                ..old(self)@
            }),
    {
        match self.received_order(did) {
            Some(order) => self.record(did, order + 1),
            None => self.record(did, 0),
        }
    }

    /// Moves the sender's own counter to the next message.
    pub fn increment_sender(&mut self)
        requires
            old(self)@.sender_order < u32::MAX,
        ensures
            final(self)@ == (ThreadView {
                sender_order: (old(self)@.sender_order + 1) as u32,
                ..old(self)@
            }),
    {
        self.sender_order = self.sender_order + 1;
    }

    /// Whether the correlation check would accept a message of `sender` that
    /// carries the thread `incoming`. Nothing is recorded.
    pub fn accepts(&self, incoming: &Thread, sender: &str) -> (accepts: bool)
        ensures
            accepts == (accepted(self@, incoming@, sender@) is Some),
    {
        let same_thread = match (&self.thid, &incoming.thid) {
            (Some(expected), Some(named)) => text_eq(expected.as_str(), named.as_str()),
            _ => false,
        };
        same_thread && match self.received_order(sender) {
            Some(last) => incoming.sender_order > last,
            None => true,
        }
    }

    /// The correlation check for a message of `sender` that carries the thread
    /// `incoming`.
    ///
    /// The message is rejected, and this thread left as it is, when the
    /// conversation has no identifier yet, when the message names another
    /// one, or when its counter is not greater than the last one seen from
    /// `sender`. Otherwise its counter is recorded for `sender` and nothing
    /// else changes.
    pub fn accept(&mut self, incoming: &Thread, sender: &str) -> (outcome: VcxResult<()>)
        ensures
            match accepted(old(self)@, incoming@, sender@) {
                Some(after) => outcome is Ok && final(self)@ == after,
                None => outcome is Err && outcome->Err_0.kind() == VcxErrorKind::InvalidThread
                    && *final(self) == *old(self),
            },
    {
        let same_thread = match (&self.thid, &incoming.thid) {
            (Some(expected), Some(named)) => text_eq(expected.as_str(), named.as_str()),
            _ => false,
        };
        if !same_thread {
            return Err(
                VcxError::from_msg(
                    VcxErrorKind::InvalidThread,
                    "The message does not belong to this thread",
                ),
            );
        }
        let fresh = match self.received_order(sender) {
            Some(last) => incoming.sender_order > last,
            None => true,
        };
        if !fresh {
            return Err(
                VcxError::from_msg(
                    VcxErrorKind::InvalidThread,
                    "The message repeats or precedes one that was received before",
                ),
            );
        }
        self.record(sender, incoming.sender_order);
        Ok(())
    }
}

/// An accepted message moves the counter of its sender strictly forward (or
/// starts it), to the counter that the message carries, and leaves the
/// counters of all other parties and the rest of the thread as they were.
pub proof fn accepted_advances_sender_only(
    thread: ThreadView,
    incoming: ThreadView,
    sender: Seq<char>,
)
    requires
        accepted(thread, incoming, sender) is Some,
    ensures
        ({
            let after = accepted(thread, incoming, sender)->0;
            &&& after.received_orders.contains_key(sender)
            &&& after.received_orders[sender] == incoming.sender_order
            &&& thread.received_orders.contains_key(sender) ==> after.received_orders[sender]
                > thread.received_orders[sender]
            &&& forall|other: Seq<char>|
                other != sender ==> (after.received_orders.contains_key(other)
                    <==> thread.received_orders.contains_key(other))
            &&& forall|other: Seq<char>|
                other != sender && thread.received_orders.contains_key(other)
                    ==> after.received_orders[other] == thread.received_orders[other]
            &&& after.thid == thread.thid
            &&& after.pthid == thread.pthid
            &&& after.sender_order == thread.sender_order
        }),
{
}

/// A message that was accepted is rejected when it is delivered again, and
/// the rejected delivery changes nothing.
pub proof fn replay_is_rejected(thread: ThreadView, incoming: ThreadView, sender: Seq<char>)
    requires
        accepted(thread, incoming, sender) is Some,
    ensures
        accepted(accepted(thread, incoming, sender)->0, incoming, sender) is None,
        after_deliveries(thread, seq![(incoming, sender), (incoming, sender)]) == accepted(
            thread,
            incoming,
            sender,
        )->0,
{
    let twice = seq![(incoming, sender), (incoming, sender)];
    let once = seq![(incoming, sender)];
    assert(twice.drop_last() =~= once);
    assert(once.drop_last() =~= Seq::<(ThreadView, Seq<char>)>::empty());
    assert(after_deliveries(thread, once.drop_last()) == thread);
    assert(after_deliveries(thread, once) == accepted(thread, incoming, sender)->0);
}

/// Over any sequence of deliveries the conversation keeps its identifier, no
/// party's counter is ever forgotten or moved back, and a message that was
/// accepted at some point of the sequence is rejected at every later point.
pub proof fn deliveries_are_monotonic(
    thread: ThreadView,
    deliveries: Seq<(ThreadView, Seq<char>)>,
    party: Seq<char>,
)
    ensures
        after_deliveries(thread, deliveries).thid == thread.thid,
        thread.received_orders.contains_key(party) ==> after_deliveries(
            thread,
            deliveries,
        ).received_orders.contains_key(party) && after_deliveries(
            thread,
            deliveries,
        ).received_orders[party] >= thread.received_orders[party],
    decreases deliveries.len(),
{
    if deliveries.len() > 0 {
        deliveries_are_monotonic(thread, deliveries.drop_last(), party);
    }
}

/// Once a message of `sender` was accepted, the same message is rejected after
/// any further deliveries, whatever they were.
pub proof fn accepted_message_stays_rejected(
    thread: ThreadView,
    incoming: ThreadView,
    sender: Seq<char>,
    later: Seq<(ThreadView, Seq<char>)>,
)
    requires
        accepted(thread, incoming, sender) is Some,
    ensures
        accepted(
            after_deliveries(accepted(thread, incoming, sender)->0, later),
            incoming,
            sender,
        ) is None,
{
    deliveries_are_monotonic(accepted(thread, incoming, sender)->0, later, sender);
}

/// The document of the counters: an object that holds, under the name of
/// each party, its counter.
pub open spec fn orders_doc(orders: Map<Seq<char>, u32>) -> JsonDoc {
    JsonDoc::Object(
        Map::new(|party: Seq<char>| orders.contains_key(party), |party: Seq<char>| u32_doc(orders[party])),
    )
}

/// The counters that a document holds: it must be an object of numbers.
pub open spec fn as_orders(document: JsonDoc) -> Option<Map<Seq<char>, u32>> {
    match document {
        JsonDoc::Object(members) => if forall|party: Seq<char>| #[trigger]
            members.contains_key(party) ==> as_u32(members[party]) is Some {
            Some(
                Map::new(
                    |party: Seq<char>| members.contains_key(party),
                    |party: Seq<char>| as_u32(members[party])->0,
                ),
            )
        } else {
            None
        },
        _ => None,
    }
}

impl ThreadView {
    /// The document in which the thread is persisted.
    pub open spec fn to_doc(self) -> JsonDoc {
        JsonDoc::Object(
            Map::<Seq<char>, JsonDoc>::empty().insert("thid"@, opt_text_doc(self.thid)).insert(
                "pthid"@,
                opt_text_doc(self.pthid),
            ).insert("sender_order"@, u32_doc(self.sender_order)).insert(
                "received_orders"@,
                orders_doc(self.received_orders),
            ),
        )
    }

    /// The thread that a document persists: an object whose members hold it.
    pub open spec fn from_doc(document: JsonDoc) -> Option<ThreadView> {
        if document is Object && as_opt_text(document.member("thid"@)) is Some && as_opt_text(
            document.member("pthid"@),
        ) is Some && as_u32(document.member("sender_order"@)) is Some && as_orders(
            document.member("received_orders"@),
        ) is Some {
            Some(
                ThreadView {
                    thid: as_opt_text(document.member("thid"@))->0,
                    pthid: as_opt_text(document.member("pthid"@))->0,
                    sender_order: as_u32(document.member("sender_order"@))->0,
                    received_orders: as_orders(document.member("received_orders"@))->0,
                },
            )
        } else {
            None
        }
    }

    /// What was persisted is what is read back.
    pub proof fn read_back(self)
        ensures
            ThreadView::from_doc(self.to_doc()) == Some(self),
            self.to_doc() is Object,
    {
        reveal_strlit("thid");
        reveal_strlit("pthid");
        reveal_strlit("sender_order");
        reveal_strlit("received_orders");
        assert("thid"@.len() == 4);
        assert("pthid"@.len() == 5);
        assert("sender_order"@.len() == 12);
        assert("received_orders"@.len() == 15);
        values_are_read_back();
        assert(as_orders(orders_doc(self.received_orders)) is Some);
        assert(as_orders(orders_doc(self.received_orders))->0 =~= self.received_orders);
    }

    /// The document of an optional thread: its document, or null.
    pub open spec fn opt_to_doc(value: Option<ThreadView>) -> JsonDoc {
        match value {
            Some(v) => v.to_doc(),
            None => JsonDoc::Null,
        }
    }

    /// The optional thread that a document persists.
    pub open spec fn opt_from_doc(document: JsonDoc) -> Option<Option<ThreadView>> {
        match document {
            JsonDoc::Null => Some(None),
            _ => match ThreadView::from_doc(document) {
                Some(v) => Some(Some(v)),
                None => None,
            },
        }
    }

    /// What was persisted is what is read back.
    pub proof fn opt_read_back(value: Option<ThreadView>)
        ensures
            ThreadView::opt_from_doc(ThreadView::opt_to_doc(value)) == Some(value),
    {
        if value is Some {
            value->0.read_back();
        }
    }
}

/// Writes the counters as a document.
fn write_orders(records: &Vec<ReceivedOrder>) -> (document: JsonValue)
    ensures
        document@ == orders_doc(records_map(records@)),
{
    let mut document = JsonValue::object();
    let mut i: usize = records.len();
    assert(records@.skip(i as int) =~= Seq::<ReceivedOrder>::empty());
    assert(document@->Object_0 =~= orders_doc(records_map(records@.skip(i as int)))->Object_0);
    while i > 0
        invariant
            i <= records.len(),
            document@ == orders_doc(records_map(records@.skip(i as int))),
        decreases i,
    {
        i -= 1;
        let ghost before = records@.skip(i + 1);
        document.insert(records[i].party.clone(), write_u32(records[i].order));
        proof {
            let now = records@.skip(i as int);
            assert(now.drop_first() =~= before);
            assert(now[0] == records@[i as int]);
            assert(document@->Object_0 =~= orders_doc(records_map(now))->Object_0);
        }
    }
    assert(records@.skip(0) =~= records@);
    document
}

/// Reads the counters from a member that may be missing.
fn read_orders(member: Option<&JsonValue>) -> (records: Option<Vec<ReceivedOrder>>)
    ensures
        match as_orders(member_doc(member)) {
            Some(orders) => records is Some && records_map(records->0@) == orders,
            None => records is None,
        },
{
    let document = match member {
        Some(document) => document,
        None => {
            return None;
        },
    };
    if !document.is_object() {
        return None;
    }
    let members = document.members();
    let mut records: Vec<ReceivedOrder> = Vec::new();
    let mut i: usize = 0;
    while i < members.len()
        invariant
            i <= members.len(),
            document@ is Object,
            member_doc(member) == document@,
            records.len() == i,
            forall|k: int|
                0 <= k < members@.len() ==> (#[trigger] document@->Object_0.contains_key(
                    members@[k].0@,
                )) && document@->Object_0[members@[k].0@] == members@[k].1@,
            forall|a: int, b: int|
                0 <= a < b < members@.len() ==> members@[a].0@ != members@[b].0@,
            forall|k: int|
                0 <= k < i ==> (#[trigger] records@[k]).party@ == members@[k].0@ && as_u32(
                    members@[k].1@,
                ) == Some(records@[k].order),
        decreases members.len() - i,
    {
        match read_u32(Some(members[i].1)) {
            Some(order) => {
                records.push(ReceivedOrder { party: members[i].0.clone(), order });
            },
            None => {
                assert(document@->Object_0.contains_key(members@[i as int].0@));
                assert(as_u32(document@->Object_0[members@[i as int].0@]) is None);
                return None;
            },
        }
        i += 1;
    }
    proof {
        let held = document@->Object_0;
        assert forall|party: Seq<char>| #[trigger] held.contains_key(party) implies as_u32(
            held[party],
        ) is Some by {
            let k = choose|k: int| 0 <= k < members@.len() && members@[k].0@ == party;
            assert(held.contains_key(members@[k].0@));
            assert(records@[k].party@ == party);
        }
        let orders = as_orders(document@)->0;
        assert forall|party: Seq<char>| #[trigger]
            records_map(records@).contains_key(party) == orders.contains_key(party) && (
            orders.contains_key(party) ==> records_map(records@)[party] == orders[party]) by {
            if held.contains_key(party) {
                let k = choose|k: int| 0 <= k < members@.len() && members@[k].0@ == party;
                assert(held.contains_key(members@[k].0@));
                assert(records@[k].party@ == party);
                assert forall|j: int| 0 <= j < k implies records@[j].party@
                    != records@[k].party@ by {
                    assert(records@[j].party@ == members@[j].0@);
                }
                lemma_recorded_found(records@, k);
            } else {
                assert forall|j: int| 0 <= j < records@.len() implies records@[j].party@
                    != party by {
                    assert(records@[j].party@ == members@[j].0@);
                    assert(held.contains_key(members@[j].0@));
                }
                lemma_recorded_absent(records@, party);
            }
        }
        assert(records_map(records@) =~= orders);
    }
    Some(records)
}

impl Thread {
    /// Writes the thread as a document.
    pub fn to_document(&self) -> (document: JsonValue)
        ensures
            document@ == self@.to_doc(),
    {
        let mut document = JsonValue::object();
        document.insert(String::from_str("thid"), write_opt_text(&self.thid));
        document.insert(String::from_str("pthid"), write_opt_text(&self.pthid));
        document.insert(String::from_str("sender_order"), write_u32(self.sender_order));
        document.insert(String::from_str("received_orders"), write_orders(&self.received_orders));
        document
    }

    /// Reads the thread from a document.
    pub fn from_document(document: &JsonValue) -> (read: Option<Thread>)
        ensures
            match ThreadView::from_doc(document@) {
                Some(view) => read is Some && read->0@ == view,
                None => read is None,
            },
    {
        if !document.is_object() {
            return None;
        }
        let thid = match read_opt_text(document.get("thid")) {
            Some(value) => value,
            None => {
                return None;
            },
        };
        let pthid = match read_opt_text(document.get("pthid")) {
            Some(value) => value,
            None => {
                return None;
            },
        };
        let sender_order = match read_u32(document.get("sender_order")) {
            Some(value) => value,
            None => {
                return None;
            },
        };
        let received_orders = match read_orders(document.get("received_orders")) {
            Some(value) => value,
            None => {
                return None;
            },
        };
        Some(Thread { thid, pthid, sender_order, received_orders })
    }

    /// Reads the thread from a member that may be missing.
    pub fn read(member: Option<&JsonValue>) -> (read: Option<Thread>)
        ensures
            match ThreadView::from_doc(member_doc(member)) {
                Some(view) => read is Some && read->0@ == view,
                None => read is None,
            },
    {
        match member {
            Some(document) => Thread::from_document(document),
            None => None,
        }
    }

    /// Writes an optional thread as a document.
    pub fn write_opt(value: &Option<Thread>) -> (document: JsonValue)
        ensures
            document@ == ThreadView::opt_to_doc(value.deep_view()),
    {
        match value {
            Some(v) => v.to_document(),
            None => JsonValue::Null,
        }
    }

    /// Reads an optional thread from a member that may be missing.
    pub fn read_opt(member: Option<&JsonValue>) -> (read: Option<Option<Thread>>)
        ensures
            match ThreadView::opt_from_doc(member_doc(member)) {
                Some(view) => read is Some && read->0.deep_view() == view,
                None => read is None,
            },
    {
        match member {
            None => Some(None),
            Some(JsonValue::Null) => Some(None),
            Some(document) => match Thread::from_document(document) {
                Some(v) => Some(Some(v)),
                None => None,
            },
        }
    }
}

} // verus!
