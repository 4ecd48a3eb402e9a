//! The control messages that the parts of the loop send each other, and the
//! bus that carries them.

use crate::watch::{Change, Watched};
use vstd::prelude::*;

verus! {

/// A control message.
#[derive(Clone, Debug, PartialEq, Eq)]
pub enum Msg {
    /// Everything is to stop.
    ShutDown,
    /// Browsers are to reload, for the reason given.
    Reload(String),
    /// Source code changed.
    SrcChanged,
    /// A style sheet changed.
    StyleChanged,
    /// Something under the assets root changed.
    AssetsChanged(Watched),
}

/// The view of a `Msg`.
pub enum Signal {
    ShutDown,
    Reload(Seq<char>),
    SrcChanged,
    StyleChanged,
    AssetsChanged(Change),
}

impl View for Msg {
    type V = Signal;

    open spec fn view(&self) -> Signal {
        match self {
            Msg::ShutDown => Signal::ShutDown,
            Msg::Reload(reason) => Signal::Reload(reason@),
            Msg::SrcChanged => Signal::SrcChanged,
            Msg::StyleChanged => Signal::StyleChanged,
            Msg::AssetsChanged(watched) => Signal::AssetsChanged(watched@),
        }
    }
}

impl Msg {
    /// A copy of the message.
    pub fn duplicate(&self) -> (r: Msg)
        ensures
            r@ == self@,
    {
        match self {
            Msg::ShutDown => Msg::ShutDown,
            Msg::Reload(reason) => Msg::Reload(reason.clone()),
            Msg::SrcChanged => Msg::SrcChanged,
            Msg::StyleChanged => Msg::StyleChanged,
            Msg::AssetsChanged(watched) => Msg::AssetsChanged(watched.duplicate()),
        }
    }

    /// Whether this is the message that stops everything.
    pub fn is_shutdown(&self) -> (r: bool)
        ensures
            r == (self@ is ShutDown),
    {
        match self {
            Msg::ShutDown => true,
            _ => false,
        }
    }
}

/// The messages waiting for one subscriber, oldest first, until the
/// subscriber leaves.
struct Mailbox {
    open: bool,
    waiting: Vec<Msg>,
}

/// A bus on which every message published goes to every subscriber.
///
/// Each subscriber has a mailbox of bounded size. Publishing never waits:
/// where a mailbox is full the message is dropped for that subscriber.
pub struct EventBus {
    boxes: Vec<Mailbox>,
    shutdown: bool,
    capacity: usize,
}

/// The view of an `EventBus`.
pub struct BusState {
    /// For each subscriber, in the order of subscription: the messages that
    /// wait for it, oldest first, or `None` once it has left.
    pub boxes: Seq<Option<Seq<Signal>>>,
    /// Whether the shutdown message has ever been published.
    pub shutdown: bool,
    /// How many messages may wait for one subscriber.
    pub capacity: nat,
}

/// The signals of a list of messages.
pub open spec fn signals(msgs: Seq<Msg>) -> Seq<Signal> {
    msgs.map_values(|m: Msg| m@)
}

impl BusState {
    /// Subscriber `id` is on the bus.
    pub open spec fn listening(self, id: int) -> bool {
        0 <= id < self.boxes.len() && self.boxes[id] is Some
    }

    /// What waits for one subscriber after `signal` is published: the
    /// signal is appended where there is room.
    pub open spec fn delivered(self, waiting: Option<Seq<Signal>>, signal: Signal) -> Option<
        Seq<Signal>,
    > {
        match waiting {
            Some(queue) => if queue.len() < self.capacity {
                Some(queue.push(signal))
            } else {
                Some(queue)
            },
            None => None,
        }
    }

    /// The bus after `signal` is published: it is delivered to every
    /// subscriber, and publishing the shutdown signal raises the flag.
    pub open spec fn published(self, signal: Signal) -> BusState {
        BusState {
            boxes: Seq::new(self.boxes.len(), |i: int| self.delivered(self.boxes[i], signal)),
            shutdown: self.shutdown || signal is ShutDown,
            capacity: self.capacity,
        }
    }

    /// The bus after one more subscriber has joined, with nothing waiting
    /// for it.
    pub open spec fn subscribed(self) -> BusState {
        BusState { boxes: self.boxes.push(Some(Seq::empty())), ..self }
    }

    /// The bus after subscriber `id` has left.
    pub open spec fn unsubscribed(self, id: int) -> BusState {
        if self.listening(id) {
            BusState { boxes: self.boxes.update(id, None), ..self }
        } else {
            self
        }
    }

    /// No more than the capacity waits for any subscriber.
    pub open spec fn bounded(self) -> bool {
        forall|id: int| self.listening(id) ==> (#[trigger] self.boxes[id])->0.len() <= self.capacity
    }

    /// The oldest signal that waits for subscriber `id`.
    pub open spec fn head(self, id: int) -> Option<Signal> {
        if self.listening(id) && self.boxes[id]->0.len() > 0 {
            Some(self.boxes[id]->0.first())
        } else {
            None
        }
    }

    /// The bus after subscriber `id` has taken its oldest signal.
    pub open spec fn received(self, id: int) -> BusState {
        if self.head(id) is Some {
            BusState { boxes: self.boxes.update(id, Some(self.boxes[id]->0.drop_first())), ..self }
        } else {
            self
        }
    }
}

impl Mailbox {
    spec fn view(&self) -> Option<Seq<Signal>> {
        if self.open {
            Some(signals(self.waiting@))
        } else {
            None
        }
    }
}

impl View for EventBus {
    type V = BusState;

    closed spec fn view(&self) -> BusState {
        BusState {
            boxes: Seq::new(self.boxes@.len(), |i: int| self.boxes@[i].view()),
            shutdown: self.shutdown,
            capacity: self.capacity as nat,
        }
    }
}

impl EventBus {
    /// A bus without subscribers on which as many as `capacity` messages
    /// may wait for each subscriber.
    pub fn new(capacity: usize) -> (r: EventBus)
        ensures
            r@ == (BusState { boxes: Seq::empty(), shutdown: false, capacity: capacity as nat }),
            r@.bounded(),
    {
        let r = EventBus { boxes: Vec::new(), shutdown: false, capacity };
        proof {
            assert(r@.boxes =~= Seq::empty());
        }
        r
    }

    /// Whether the shutdown message has ever been published.
    pub fn is_shutdown(&self) -> (r: bool)
        ensures
            r == self@.shutdown,
    {
        self.shutdown
    }

    /// Adds a subscriber and returns its number. Only messages published
    /// from now on will wait for it.
    pub fn subscribe(&mut self) -> (id: usize)
        ensures
            final(self)@ == old(self)@.subscribed(),
            id == old(self)@.boxes.len(),
            final(self)@.boxes[id as int] == Some(Seq::<Signal>::empty()),
            old(self)@.bounded() ==> final(self)@.bounded(),
    {
        proof {
            if self@.bounded() {
                lemma_stays_bounded(self@, Signal::ShutDown, 0);
            }
        }
        let id = self.boxes.len();
        self.boxes.push(Mailbox { open: true, waiting: Vec::new() });
        proof {
            assert(signals(Seq::<Msg>::empty()) =~= Seq::<Signal>::empty());
            assert(self@.boxes =~= old(self)@.subscribed().boxes);
        }
        id
    }

    /// Removes subscriber `id` from the bus; what waited for it is dropped.
    pub fn unsubscribe(&mut self, id: usize)
        ensures
            final(self)@ == old(self)@.unsubscribed(id as int),
            old(self)@.bounded() ==> final(self)@.bounded(),
    {
        proof {
            if self@.bounded() {
                lemma_stays_bounded(self@, Signal::ShutDown, id as int);
            }
        }
        if id < self.boxes.len() {
            let was_open = self.boxes[id].open;
            if was_open {
                self.boxes[id] = Mailbox { open: false, waiting: Vec::new() };
                proof {
                    assert(self@.boxes =~= old(self)@.unsubscribed(id as int).boxes);
                }
            } else {
                proof {
                    assert(self@.boxes =~= old(self)@.boxes);
                }
            }
        }
    }

    /// Publishes a message to every subscriber, without waiting for any.
    /// The shutdown message raises the shutdown flag, which stays raised.
    pub fn publish(&mut self, msg: Msg)
        ensures
            final(self)@ == old(self)@.published(msg@),
            old(self)@.shutdown ==> final(self)@.shutdown,
            old(self)@.bounded() ==> final(self)@.bounded(),
    {
        proof {
            if self@.bounded() {
                lemma_stays_bounded(self@, msg@, 0);
            }
        }
        if msg.is_shutdown() {
            self.shutdown = true;
        }
        let ghost before = self.boxes@;
        let mut i: usize = 0;
        while i < self.boxes.len()
            invariant
                0 <= i <= self.boxes.len(),
                self.boxes@.len() == before.len(),
                self.capacity == old(self).capacity,
                self.shutdown == (old(self).shutdown || msg@ is ShutDown),
                before == old(self).boxes@,
                forall|j: int|
                    0 <= j < i ==> (#[trigger] self.boxes@[j]).view() == old(self)@.delivered(
                        before[j].view(),
                        msg@,
                    ),
                forall|j: int| i <= j < before.len() ==> self.boxes@[j] == before[j],
            decreases self.boxes.len() - i,
        {
            if self.boxes[i].open && self.boxes[i].waiting.len() < self.capacity {
                let ghost queue = self.boxes@[i as int].waiting@;
                let copy = msg.duplicate();
                self.boxes[i].waiting.push(copy);
                proof {
                    assert(signals(queue.push(copy)) =~= signals(queue).push(msg@));
                }
            }
            i += 1;
        }
        proof {
            assert(self@.boxes =~= old(self)@.published(msg@).boxes);
        }
    }

    /// Takes the oldest message that waits for subscriber `id`, if there is
    /// one.
    pub fn recv(&mut self, id: usize) -> (r: Option<Msg>)
        ensures
            final(self)@ == old(self)@.received(id as int),
            match r {
                Some(msg) => old(self)@.head(id as int) == Some(msg@),
                None => old(self)@.head(id as int) is None,
            },
            old(self)@.bounded() ==> final(self)@.bounded(),
    {
        proof {
            if self@.bounded() {
                lemma_stays_bounded(self@, Signal::ShutDown, id as int);
            }
        }
        if id < self.boxes.len() && self.boxes[id].open && self.boxes[id].waiting.len() > 0 {
            let ghost queue = self.boxes@[id as int].waiting@;
            let msg = self.boxes[id].waiting.remove(0);
            proof {
                assert(self.boxes@[id as int].waiting@ =~= queue.drop_first());
                assert(signals(queue.drop_first()) =~= signals(queue).drop_first());
                assert(self@.boxes =~= old(self)@.received(id as int).boxes);
            }
            Some(msg)
        } else {
            proof {
                assert(self@.boxes =~= old(self)@.boxes);
            }
            None
        }
    }
}

/// Whatever is done on the bus, no more than its capacity ever waits for a
/// subscriber.
pub proof fn lemma_stays_bounded(s: BusState, signal: Signal, id: int)
    requires
        s.bounded(),
    ensures
        s.published(signal).bounded(),
        s.subscribed().bounded(),
        s.unsubscribed(id).bounded(),
        s.received(id).bounded(),
{
    let joined = s.subscribed();
    assert forall|k: int| joined.listening(k) implies (#[trigger] joined.boxes[k])->0.len()
        <= joined.capacity by {
        if k < s.boxes.len() {
            assert(joined.boxes[k] == s.boxes[k]);
            assert(s.listening(k));
        }
    }
    let left = s.unsubscribed(id);
    assert forall|k: int| left.listening(k) implies (#[trigger] left.boxes[k])->0.len()
        <= left.capacity by {
        assert(left.boxes[k] == s.boxes[k]);
        assert(s.listening(k));
    }
    let taken = s.received(id);
    assert forall|k: int| taken.listening(k) implies (#[trigger] taken.boxes[k])->0.len()
        <= taken.capacity by {
        assert(s.listening(k));
        assert(s.boxes[k]->0.len() <= s.capacity);
    }
    let sent = s.published(signal);
    assert forall|k: int| sent.listening(k) implies (#[trigger] sent.boxes[k])->0.len()
        <= sent.capacity by {
        assert(s.listening(k));
        assert(s.boxes[k]->0.len() <= s.capacity);
    }
}

/// Once raised, the shutdown flag stays raised whatever is done on the bus.
pub proof fn lemma_flag_stays_raised(s: BusState, signal: Signal, id: int)
    requires
        s.shutdown,
    ensures
        s.published(signal).shutdown,
        s.subscribed().shutdown,
        s.unsubscribed(id).shutdown,
        s.received(id).shutdown,
{
}

/// Publishing the shutdown signal raises the flag, and only that does.
pub proof fn lemma_flag_raised_by_shutdown(s: BusState, signal: Signal)
    ensures
        s.published(signal).shutdown == (s.shutdown || signal is ShutDown),
{
}

/// A signal published goes to every subscriber that listens and has room:
/// it waits there behind all that waited before. Where there is no room,
/// what waits is left as it is; and nobody joins or leaves.
pub proof fn lemma_publish_reaches_all(s: BusState, signal: Signal, id: int)
    requires
        0 <= id < s.boxes.len(),
    ensures
        s.published(signal).boxes.len() == s.boxes.len(),
        s.published(signal).listening(id) == s.listening(id),
        s.listening(id) && s.boxes[id]->0.len() < s.capacity ==> s.published(signal).boxes[id]
            == Some(s.boxes[id]->0.push(signal)),
        s.listening(id) && s.boxes[id]->0.len() >= s.capacity ==> s.published(signal).boxes[id]
            == s.boxes[id],
{
}

/// Signals are received in the order in which they were published: of two
/// signals published one after the other to a subscriber with nothing
/// waiting and room for both, the first is received first and the second
/// next.
pub proof fn lemma_received_in_order(s: BusState, id: int, first: Signal, second: Signal)
    requires
        s.listening(id),
        s.boxes[id]->0.len() == 0,
        s.capacity >= 2,
    ensures
        s.published(first).published(second).head(id) == Some(first),
        s.published(first).published(second).received(id).head(id) == Some(second),
        s.published(first).published(second).received(id).received(id).head(id) is None,
{
    let one = s.published(first);
    assert(one.boxes[id] == Some(s.boxes[id]->0.push(first)));
    let two = one.published(second);
    assert(two.boxes[id] == Some(s.boxes[id]->0.push(first).push(second)));
    let queue = two.boxes[id]->0;
    assert(queue.first() == first);
    assert(queue.drop_first() =~= seq![second]);
    let rest = two.received(id);
    assert(rest.boxes[id] == Some(seq![second]));
    assert(seq![second].drop_first() =~= Seq::<Signal>::empty());
}

/// A subscriber sees only what is published after it joined.
pub proof fn lemma_subscriber_starts_empty(s: BusState, earlier: Signal, later: Signal)
    requires
        s.capacity >= 1,
    ensures
        s.published(earlier).subscribed().head(s.boxes.len() as int) is None,
        s.published(earlier).subscribed().published(later).head(s.boxes.len() as int) == Some(
            later,
        ),
{
    let id = s.boxes.len() as int;
    let joined = s.published(earlier).subscribed();
    assert(joined.boxes[id] == Some(Seq::<Signal>::empty()));
    let after = joined.published(later);
    assert(after.boxes[id] == Some(Seq::<Signal>::empty().push(later)));
}

} // verus!
