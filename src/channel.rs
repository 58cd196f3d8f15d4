use vstd::prelude::*;

verus! {

/// Largest number of bytes that one payload holds.
pub const PAYLOAD_CAPACITY: usize = 64;

/// What a subscriber gets from `next_message`.
pub enum WaitResult {
    /// The subscriber fell behind; this many messages were skipped.
    Lagged(u64),
    /// The next payload in publish order.
    Message(Vec<u8>),
}

/// Mathematical counterpart of `WaitResult`.
pub enum Delivery {
    Lagged(nat),
    Message(Seq<u8>),
}

#[derive(Debug, Clone, Copy, PartialEq, Eq, Structural)]
pub enum PubSubError {
    /// Every subscriber slot of the channel is taken.
    MaximumSubscribersReached,
}

/// Abstract state of a channel.
pub struct ChannelModel {
    /// Retained payloads, oldest first.
    pub queue: Seq<Seq<u8>>,
    /// Number of payloads ever enqueued: the index of the next one.
    pub next_index: int,
    /// For each subscriber, the index of the next payload it will read.
    pub cursors: Seq<int>,
    pub capacity: nat,
    pub max_subscribers: nat,
}

impl ChannelModel {
    /// Index of the oldest retained payload.
    pub open spec fn oldest(self) -> int {
        self.next_index - self.queue.len()
    }

    pub open spec fn is_full(self) -> bool {
        self.queue.len() >= self.capacity
    }

    pub open spec fn wf(self) -> bool {
        &&& self.capacity > 0
        &&& self.queue.len() <= self.capacity
        &&& self.queue.len() <= self.next_index
        &&& self.cursors.len() <= self.max_subscribers
        &&& forall|i: int| 0 <= i < self.cursors.len() ==> 0 <= #[trigger] self.cursors[i] <= self.next_index
        &&& forall|i: int| 0 <= i < self.queue.len() ==> (#[trigger] self.queue[i]).len() <= PAYLOAD_CAPACITY
    }

    pub open spec fn subscribe(self) -> ChannelModel {
        ChannelModel { cursors: self.cursors.push(self.next_index), ..self }
    }

    /// Enqueue a payload on a channel that is not full. With no subscriber
    /// nobody could ever read it, so it is discarded at once.
    pub open spec fn publish(self, p: Seq<u8>) -> ChannelModel {
        if self.cursors.len() == 0 {
            self
        } else {
            ChannelModel { queue: self.queue.push(p), next_index: self.next_index + 1, ..self }
        }
    }

    /// Enqueue a payload, evicting the oldest one when the channel is full.
    pub open spec fn publish_immediate(self, p: Seq<u8>) -> ChannelModel {
        if self.cursors.len() > 0 && self.is_full() {
            ChannelModel {
                queue: self.queue.drop_first().push(p),
                next_index: self.next_index + 1,
                ..self
            }
        } else {
            self.publish(p)
        }
    }

    /// Drop the oldest payload once every subscriber has read past it.
    pub open spec fn released(self) -> ChannelModel {
        if self.queue.len() > 0 && forall|j: int|
            0 <= j < self.cursors.len() ==> #[trigger] self.cursors[j] > self.oldest() {
            ChannelModel { queue: self.queue.drop_first(), ..self }
        } else {
            self
        }
    }

    /// What subscriber `id` receives now; `None` while nothing new is there.
    pub open spec fn next_result(self, id: int) -> Option<Delivery> {
        let c = self.cursors[id];
        if c < self.oldest() {
            Some(Delivery::Lagged((self.oldest() - c) as nat))
        } else if c < self.next_index {
            Some(Delivery::Message(self.queue[c - self.oldest()]))
        } else {
            None
        }
    }

    /// The channel after subscriber `id` asked for its next message.
    pub open spec fn after_next(self, id: int) -> ChannelModel {
        let c = self.cursors[id];
        if c < self.oldest() {
            ChannelModel { cursors: self.cursors.update(id, self.oldest()), ..self }
        } else if c < self.next_index {
            ChannelModel { cursors: self.cursors.update(id, c + 1), ..self }.released()
        } else {
            self
        }
    }
}

pub open spec fn delivery_of(r: WaitResult) -> Delivery {
    match r {
        WaitResult::Lagged(k) => Delivery::Lagged(k as nat),
        WaitResult::Message(p) => Delivery::Message(p@),
    }
}

pub open spec fn option_delivery_of(r: Option<WaitResult>) -> Option<Delivery> {
    match r {
        Some(w) => Some(delivery_of(w)),
        None => None,
    }
}

/// A fixed-capacity broadcast channel with one read cursor per subscriber.
pub struct PubSubChannel {
    queue: Vec<Vec<u8>>,
    next_index: u64,
    cursors: Vec<u64>,
    capacity: usize,
    max_subscribers: usize,
}

impl View for PubSubChannel {
    type V = ChannelModel;

    closed spec fn view(&self) -> ChannelModel {
        ChannelModel {
            queue: self.queue@.map_values(|p: Vec<u8>| p@),
            next_index: self.next_index as int,
            cursors: self.cursors@.map_values(|c: u64| c as int),
            capacity: self.capacity as nat,
            max_subscribers: self.max_subscribers as nat,
        }
    }
}

fn copy_payload(src: &Vec<u8>) -> (r: Vec<u8>)
    ensures
        r@ == src@,
{
    let mut r: Vec<u8> = Vec::new();
    let mut i: usize = 0;
    while i < src.len()
        invariant
            i <= src.len(),
            r@ == src@.take(i as int),
        decreases src.len() - i,
    {
        r.push(src[i]);
        i = i + 1;
        assert(r@ =~= src@.take(i as int));
    }
    assert(r@ =~= src@);
    r
}

impl PubSubChannel {
    pub closed spec fn wf(&self) -> bool {
        self@.wf()
    }

    /// A fresh channel holding up to `capacity` payloads for up to
    /// `max_subscribers` subscribers.
    pub fn new(capacity: usize, max_subscribers: usize) -> (r: PubSubChannel)
        requires
            capacity > 0,
        ensures
            r.wf(),
            r@.queue.len() == 0,
            r@.next_index == 0,
            r@.cursors.len() == 0,
            r@.capacity == capacity,
            r@.max_subscribers == max_subscribers,
    {
        let r = PubSubChannel {
            queue: Vec::new(),
            next_index: 0,
            cursors: Vec::new(),
            capacity,
            max_subscribers,
        };
        assert(r@.queue =~= Seq::<Seq<u8>>::empty());
        assert(r@.cursors =~= Seq::<int>::empty());
        r
    }

    pub fn capacity(&self) -> (r: usize)
        ensures
            r == self@.capacity,
    {
        self.capacity
    }

    /// Number of payloads retained.
    pub fn len(&self) -> (r: usize)
        ensures
            r == self@.queue.len(),
    {
        self.queue.len()
    }

    pub fn subscriber_count(&self) -> (r: usize)
        ensures
            r == self@.cursors.len(),
    {
        self.cursors.len()
    }

    pub fn is_full(&self) -> (r: bool)
        ensures
            r == self@.is_full(),
    {
        self.queue.len() >= self.capacity
    }

    /// Register a new subscriber; it sees only payloads published from now on.
    pub fn subscribe(&mut self) -> (r: Result<usize, PubSubError>)
        requires
            old(self).wf(),
        ensures
            final(self).wf(),
            old(self)@.cursors.len() >= old(self)@.max_subscribers ==> r == Err::<usize, PubSubError>(
                PubSubError::MaximumSubscribersReached,
            ) && final(self)@ == old(self)@,
            old(self)@.cursors.len() < old(self)@.max_subscribers ==> r == Ok::<usize, PubSubError>(
                old(self)@.cursors.len() as usize,
            ) && final(self)@ == old(self)@.subscribe(),
    {
        if self.cursors.len() >= self.max_subscribers {
            return Err(PubSubError::MaximumSubscribersReached);
        }
        let id = self.cursors.len();
        let c = self.next_index;
        self.cursors.push(c);
        assert(self@.cursors =~= old(self)@.subscribe().cursors);
        Ok(id)
    }

    /// Enqueue `payload` unless the channel is full; a full channel hands the
    /// payload back so that the producer waits and tries again.
    pub fn try_publish(&mut self, payload: Vec<u8>) -> (r: Result<(), Vec<u8>>)
        requires
            old(self).wf(),
            payload@.len() <= PAYLOAD_CAPACITY,
            old(self)@.next_index < u64::MAX,
        ensures
            final(self).wf(),
            old(self)@.cursors.len() > 0 && old(self)@.is_full() ==> (match r {
                Err(p) => p@ == payload@,
                Ok(_) => false,
            }) && final(self)@ == old(self)@,
            !(old(self)@.cursors.len() > 0 && old(self)@.is_full()) ==> r is Ok && final(self)@
                == old(self)@.publish(payload@),
    {
        if self.cursors.len() == 0 {
            return Ok(());
        }
        if self.queue.len() >= self.capacity {
            return Err(payload);
        }
        self.queue.push(payload);
        self.next_index = self.next_index + 1;
        assert(self@.queue =~= old(self)@.publish(payload@).queue);
        Ok(())
    }

    /// Enqueue `payload`, evicting the oldest payload when the channel is full.
    pub fn publish_immediate(&mut self, payload: Vec<u8>)
        requires
            old(self).wf(),
            payload@.len() <= PAYLOAD_CAPACITY,
            old(self)@.next_index < u64::MAX,
        ensures
            final(self).wf(),
            final(self)@ == old(self)@.publish_immediate(payload@),
    {
        if self.cursors.len() == 0 {
            return;
        }
        if self.queue.len() >= self.capacity {
            self.queue.remove(0);
            assert(self@.queue =~= old(self)@.queue.drop_first());
        }
        self.queue.push(payload);
        self.next_index = self.next_index + 1;
        assert(self@.queue =~= old(self)@.publish_immediate(payload@).queue);
    }

    /// Deliver to subscriber `id` its next payload, or report how many it
    /// skipped; `None` while it has read everything (the caller then waits).
    pub fn next_message(&mut self, id: usize) -> (r: Option<WaitResult>)
        requires
            old(self).wf(),
            id < old(self)@.cursors.len(),
        ensures
            final(self).wf(),
            option_delivery_of(r) == old(self)@.next_result(id as int),
            final(self)@ == old(self)@.after_next(id as int),
    {
        let c = self.cursors[id];
        let oldest = self.next_index - self.queue.len() as u64;
        if c < oldest {
            self.cursors.set(id, oldest);
            assert(self@.cursors =~= old(self)@.after_next(id as int).cursors);
            return Some(WaitResult::Lagged(oldest - c));
        }
        if c >= self.next_index {
            return None;
        }
        let payload = copy_payload(&self.queue[(c - oldest) as usize]);
        self.cursors.set(id, c + 1);
        let ghost advanced = self@;
        assert(advanced.cursors =~= old(self)@.cursors.update(id as int, c + 1));
        let mut all_passed = true;
        let mut j: usize = 0;
        while j < self.cursors.len()
            invariant
                self@ == advanced,
                j <= self.cursors.len(),
                oldest == advanced.oldest(),
                all_passed == forall|k: int| 0 <= k < j ==> #[trigger] advanced.cursors[k] > oldest,
            decreases self.cursors.len() - j,
        {
            assert(advanced.cursors[j as int] == self.cursors@[j as int] as int);
            if self.cursors[j] <= oldest {
                all_passed = false;
            }
            j = j + 1;
        }
        if all_passed && self.queue.len() > 0 {
            self.queue.remove(0);
            assert(self@.queue =~= advanced.queue.drop_first());
        }
        assert(self@ == old(self)@.after_next(id as int));
        Some(WaitResult::Message(payload))
    }
}

/// The channel after `ps` were published in order, none of them on a full channel.
pub open spec fn publish_all(m: ChannelModel, ps: Seq<Seq<u8>>) -> ChannelModel
    decreases ps.len(),
{
    if ps.len() == 0 {
        m
    } else {
        publish_all(m, ps.drop_last()).publish(ps.last())
    }
}

/// The channel after `ps` were published in order, each evicting the oldest
/// payload when the channel was full.
pub open spec fn publish_immediate_all(m: ChannelModel, ps: Seq<Seq<u8>>) -> ChannelModel
    decreases ps.len(),
{
    if ps.len() == 0 {
        m
    } else {
        publish_immediate_all(m, ps.drop_last()).publish_immediate(ps.last())
    }
}

/// What subscriber `id` receives from `n` calls of `next_message` in a row.
pub open spec fn read_n(m: ChannelModel, id: int, n: nat) -> Seq<Option<Delivery>>
    decreases n,
{
    if n == 0 {
        Seq::empty()
    } else {
        seq![m.next_result(id)] + read_n(m.after_next(id), id, (n - 1) as nat)
    }
}

pub open spec fn as_messages(ps: Seq<Seq<u8>>) -> Seq<Option<Delivery>> {
    ps.map_values(|p: Seq<u8>| Some(Delivery::Message(p)))
}

/// A channel just made, with one subscriber and nothing published since.
pub open spec fn fresh_with_one_subscriber(m: ChannelModel) -> bool {
    &&& m.wf()
    &&& m.queue.len() == 0
    &&& m.cursors.len() == 1
    &&& m.cursors[0] == m.next_index
}

proof fn lemma_publish_all_fills(m: ChannelModel, ps: Seq<Seq<u8>>)
    requires
        fresh_with_one_subscriber(m),
        ps.len() <= m.capacity,
    ensures
        publish_all(m, ps) == (ChannelModel { queue: ps, next_index: m.next_index + ps.len(), ..m }),
    decreases ps.len(),
{
    if ps.len() > 0 {
        lemma_publish_all_fills(m, ps.drop_last());
        assert(ps.drop_last().push(ps.last()) =~= ps);
    } else {
        assert(m.queue =~= ps);
    }
}

proof fn lemma_sole_reader_drains(s: ChannelModel)
    requires
        s.cursors.len() == 1,
        s.cursors[0] == s.oldest(),
        s.queue.len() <= s.next_index,
    ensures
        read_n(s, 0, s.queue.len()) == as_messages(s.queue),
    decreases s.queue.len(),
{
    if s.queue.len() == 0 {
        assert(as_messages(s.queue) =~= Seq::<Option<Delivery>>::empty());
    } else {
        let a = ChannelModel { cursors: s.cursors.update(0, s.cursors[0] + 1), ..s };
        assert(forall|j: int| 0 <= j < a.cursors.len() ==> #[trigger] a.cursors[j] > a.oldest());
        let t = s.after_next(0);
        assert(t == a.released());
        assert(t.queue == s.queue.drop_first());
        lemma_sole_reader_drains(t);
        assert(s.queue.len() - 1 == t.queue.len());
        assert(read_n(s, 0, s.queue.len()) == seq![s.next_result(0)] + read_n(t, 0, t.queue.len()));
        assert(as_messages(s.queue) =~= seq![Some(Delivery::Message(s.queue[0]))] + as_messages(t.queue));
    }
}

/// Up to `capacity` payloads published on a fresh channel reach its one
/// subscriber exactly, in publish order, with no lag.
pub proof fn lemma_in_order_without_lag(m: ChannelModel, ps: Seq<Seq<u8>>)
    requires
        fresh_with_one_subscriber(m),
        ps.len() <= m.capacity,
    ensures
        read_n(publish_all(m, ps), 0, ps.len()) == as_messages(ps),
{
    lemma_publish_all_fills(m, ps);
    lemma_sole_reader_drains(publish_all(m, ps));
}

proof fn lemma_publish_immediate_all_keeps_newest(m: ChannelModel, ps: Seq<Seq<u8>>)
    requires
        fresh_with_one_subscriber(m),
    ensures
        ({
            let s = publish_immediate_all(m, ps);
            let from = if ps.len() > m.capacity { ps.len() - m.capacity } else { 0 };
            &&& s.queue == ps.subrange(from, ps.len() as int)
            &&& s.next_index == m.next_index + ps.len()
            &&& s.cursors == m.cursors
            &&& s.capacity == m.capacity
        }),
    decreases ps.len(),
{
    if ps.len() == 0 {
        assert(m.queue =~= ps.subrange(0, 0));
    } else {
        let prev = ps.drop_last();
        lemma_publish_immediate_all_keeps_newest(m, prev);
        let s0 = publish_immediate_all(m, prev);
        let from0 = if prev.len() > m.capacity { prev.len() - m.capacity } else { 0 };
        let from = if ps.len() > m.capacity { ps.len() - m.capacity } else { 0 };
        if s0.is_full() {
            assert(s0.queue.drop_first().push(ps.last()) =~= ps.subrange(from, ps.len() as int));
        } else {
            assert(s0.queue.push(ps.last()) =~= ps.subrange(from, ps.len() as int));
        }
    }
}

/// A lone subscriber that missed `ps`, more payloads than the channel holds,
/// first learns how many were dropped, then resumes at the oldest one kept.
pub proof fn lemma_lag_then_resume(m: ChannelModel, ps: Seq<Seq<u8>>)
    requires
        fresh_with_one_subscriber(m),
        ps.len() > m.capacity,
    ensures
        read_n(publish_immediate_all(m, ps), 0, 2) == seq![
            Some(Delivery::Lagged((ps.len() - m.capacity) as nat)),
            Some(Delivery::Message(ps[ps.len() - m.capacity])),
        ],
{
    lemma_publish_immediate_all_keeps_newest(m, ps);
    let s = publish_immediate_all(m, ps);
    let t = s.after_next(0);
    assert(s.oldest() == m.next_index + ps.len() - m.capacity);
    assert(t.cursors[0] == t.oldest());
    assert(read_n(t, 0, 1) == seq![t.next_result(0)] + read_n(t.after_next(0), 0, 0));
    assert(read_n(s, 0, 2) =~= seq![s.next_result(0)] + read_n(t, 0, 1));
}

} // verus!
