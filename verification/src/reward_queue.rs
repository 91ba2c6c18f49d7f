//! The ring buffer of reward events.
//!
//! Cursors count events ever appended: `head` is the cursor the next event
//! gets, and the events at cursors `tail..head` are still held. When the
//! ring is full, appending drops the oldest held event.
use vstd::prelude::*;
use crate::borsh::{enc_u32, get_u32, lemma_enc_lens, lemma_lies_at_split, lemma_read_u32, lies_at, put_u32, read_u32};
use crate::codec::{
    enc_reward_event, get_reward_event, lemma_read_reward_event, put_reward_event, read_reward_event,
    spec_read_account, spec_read_unchecked, starts_with8,
};
use crate::error::{Error, FrameworkError};
use crate::state::RewardEvent;

verus! {

/// Positions `head` and `tail` over a ring of `events`.
#[derive(Debug)]
pub struct RewardQueue {
    head: u32,
    tail: u32,
    events: Vec<RewardEvent>,
}

/// `a % m` and `b % m` agree, for `b <= a <= b + m`, exactly at the ends.
proof fn lemma_mod_window(a: int, b: int, m: int)
    requires
        m > 0,
        0 <= b <= a <= b + m,
    ensures
        (a % m == b % m) <==> (a == b || a == b + m),
{
    if a == b + m {
        vstd::arithmetic::div_mod::lemma_mod_add_multiples_vanish(b, m);
    } else if a != b {
        vstd::arithmetic::div_mod::lemma_fundamental_div_mod(a, m);
        vstd::arithmetic::div_mod::lemma_fundamental_div_mod(b, m);
        vstd::arithmetic::div_mod::lemma_mod_pos_bound(a, m);
        vstd::arithmetic::div_mod::lemma_mod_pos_bound(b, m);
        if a % m == b % m {
            assert(a - b == m * (a / m) - m * (b / m));
            vstd::arithmetic::mul::lemma_mul_is_distributive_sub(m, a / m, b / m);
            assert(a - b == m * (a / m - b / m));
            let q = a / m - b / m;
            assert(false) by (nonlinear_arith)
                requires
                    m > 0,
                    0 < a - b < m,
                    a - b == m * q,
            ;
        }
    }
}

impl RewardQueue {
    /// The cursor the next appended event gets.
    pub closed spec fn spec_head(&self) -> u32 {
        self.head
    }

    /// The cursor of the oldest event still held.
    pub closed spec fn spec_tail(&self) -> u32 {
        self.tail
    }

    /// The ring itself.
    pub closed spec fn spec_events(&self) -> Seq<RewardEvent> {
        self.events@
    }

    /// The number of slots of the ring.
    pub open spec fn spec_capacity(&self) -> nat {
        self.spec_events().len()
    }

    /// The slot of the ring that a cursor falls on.
    pub open spec fn spec_index_of(&self, counter: u32) -> int {
        counter as int % self.spec_capacity() as int
    }

    /// The event in the slot that a cursor falls on.
    pub open spec fn spec_get(&self, cursor: u32) -> RewardEvent {
        self.spec_events()[self.spec_index_of(cursor)]
    }

    /// The held window `tail..head` fits in the ring with one slot to spare.
    pub open spec fn wf(&self) -> bool {
        &&& self.spec_tail() <= self.spec_head()
        &&& (self.spec_head() == self.spec_tail() || self.spec_head() - self.spec_tail()
            < self.spec_capacity())
    }

    /// `next` is `prev` after appending `event`: the event is written in the
    /// head's slot, the head moves on, and the tail moves on when the ring was
    /// full.
    pub open spec fn appended(prev: RewardQueue, next: RewardQueue, event: RewardEvent) -> bool {
        &&& next.spec_events() == prev.spec_events().update(
            prev.spec_index_of(prev.spec_head()),
            event,
        )
        &&& next.spec_head() == prev.spec_head() + 1
        &&& next.spec_tail() == (if (prev.spec_head() + 1) % (prev.spec_capacity() as int)
            == (prev.spec_tail() as int) % (prev.spec_capacity() as int) {
            prev.spec_tail() + 1
        } else {
            prev.spec_tail() as int
        })
    }

    /// A queue with the given positions and ring.
    pub fn new(head: u32, tail: u32, events: Vec<RewardEvent>) -> (q: RewardQueue)
        ensures
            q.spec_head() == head,
            q.spec_tail() == tail,
            q.spec_events() == events@,
    {
        RewardQueue { head, tail, events }
    }

    /// The ring, in slot order.
    pub fn events(&self) -> (e: &Vec<RewardEvent>)
        ensures
            e@ == self.spec_events(),
    {
        &self.events
    }

    /// Sets the number of slots of the ring to `len`, keeping the slots that
    /// remain and filling new ones with the empty event.
    pub fn resize(&mut self, len: usize)
        ensures
            final(self).spec_head() == old(self).spec_head(),
            final(self).spec_tail() == old(self).spec_tail(),
            final(self).spec_capacity() == len,
            forall|i: int|
                0 <= i < len && i < old(self).spec_capacity() ==> #[trigger] final(self).spec_events()[i]
                    == old(self).spec_events()[i],
            forall|i: int|
                old(self).spec_capacity() <= i < len ==> #[trigger] final(self).spec_events()[i]
                    == RewardEvent::spec_default(),
    {
        if len <= self.events.len() {
            self.events.truncate(len);
        } else {
            let ghost old_events = self.events@;
            let ghost h = self.head;
            let ghost t = self.tail;
            while self.events.len() < len
                invariant
                    self.head == h,
                    self.tail == t,
                    old_events.len() <= self.events.len() <= len,
                    forall|i: int| 0 <= i < old_events.len() ==> #[trigger] self.events@[i] == old_events[i],
                    forall|i: int|
                        old_events.len() <= i < self.events.len() ==> #[trigger] self.events@[i]
                            == RewardEvent::spec_default(),
                decreases len - self.events.len(),
            {
                self.events.push(RewardEvent::default());
            }
        }
    }

    /// Writes `event` at the head, dropping the oldest event when the ring is
    /// full, and returns the cursor of the new event.
    pub fn append(&mut self, event: RewardEvent) -> (r: Result<u32, Error>)
        requires
            old(self).spec_capacity() > 0,
            old(self).spec_head() < u32::MAX,
            (old(self).spec_head() + 1) % (old(self).spec_capacity() as int) == (old(
                self,
            ).spec_tail() as int) % (old(self).spec_capacity() as int) ==> old(self).spec_tail()
                < u32::MAX,
        ensures
            r == Ok::<u32, Error>(old(self).spec_head()),
            RewardQueue::appended(*old(self), *final(self), event),
    {
        let cursor = self.head;
        let h_idx = self.index_of(self.head);
        self.events.set(h_idx, event);
        let is_full = self.index_of(self.head + 1) == self.index_of(self.tail);
        if is_full {
            self.tail += 1;
        }
        self.head += 1;
        Ok(cursor)
    }

    /// The slot of the ring that `counter` falls on.
    pub fn index_of(&self, counter: u32) -> (i: usize)
        requires
            self.spec_capacity() > 0,
        ensures
            i == self.spec_index_of(counter),
    {
        counter as usize % self.capacity()
    }

    /// The number of slots of the ring.
    pub fn capacity(&self) -> (c: usize)
        ensures
            c == self.spec_capacity(),
    {
        self.events.len()
    }

    /// The event in the slot that `cursor` falls on.
    pub fn get(&self, cursor: u32) -> (e: &RewardEvent)
        requires
            self.spec_capacity() > 0,
        ensures
            *e == self.spec_get(cursor),
    {
        &self.events[cursor as usize % self.capacity()]
    }

    /// The cursor the next appended event gets.
    pub fn head(&self) -> (h: u32)
        ensures
            h == self.spec_head(),
    {
        self.head
    }

    /// The cursor of the oldest event still held.
    pub fn tail(&self) -> (t: u32)
        ensures
            t == self.spec_tail(),
    {
        self.tail
    }
}

/// The layout of a sequence of events, one after the other.
pub open spec fn enc_events(s: Seq<RewardEvent>) -> Seq<u8>
    decreases s.len(),
{
    if s.len() == 0 {
        Seq::empty()
    } else {
        enc_events(s.drop_last()) + enc_reward_event(s.last())
    }
}

/// Reads `n` events at position `p`.
pub open spec fn read_events(d: Seq<u8>, p: int, n: nat) -> Option<(Seq<RewardEvent>, int)>
    decreases n,
{
    if n == 0 {
        Some((Seq::empty(), p))
    } else {
        match read_events(d, p, (n - 1) as nat) {
            None => None,
            Some((s, q)) => match read_reward_event(d, q) {
                None => None,
                Some((e, r)) => Some((s.push(e), r)),
            },
        }
    }
}

/// The layout of a reward queue: head, tail, the number of slots, then the
/// slots.
pub open spec fn enc_reward_queue(q: RewardQueue) -> Seq<u8> {
    enc_u32(q.spec_head()) + enc_u32(q.spec_tail()) + enc_u32(q.spec_capacity() as u32) + enc_events(q.spec_events())
}

/// Reads the head, tail and ring of a reward queue at position `p`.
pub open spec fn read_reward_queue(d: Seq<u8>, p: int) -> Option<((u32, u32, Seq<RewardEvent>), int)> {
    match read_u32(d, p) {
        None => None,
        Some((head, p1)) => match read_u32(d, p1) {
            None => None,
            Some((tail, p2)) => match read_u32(d, p2) {
                None => None,
                Some((n, p3)) => match read_events(d, p3, n as nat) {
                    None => None,
                    Some((events, p4)) => Some(((head, tail, events), p4)),
                },
            },
        },
    }
}

/// Reading events back gives what was written.
pub proof fn lemma_read_events(d: Seq<u8>, p: int, s: Seq<RewardEvent>)
    requires
        lies_at(d, p, enc_events(s)),
    ensures
        read_events(d, p, s.len()) == Some((s, p + enc_events(s).len())),
    decreases s.len(),
{
    if s.len() == 0 {
        assert(read_events(d, p, 0) == Some((Seq::<RewardEvent>::empty(), p)));
        assert(s =~= Seq::<RewardEvent>::empty());
    } else {
        let init = s.drop_last();
        lemma_lies_at_split(d, p, enc_events(init), enc_reward_event(s.last()));
        lemma_read_events(d, p, init);
        lemma_read_reward_event(d, p + enc_events(init).len(), s.last());
        assert(init.push(s.last()) =~= s);
    }
}

/// Reads `n` events at position `p`.
pub fn get_events(d: &[u8], p: usize, n: u32) -> (r: Option<(Vec<RewardEvent>, usize)>)
    ensures
        (match r {
            Some((x, q)) => Some((x@, q as int)),
            None => None,
        }) == read_events(d@, p as int, n as nat),
{
    let mut events: Vec<RewardEvent> = Vec::new();
    let mut pos = p;
    let mut i: u32 = 0;
    while i < n
        invariant
            i <= n,
            read_events(d@, p as int, i as nat) == Some((events@, pos as int)),
        decreases n - i,
    {
        match get_reward_event(d, pos) {
            Some((e, q)) => {
                events.push(e);
                pos = q;
                i = i + 1;
            },
            None => {
                proof { lemma_read_events_none(d@, p as int, (i + 1) as nat, n as nat); }
                return None;
            },
        }
    }
    Some((events, pos))
}

/// Once a read of `m` events fails, reading more fails too.
proof fn lemma_read_events_none(d: Seq<u8>, p: int, m: nat, n: nat)
    requires
        m <= n,
        read_events(d, p, m) is None,
    ensures
        read_events(d, p, n) is None,
    decreases n - m,
{
    if m < n {
        lemma_read_events_none(d, p, m + 1, n);
    }
}

/// Appends the bytes of a sequence of events.
pub fn put_events(out: &mut Vec<u8>, events: &Vec<RewardEvent>)
    ensures
        final(out)@ == old(out)@ + enc_events(events@),
{
    let ghost start = out@;
    let mut i: usize = 0;
    while i < events.len()
        invariant
            i <= events.len(),
            out@ == start + enc_events(events@.subrange(0, i as int)),
        decreases events.len() - i,
    {
        put_reward_event(out, &events[i]);
        assert(events@.subrange(0, i + 1).drop_last() =~= events@.subrange(0, i as int));
        i = i + 1;
    }
    assert(events@.subrange(0, i as int) =~= events@);
}

impl RewardQueue {
    /// The head, tail and ring of the queue.
    pub open spec fn parts(&self) -> (u32, u32, Seq<RewardEvent>) {
        (self.spec_head(), self.spec_tail(), self.spec_events())
    }

    /// Reads a reward queue at position `p`.
    pub fn decode(d: &[u8], p: usize) -> (r: Option<(RewardQueue, usize)>)
        ensures
            (match r {
                Some((x, q)) => Some((x.parts(), q as int)),
                None => None,
            }) == read_reward_queue(d@, p as int),
    {
        let (head, p1) = match get_u32(d, p) {
            Some(v) => v,
            None => { return None; },
        };
        let (tail, p2) = match get_u32(d, p1) {
            Some(v) => v,
            None => { return None; },
        };
        let (n, p3) = match get_u32(d, p2) {
            Some(v) => v,
            None => { return None; },
        };
        let (events, p4) = match get_events(d, p3, n) {
            Some(v) => v,
            None => { return None; },
        };
        Some((RewardQueue { head, tail, events }, p4))
    }

    /// Appends the bytes of the queue; its ring holds at most `u32::MAX`
    /// slots.
    pub fn encode(&self, out: &mut Vec<u8>)
        requires
            self.spec_capacity() <= u32::MAX,
        ensures
            final(out)@ == old(out)@ + enc_reward_queue(*self),
    {
        let ghost start = out@;
        put_u32(out, self.head);
        put_u32(out, self.tail);
        put_u32(out, self.events.len() as u32);
        put_events(out, &self.events);
        assert(out@ =~= start + enc_reward_queue(*self));
    }
}

/// Reading a reward queue back gives what was written.
pub proof fn lemma_read_reward_queue(d: Seq<u8>, p: int, q: RewardQueue)
    requires
        lies_at(d, p, enc_reward_queue(q)),
        q.spec_capacity() <= u32::MAX,
    ensures
        read_reward_queue(d, p) == Some((q.parts(), p + enc_reward_queue(q).len())),
{
    lemma_enc_lens();
    let e1 = enc_u32(q.head);
    let e2 = enc_u32(q.tail);
    let e3 = enc_u32(q.events@.len() as u32);
    let e4 = enc_events(q.events@);
    lemma_lies_at_split(d, p, e1 + e2 + e3, e4);
    lemma_lies_at_split(d, p, e1 + e2, e3);
    lemma_lies_at_split(d, p, e1, e2);
    lemma_read_u32(d, p, q.head);
    lemma_read_u32(d, p + 4, q.tail);
    lemma_read_u32(d, p + 8, q.events@.len() as u32);
    lemma_read_events(d, p + 12, q.events@);
}

/// Appending keeps the held window inside the ring: `tail <= head` and at
/// most `capacity - 1` events are held.
pub proof fn lemma_append_keeps_window(prev: RewardQueue, next: RewardQueue, event: RewardEvent)
    requires
        prev.wf(),
        prev.spec_capacity() > 0,
        prev.spec_head() < u32::MAX,
        RewardQueue::appended(prev, next, event),
    ensures
        next.wf(),
        next.spec_capacity() == prev.spec_capacity(),
        next.spec_head() - next.spec_tail() == if prev.spec_head() - prev.spec_tail() + 1
            < prev.spec_capacity() {
            prev.spec_head() - prev.spec_tail() + 1
        } else {
            prev.spec_capacity() - 1
        },
{
    let m = prev.spec_capacity() as int;
    lemma_mod_window(prev.spec_head() + 1, prev.spec_tail() as int, m);
}

/// Reading back an append: the cursor that append returns reads the
/// appended event, and every other cursor still held reads what it read
/// before.
pub proof fn lemma_get_after_append(prev: RewardQueue, next: RewardQueue, event: RewardEvent, cursor: u32)
    requires
        prev.wf(),
        prev.spec_capacity() > 0,
        prev.spec_head() < u32::MAX,
        RewardQueue::appended(prev, next, event),
        next.spec_tail() <= cursor < next.spec_head(),
    ensures
        cursor == prev.spec_head() ==> next.spec_get(cursor) == event,
        cursor != prev.spec_head() ==> next.spec_get(cursor) == prev.spec_get(cursor),
{
    let m = prev.spec_capacity() as int;
    lemma_append_keeps_window(prev, next, event);
    vstd::arithmetic::div_mod::lemma_mod_pos_bound(prev.spec_head() as int, m);
    vstd::arithmetic::div_mod::lemma_mod_pos_bound(cursor as int, m);
    if cursor != prev.spec_head() {
        lemma_mod_window(prev.spec_head() as int, cursor as int, m);
    }
}

/// The head, tail and ring read from account data, or the error that
/// stopped the read.
pub open spec fn parts_of(r: Result<RewardQueue, Error>) -> Result<(u32, u32, Seq<RewardEvent>), Error> {
    match r {
        Ok(q) => Ok(q.parts()),
        Err(e) => Err(e),
    }
}

impl RewardQueue {
    /// The eight bytes that mark reward queue account data.
    pub open spec fn spec_discriminator() -> Seq<u8> {
        seq![162u8, 152u8, 119u8, 24u8, 192u8, 185u8, 100u8, 167u8]
    }

    /// The eight bytes that mark reward queue account data.
    pub fn discriminator() -> (disc: [u8; 8])
        ensures
            disc@ == Self::spec_discriminator(),
    {
        let disc: [u8; 8] = [162u8, 152u8, 119u8, 24u8, 192u8, 185u8, 100u8, 167u8];
        assert(disc@ =~= Self::spec_discriminator());
        disc
    }

    /// The outcome of reading reward queue account data.
    pub open spec fn spec_try_deserialize(d: Seq<u8>) -> Result<(u32, u32, Seq<RewardEvent>), Error> {
        spec_read_account(d, Self::spec_discriminator(), read_reward_queue(d, 8))
    }

    /// Reads reward queue account data: its discriminator, then its fields.
    pub fn try_deserialize(d: &[u8]) -> (r: Result<RewardQueue, Error>)
        ensures
            parts_of(r) == Self::spec_try_deserialize(d@),
    {
        if d.len() < 8 {
            return Err(Error::ProgramError(FrameworkError::AccountDiscriminatorNotFound));
        }
        if !starts_with8(d, &Self::discriminator()) {
            return Err(Error::ProgramError(FrameworkError::AccountDiscriminatorMismatch));
        }
        Self::try_deserialize_unchecked(d)
    }

    /// Reads the fields of reward queue account data, without looking at its
    /// discriminator.
    pub fn try_deserialize_unchecked(d: &[u8]) -> (r: Result<RewardQueue, Error>)
        requires
            d@.len() >= 8,
        ensures
            parts_of(r) == spec_read_unchecked(read_reward_queue(d@, 8)),
    {
        match Self::decode(d, 8) {
            Some((x, _)) => Ok(x),
            None => Err(Error::ProgramError(FrameworkError::AccountDidNotDeserialize)),
        }
    }

    /// The account data of the queue: discriminator, then fields; its ring
    /// holds at most `u32::MAX` slots.
    pub fn try_serialize(&self) -> (v: Vec<u8>)
        requires
            self.spec_capacity() <= u32::MAX,
        ensures
            v@ == Self::spec_discriminator() + enc_reward_queue(*self),
    {
        let mut v: Vec<u8> = Vec::new();
        let disc = Self::discriminator();
        let mut i: usize = 0;
        while i < 8
            invariant
                i <= 8,
                disc@ == Self::spec_discriminator(),
                v@ == disc@.subrange(0, i as int),
            decreases 8 - i,
        {
            v.push(disc[i]);
            assert(v@ =~= disc@.subrange(0, i + 1));
            i = i + 1;
        }
        assert(v@ =~= Self::spec_discriminator());
        self.encode(&mut v);
        v
    }
}

/// Reward queue account data written for a queue reads back as that queue,
/// whatever follows it.
pub proof fn lemma_reward_queue_data_round_trip(q: RewardQueue, rest: Seq<u8>)
    requires
        q.spec_capacity() <= u32::MAX,
    ensures
        RewardQueue::spec_try_deserialize(RewardQueue::spec_discriminator() + enc_reward_queue(q) + rest)
            == Ok::<(u32, u32, Seq<RewardEvent>), Error>(q.parts()),
{
    let d = RewardQueue::spec_discriminator() + enc_reward_queue(q) + rest;
    assert(d.subrange(0, 8) =~= RewardQueue::spec_discriminator());
    assert(d.subrange(8, (8 + enc_reward_queue(q).len()) as int) =~= enc_reward_queue(q));
    lemma_read_reward_queue(d, 8, q);
}

} // verus!
