use vstd::prelude::*;

verus! {

/// What the PPU does when one of its scheduled events comes due.
#[derive(Clone, Copy, PartialEq, Eq, Structural, Debug)]
pub enum PpuEvent {
    /// Sprite 0 overlapped an opaque background pixel.
    Sprite0Hit,
    /// The pre-render line: scroll is reloaded and the first line drawn.
    VBlankEnd,
    /// The end of a visible scanline: the next line is drawn.
    ScanlineEnd,
}

#[derive(Clone, Copy, PartialEq, Eq, Structural, Debug)]
pub enum FutureEventType {
    PPU(PpuEvent),
    /// A cartridge's own event; MMC3 counts scanlines with it.
    Cartridge(u32),
}

/// An event due at a PPU dot counted from the start of the frame.
#[derive(Clone, Copy, PartialEq, Eq, Structural, Debug)]
pub struct FutureEvent {
    pub cycle: u64,
    pub tp: FutureEventType,
}

/// Events in order of their dot; among equal dots, in order of insertion.
pub open spec fn sorted_by_dot(s: Seq<FutureEvent>) -> bool {
    forall|i: int, j: int| 0 <= i < j < s.len() ==> s[i].cycle <= s[j].cycle
}

/// Where a new event goes: after every event due no later than it.
pub open spec fn insert_position(s: Seq<FutureEvent>, k: int, cycle: u64) -> bool {
    &&& 0 <= k <= s.len()
    &&& forall|i: int| 0 <= i < k ==> s[i].cycle <= cycle
    &&& forall|i: int| k <= i < s.len() ==> s[i].cycle > cycle
}

/// Where an event due at `cycle` goes in a sorted schedule: after every
/// event due no later.
pub open spec fn sorted_pos(s: Seq<FutureEvent>, cycle: u64) -> int
    decreases s.len(),
{
    if s.len() == 0 {
        0
    } else if s.last().cycle <= cycle {
        s.len() as int
    } else {
        sorted_pos(s.drop_last(), cycle)
    }
}

/// A sorted schedule with one more event.
pub open spec fn insert_sorted(s: Seq<FutureEvent>, e: FutureEvent) -> Seq<FutureEvent> {
    s.insert(sorted_pos(s, e.cycle), e)
}

/// A sorted schedule with each of `es` added, in order.
pub open spec fn insert_all(s: Seq<FutureEvent>, es: Seq<FutureEvent>) -> Seq<FutureEvent>
    decreases es.len(),
{
    if es.len() == 0 {
        s
    } else {
        insert_sorted(insert_all(s, es.drop_last()), es.last())
    }
}

/// In a sorted schedule the place for a new event is unique.
pub proof fn lemma_sorted_pos(s: Seq<FutureEvent>, k: int, cycle: u64)
    requires
        sorted_by_dot(s),
        insert_position(s, k, cycle),
    ensures
        k == sorted_pos(s, cycle),
    decreases s.len(),
{
    if s.len() > 0 {
        if s.last().cycle <= cycle {
            if k < s.len() {
                assert(s[s.len() - 1].cycle > cycle);
            }
        } else {
            assert(k < s.len());
            assert(insert_position(s.drop_last(), k, cycle));
            lemma_sorted_pos(s.drop_last(), k, cycle);
        }
    }
}

pub proof fn lemma_insert_all_step(s: Seq<FutureEvent>, es: Seq<FutureEvent>, i: int)
    requires
        0 <= i < es.len(),
    ensures
        insert_all(s, es.take(i + 1)) == insert_sorted(insert_all(s, es.take(i)), es[i]),
{
    assert(es.take(i + 1).drop_last() =~= es.take(i));
}

/// The scheduler: events keyed by PPU dot, taken out in order.
pub struct EventList {
    next_events: Vec<FutureEvent>,
}

impl View for EventList {
    type V = Seq<FutureEvent>;

    closed spec fn view(&self) -> Seq<FutureEvent> {
        self.next_events@
    }
}

impl EventList {
    /// The events are kept in order.
    pub open spec fn wf(&self) -> bool {
        sorted_by_dot(self@)
    }

    pub fn new() -> (r: EventList)
        ensures
            r@ == Seq::<FutureEvent>::empty(),
    {
        EventList { next_events: Vec::new() }
    }

    pub fn len(&self) -> (r: usize)
        ensures
            r == self@.len(),
    {
        self.next_events.len()
    }

    /// Schedules an event after all those due at the same dot or earlier.
    pub fn add_event(&mut self, e: FutureEvent)
        requires
            old(self).wf(),
        ensures
            final(self).wf(),
            final(self)@ == insert_sorted(old(self)@, e),
            insert_position(old(self)@, sorted_pos(old(self)@, e.cycle), e.cycle),
    {
        let n = self.next_events.len();
        let mut k: usize = n;
        while k > 0 && self.next_events[k - 1].cycle > e.cycle
            invariant
                0 <= k <= n,
                n == self.next_events.len(),
                sorted_by_dot(self.next_events@),
                forall|i: int| k <= i < n ==> self.next_events@[i].cycle > e.cycle,
            decreases k,
        {
            k = k - 1;
        }
        proof {
            assert(insert_position(self.next_events@, k as int, e.cycle));
            lemma_sorted_pos(self.next_events@, k as int, e.cycle);
        }
        self.next_events.insert(k, e);
    }

    /// Takes out the first event if it is due by dot `cyc`.
    pub fn pop_next_event(&mut self, cyc: u64) -> (r: Option<FutureEvent>)
        requires
            old(self).wf(),
        ensures
            sorted_by_dot(final(self)@),
            old(self)@.len() > 0 && old(self)@[0].cycle <= cyc ==> r == Some(old(self)@[0]) && final(self)@ == old(self)@.drop_first(),
            !(old(self)@.len() > 0 && old(self)@[0].cycle <= cyc) ==> r.is_none() && final(self)@ == old(self)@,
    {
        if self.next_events.len() == 0 || self.next_events[0].cycle > cyc {
            return None;
        }
        let e = self.next_events.remove(0);
        assert(self.next_events@ =~= old(self)@.drop_first());
        Some(e)
    }

    pub fn clear(&mut self)
        ensures
            final(self)@ == Seq::<FutureEvent>::empty(),
    {
        self.next_events.clear();
    }
}

} // verus!

verus! {

/// A measure that every handled event lowers: the events still to come,
/// counting twice those that may schedule a sprite-0 hit when handled.
pub open spec fn event_weight(e: FutureEvent) -> nat {
    if e.tp == FutureEventType::PPU(PpuEvent::Sprite0Hit) { 1 } else { 2 }
}

pub open spec fn weight(s: Seq<FutureEvent>) -> nat
    decreases s.len(),
{
    if s.len() == 0 {
        0
    } else {
        event_weight(s[0]) + weight(s.drop_first())
    }
}

pub proof fn lemma_weight_insert(s: Seq<FutureEvent>, k: int, e: FutureEvent)
    requires
        0 <= k <= s.len(),
    ensures
        weight(s.insert(k, e)) == weight(s) + event_weight(e),
    decreases s.len(),
{
    if k == 0 {
        assert(s.insert(0, e).drop_first() =~= s);
    } else {
        assert(s.insert(k, e).drop_first() =~= s.drop_first().insert(k - 1, e));
        lemma_weight_insert(s.drop_first(), k - 1, e);
    }
}

} // verus!
