//! The read model of a template: the last events it went through.

use vstd::prelude::*;
use crate::event::TemplateEvent;
use crate::state::{event_result, play_all};
use crate::START_VALUE;

verus! {

/// How many of the latest events the read model keeps.
pub const WINDOW: usize = 10;

/// One step of the read model: append the event, then drop the oldest
/// event if more than `WINDOW` are held.
pub open spec fn record(events: Seq<TemplateEvent>, event: TemplateEvent) -> Seq<TemplateEvent> {
    let pushed = events.push(event);
    if pushed.len() > WINDOW {
        pushed.drop_first()
    } else {
        pushed
    }
}

/// The events after recording each of `more` in turn.
pub open spec fn record_all(events: Seq<TemplateEvent>, more: Seq<TemplateEvent>) -> Seq<
    TemplateEvent,
>
    decreases more.len(),
{
    if more.len() == 0 {
        events
    } else {
        record(record_all(events, more.drop_last()), more.last())
    }
}

/// The last `WINDOW` events of a history (all of them if there are fewer).
pub open spec fn last_window(history: Seq<TemplateEvent>) -> Seq<TemplateEvent> {
    if history.len() > WINDOW {
        history.subrange(history.len() - WINDOW, history.len() as int)
    } else {
        history
    }
}

/// The signed amount of an event.
pub open spec fn amount(event: TemplateEvent) -> int {
    match event {
        TemplateEvent::Added(n) => n as int,
        TemplateEvent::Removed(n) => -(n as int),
    }
}

/// The sum of the signed amounts of the events.
pub open spec fn signed_sum(events: Seq<TemplateEvent>) -> int
    decreases events.len(),
{
    if events.len() == 0 {
        0
    } else {
        signed_sum(events.drop_last()) + amount(events.last())
    }
}

/// What a template shows: its latest events, whose average amount is the
/// template's displayed average.
#[derive(Debug)]
pub struct TemplateDto {
    last_ten: Vec<TemplateEvent>,
}

impl View for TemplateDto {
    type V = Seq<TemplateEvent>;

    closed spec fn view(&self) -> Seq<TemplateEvent> {
        self.last_ten@
    }
}

impl Default for TemplateDto {
    /// A fresh read model shows the start value as its only event.
    fn default() -> (d: Self)
        ensures
            d@ == seq![TemplateEvent::Added(START_VALUE)],
    {
        let mut last_ten = Vec::new();
        last_ten.push(TemplateEvent::Added(START_VALUE));
        assert(last_ten@ =~= seq![TemplateEvent::Added(START_VALUE)]);
        TemplateDto { last_ten }
    }
}

impl Clone for TemplateDto {
    fn clone(&self) -> (d: Self)
        ensures
            d@ == self@,
    {
        let mut last_ten = Vec::new();
        let mut i: usize = 0;
        while i < self.last_ten.len()
            invariant
                i <= self.last_ten@.len(),
                last_ten@ == self.last_ten@.take(i as int),
            decreases self.last_ten@.len() - i,
        {
            last_ten.push(self.last_ten[i]);
            i = i + 1;
            assert(last_ten@ =~= self.last_ten@.take(i as int));
        }
        assert(self.last_ten@.take(i as int) =~= self.last_ten@);
        TemplateDto { last_ten }
    }
}

impl TemplateDto {
    /// A read model with no events.
    pub fn empty() -> (d: Self)
        ensures
            d@ == Seq::<TemplateEvent>::empty(),
    {
        TemplateDto { last_ten: Vec::new() }
    }

    /// A read model holding exactly these events, oldest first.
    pub fn from_events(events: Vec<TemplateEvent>) -> (d: Self)
        ensures
            d@ == events@,
    {
        TemplateDto { last_ten: events }
    }

    /// Records an event: it becomes the newest, and the oldest is dropped
    /// when more than `WINDOW` would be held.
    pub fn play_event(&mut self, event: &TemplateEvent)
        ensures
            final(self)@ == record(old(self)@, *event),
    {
        self.last_ten.push(*event);
        if self.last_ten.len() > WINDOW {
            self.last_ten.remove(0);
        }
    }

    /// The events held, oldest first.
    pub fn last_ten(&self) -> (events: &Vec<TemplateEvent>)
        ensures
            events@ == self@,
    {
        &self.last_ten
    }

    /// The sum of the signed amounts of the events held; the displayed
    /// average is this sum divided by their number.
    pub fn sum(&self) -> (total: i128)
        requires
            self@.len() <= isize::MAX,
        ensures
            total == signed_sum(self@),
    {
        let mut total: i128 = 0;
        let mut i: usize = 0;
        while i < self.last_ten.len()
            invariant
                i <= self.last_ten@.len() <= isize::MAX,
                total == signed_sum(self.last_ten@.take(i as int)),
                -(i * usize::MAX) <= total <= i * usize::MAX,
            decreases self.last_ten@.len() - i,
        {
            proof {
                lemma_sum_bound(i as int);
            }
            assert(self.last_ten@.take(i + 1).drop_last() =~= self.last_ten@.take(i as int));
            match self.last_ten[i] {
                TemplateEvent::Added(n) => total = total + n as i128,
                TemplateEvent::Removed(n) => total = total - n as i128,
            }
            i = i + 1;
        }
        assert(self.last_ten@.take(i as int) =~= self.last_ten@);
        total
    }
}

proof fn lemma_sum_bound(i: int)
    by (nonlinear_arith)
    requires
        0 <= i < isize::MAX,
        isize::MAX <= 0x7fff_ffff_ffff_ffff,
        usize::MAX <= 0xffff_ffff_ffff_ffff,
    ensures
        (i + 1) * usize::MAX < 0x7fff_ffff_ffff_ffff_ffff_ffff_ffff_ffff,
        (i + 1) * usize::MAX == i * usize::MAX + usize::MAX,
{
}

/// Recording an event on the window of a history gives the window of the
/// history with that event appended.
proof fn lemma_record_window(history: Seq<TemplateEvent>, event: TemplateEvent)
    ensures
        record(last_window(history), event) == last_window(history.push(event)),
{
    assert(record(last_window(history), event) =~= last_window(history.push(event)));
}

/// A read model never holds more than `WINDOW` events, and what it holds is
/// always the latest `WINDOW` events of everything it was shown: starting
/// from at most `WINDOW` events and recording `more` gives the last
/// `WINDOW` events of the whole history.
pub proof fn law_keeps_latest_window(start: Seq<TemplateEvent>, more: Seq<TemplateEvent>)
    requires
        start.len() <= WINDOW,
    ensures
        record_all(start, more) == last_window(start + more),
        record_all(start, more).len() <= WINDOW,
    decreases more.len(),
{
    if more.len() == 0 {
        assert(start + more =~= start);
    } else {
        law_keeps_latest_window(start, more.drop_last());
        assert((start + more.drop_last()).push(more.last()) =~= start + more);
        lemma_record_window(start + more.drop_last(), more.last());
    }
}

proof fn lemma_signed_sum_first(events: Seq<TemplateEvent>)
    requires
        events.len() > 0,
    ensures
        signed_sum(events) == amount(events[0]) + signed_sum(events.drop_first()),
    decreases events.len(),
{
    if events.len() > 1 {
        lemma_signed_sum_first(events.drop_last());
        assert(events.drop_last().drop_first() =~= events.drop_first().drop_last());
        assert(events.drop_first().last() == events.last());
    } else {
        assert(events.drop_last() =~= Seq::<TemplateEvent>::empty());
        assert(events.drop_first() =~= Seq::<TemplateEvent>::empty());
    }
}

/// The read model and the state agree on the events they are shown: when a
/// sequence of events applies to a template's value, the value changes by
/// exactly the signed sum of their amounts, the sum the read model shows
/// for those events.
pub proof fn law_sum_tracks_value(value: int, events: Seq<TemplateEvent>)
    ensures
        play_all(value, events) matches Some(after) ==> after == value + signed_sum(events),
    decreases events.len(),
{
    if events.len() > 0 {
        lemma_signed_sum_first(events);
        law_sum_tracks_value(event_result(value, events[0]), events.drop_first());
    }
}


/// Recording an event makes it the newest event held; below the window the
/// event is simply appended, and at the window the oldest event goes while
/// the others keep their order.
pub proof fn law_record_appends(events: Seq<TemplateEvent>, event: TemplateEvent)
    ensures
        record(events, event).last() == event,
        events.len() < WINDOW ==> record(events, event) == events.push(event),
        events.len() >= WINDOW ==> record(events, event) == events.drop_first().push(event),
{
    let pushed = events.push(event);
    if pushed.len() > WINDOW {
        assert(pushed.drop_first() =~= events.drop_first().push(event));
    }
}

/// The signed sum counts an addition as its amount and a removal as minus
/// its amount, and the sum of two runs of events is the sum of their sums.
pub proof fn law_signed_sum_adds_up(a: Seq<TemplateEvent>, b: Seq<TemplateEvent>, n: usize)
    ensures
        signed_sum(seq![TemplateEvent::Added(n)]) == n,
        signed_sum(seq![TemplateEvent::Removed(n)]) == -n,
        signed_sum(a + b) == signed_sum(a) + signed_sum(b),
    decreases b.len(),
{
    let added = seq![TemplateEvent::Added(n)];
    let removed = seq![TemplateEvent::Removed(n)];
    assert(added.drop_last() =~= Seq::<TemplateEvent>::empty());
    assert(removed.drop_last() =~= Seq::<TemplateEvent>::empty());
    assert(signed_sum(added.drop_last()) == 0);
    assert(signed_sum(removed.drop_last()) == 0);
    assert(added.last() == TemplateEvent::Added(n));
    assert(removed.last() == TemplateEvent::Removed(n));
    if b.len() == 0 {
        assert(a + b =~= a);
    } else {
        law_signed_sum_adds_up(a, b.drop_last(), n);
        assert((a + b).drop_last() =~= a + b.drop_last());
        assert((a + b).last() == b.last());
    }
}

} // verus!
