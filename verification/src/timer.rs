//! A timer that fires events a fixed number of ticks after they were
//! scheduled. The events wait in a hashed wheel of the `wheel_timer` crate.
use vstd::prelude::*;
use vstd::seq_lib::lemma_flatten_concat;
use wheel_timer::WheelTimer;

verus! {

/// The number of slots of the wheel. An event scheduled this many ticks
/// ahead, or more, wraps around the wheel and fires earlier.
pub const MAX_INTERVAL: usize = 20;

/// What the timer fires.
#[derive(Copy, Clone, Debug, PartialEq, Eq, Structural)]
pub enum Event {
    Message,
}

/// `wheel_timer::WheelTimer`, a ring of slots with a hand that moves one
/// slot per tick. Nothing of its inside is visible here.
#[verifier::external_type_specification]
#[verifier::external_body]
#[verifier::reject_recursive_types(T)]
pub struct ExWheelTimer<T>(WheelTimer<T>);

/// The events waiting in `wheel`, slot by slot, counted from the hand: the
/// events at index 0 are returned by the next tick, those at index 1 by the
/// tick after it, and so on. Within a slot the events stand in the order in
/// which they were scheduled. There are as many slots as the interval that
/// the wheel was made with.
pub uninterp spec fn wheel_slots(wheel: WheelTimer<Event>) -> Seq<Seq<Event>>;

/// `WheelTimer::new`: a wheel of `max_interval` slots, all of them empty.
/// The bound keeps the allocation of the ring far from what an allocator
/// refuses.
#[verifier::external_body]
fn wheel_new(max_interval: usize) -> (wheel: WheelTimer<Event>)
    requires
        max_interval <= u16::MAX,
    ensures
        wheel_slots(wheel) == Seq::new(max_interval as nat, |i: int| Seq::<Event>::empty()),
{
    WheelTimer::new(max_interval)
}

/// `WheelTimer::size`: the count that the wheel keeps of the events
/// waiting in it. The wheel adds one for each event scheduled and takes off
/// the length of each slot it hands out, so the count is the number of
/// events in all slots together.
#[verifier::external_body]
fn wheel_size(wheel: &WheelTimer<Event>) -> (size: usize)
    ensures
        size == wheel_slots(*wheel).flatten().len(),
{
    wheel.size()
}

/// `WheelTimer::schedule`: appends `value` to the slot that lies `ticks`
/// slots ahead of the hand, going round the wheel as often as it takes. The
/// wheel computes the slot as the hand's position plus `ticks`, modulo the
/// number of slots, and counts the event; it panics where there is no slot,
/// where that sum overflows, or where the count does, and nowhere else.
#[verifier::external_body]
fn wheel_schedule(wheel: &mut WheelTimer<Event>, ticks: usize, value: Event)
    requires
        wheel_slots(*old(wheel)).len() > 0,
        ticks + wheel_slots(*old(wheel)).len() <= usize::MAX,
        wheel_slots(*old(wheel)).flatten().len() < usize::MAX,
    ensures
        wheel_slots(*final(wheel)) == wheel_slots(*old(wheel)).update(
            ticks as int % wheel_slots(*old(wheel)).len() as int,
            wheel_slots(*old(wheel))[ticks as int % wheel_slots(*old(wheel)).len() as int].push(
                value,
            ),
        ),
    no_unwind
{
    wheel.schedule(ticks, value)
}

/// `WheelTimer::tick`: hands out the events of the slot under the hand,
/// leaves that slot empty and moves the hand on by one, so that the emptied
/// slot becomes the last one ahead. It panics on a wheel without slots, and
/// nowhere else.
#[verifier::external_body]
fn wheel_tick(wheel: &mut WheelTimer<Event>) -> (due: Vec<Event>)
    requires
        wheel_slots(*old(wheel)).len() > 0,
    ensures
        due@ == wheel_slots(*old(wheel))[0],
        wheel_slots(*final(wheel)) == wheel_slots(*old(wheel)).drop_first().push(
            Seq::<Event>::empty(),
        ),
    no_unwind
{
    wheel.tick()
}

/// The number of events waiting in `slots`.
pub open spec fn pending(slots: Seq<Seq<Event>>) -> nat {
    slots.flatten().len()
}

/// `count` empty slots.
pub open spec fn empty_slots(count: nat) -> Seq<Seq<Event>> {
    Seq::new(count, |i: int| Seq::<Event>::empty())
}

/// The slots after a tick: each event is one slot closer to the hand, and
/// the slot that was under the hand is empty and furthest away.
pub open spec fn slots_after_tick(slots: Seq<Seq<Event>>) -> Seq<Seq<Event>> {
    slots.drop_first().push(Seq::<Event>::empty())
}

/// The slots after `event` has been scheduled `delay` ticks ahead.
pub open spec fn slots_after_schedule(slots: Seq<Seq<Event>>, delay: int, event: Event) -> Seq<
    Seq<Event>,
> {
    let slot = delay % slots.len() as int;
    slots.update(slot, slots[slot].push(event))
}

/// Nothing waits in empty slots.
pub proof fn lemma_pending_empty(count: nat)
    ensures
        pending(empty_slots(count)) == 0,
    decreases count,
{
    if count > 0 {
        let fewer = (count - 1) as nat;
        lemma_pending_empty(fewer);
        assert(empty_slots(count) =~= empty_slots(fewer).push(Seq::<Event>::empty()));
        empty_slots(fewer).lemma_flatten_push(Seq::<Event>::empty());
    }
}

/// A tick takes exactly the events under the hand off the timer.
pub proof fn lemma_pending_after_tick(slots: Seq<Seq<Event>>)
    requires
        slots.len() > 0,
    ensures
        pending(slots_after_tick(slots)) == pending(slots) - slots[0].len(),
{
    slots.drop_first().lemma_flatten_push(Seq::<Event>::empty());
    assert(slots.flatten() == slots.first() + slots.drop_first().flatten());
}

/// Scheduling puts exactly one more event on the timer.
pub proof fn lemma_pending_after_schedule(slots: Seq<Seq<Event>>, delay: int, event: Event)
    requires
        slots.len() > 0,
        0 <= delay,
    ensures
        pending(slots_after_schedule(slots, delay, event)) == pending(slots) + 1,
{
    let slot = delay % slots.len() as int;
    let before = slots.take(slot);
    let after = slots.skip(slot + 1);
    let longer = slots[slot].push(event);
    assert(slots =~= before + seq![slots[slot]] + after);
    assert(slots_after_schedule(slots, delay, event) =~= before + seq![longer] + after);
    lemma_flatten_concat(before + seq![slots[slot]], after);
    lemma_flatten_concat(before, seq![slots[slot]]);
    lemma_flatten_concat(before + seq![longer], after);
    lemma_flatten_concat(before, seq![longer]);
    seq![slots[slot]].lemma_flatten_singleton();
    seq![longer].lemma_flatten_singleton();
}

/// An event scheduled fewer than a full turn of the wheel ahead waits in
/// the slot of its delay, behind the events already there: it is returned
/// by the tick that follows `delay` others, and by no tick before.
pub proof fn lemma_scheduled_event_waits(slots: Seq<Seq<Event>>, delay: int, event: Event)
    requires
        0 <= delay < slots.len(),
    ensures
        slots_after_schedule(slots, delay, event)[delay] == slots[delay].push(event),
        forall|i: int|
            0 <= i < slots.len() && i != delay ==> #[trigger] slots_after_schedule(
                slots,
                delay,
                event,
            )[i] == slots[i],
{
    let count = slots.len() as int;
    assert(delay % count == delay) by (nonlinear_arith)
        requires
            0 <= delay < count,
    ;
}

/// After a tick every slot holds what the slot behind it held, so an event
/// `n` slots from the hand is `n - 1` slots from it afterwards.
pub proof fn lemma_tick_moves_slots(slots: Seq<Seq<Event>>)
    requires
        slots.len() > 0,
    ensures
        slots_after_tick(slots).len() == slots.len(),
        forall|i: int|
            0 <= i < slots.len() - 1 ==> #[trigger] slots_after_tick(slots)[i] == slots[i + 1],
        slots_after_tick(slots).last() == Seq::<Event>::empty(),
{
}

/// The slots after `ticks` ticks.
pub open spec fn slots_after_ticks(slots: Seq<Seq<Event>>, ticks: nat) -> Seq<Seq<Event>>
    decreases ticks,
{
    if ticks == 0 {
        slots
    } else {
        slots_after_tick(slots_after_ticks(slots, (ticks - 1) as nat))
    }
}

/// Ticks move every slot towards the hand, one slot per tick, for as long
/// as the slot has not passed under it.
pub proof fn lemma_ticks_move_slots(slots: Seq<Seq<Event>>, ticks: nat)
    requires
        ticks <= slots.len(),
    ensures
        slots_after_ticks(slots, ticks).len() == slots.len(),
        forall|i: int|
            0 <= i < slots.len() - ticks ==> #[trigger] slots_after_ticks(slots, ticks)[i]
                == slots[i + ticks],
    decreases ticks,
{
    if ticks > 0 {
        let fewer = (ticks - 1) as nat;
        lemma_ticks_move_slots(slots, fewer);
        let earlier = slots_after_ticks(slots, fewer);
        assert forall|i: int| 0 <= i < slots.len() - ticks implies #[trigger] slots_after_ticks(
            slots,
            ticks,
        )[i] == slots[i + ticks] by {
            assert(slots_after_tick(earlier)[i] == earlier[i + 1]);
        }
    }
}

/// An event scheduled fewer than a full turn of the wheel ahead fires after
/// exactly that many ticks: the tick that follows `delay` others returns it
/// behind what it would have returned anyway, and the ticks before return
/// what they would have returned without it.
pub proof fn lemma_fires_after_delay(slots: Seq<Seq<Event>>, delay: int, event: Event)
    requires
        0 <= delay < slots.len(),
    ensures
        slots_after_ticks(slots_after_schedule(slots, delay, event), delay as nat)[0]
            == slots_after_ticks(slots, delay as nat)[0].push(event),
        forall|ticks: nat|
            ticks < delay ==> #[trigger] slots_after_ticks(
                slots_after_schedule(slots, delay, event),
                ticks,
            )[0] == slots_after_ticks(slots, ticks)[0],
{
    let scheduled = slots_after_schedule(slots, delay, event);
    lemma_scheduled_event_waits(slots, delay, event);
    lemma_ticks_move_slots(slots, delay as nat);
    lemma_ticks_move_slots(scheduled, delay as nat);
    assert forall|ticks: nat| ticks < delay implies #[trigger] slots_after_ticks(
        scheduled,
        ticks,
    )[0] == slots_after_ticks(slots, ticks)[0] by {
        lemma_ticks_move_slots(slots, ticks);
        lemma_ticks_move_slots(scheduled, ticks);
    }
}

/// A timer with [`MAX_INTERVAL`] slots.
pub struct Timer {
    wheeltimer: WheelTimer<Event>,
}

impl View for Timer {
    type V = Seq<Seq<Event>>;

    /// The events waiting, by the number of ticks until they fire: those at
    /// index 0 fire at the next tick.
    closed spec fn view(&self) -> Seq<Seq<Event>> {
        wheel_slots(self.wheeltimer)
    }
}

impl Timer {
    #[verifier::type_invariant]
    spec fn has_all_slots(self) -> bool {
        wheel_slots(self.wheeltimer).len() == MAX_INTERVAL
    }

    /// A timer on which nothing is scheduled.
    pub fn new() -> (timer: Self)
        ensures
            timer@ == empty_slots(MAX_INTERVAL as nat),
            pending(timer@) == 0,
    {
        proof {
            lemma_pending_empty(MAX_INTERVAL as nat);
        }
        Timer { wheeltimer: wheel_new(MAX_INTERVAL) }
    }

    /// The number of events waiting on the timer. Every timer has
    /// [`MAX_INTERVAL`] slots for them.
    pub fn size(&self) -> (size: usize)
        ensures
            size == pending(self@),
            self@.len() == MAX_INTERVAL,
    {
        proof {
            use_type_invariant(self);
        }
        wheel_size(&self.wheeltimer)
    }

    /// Moves the timer on by one tick and returns the events that are due,
    /// in the order in which they were scheduled. Every other event is one
    /// tick closer to firing.
    pub fn tick(&mut self) -> (due: Vec<Event>)
        ensures
            old(self)@.len() == MAX_INTERVAL,
            due@ == old(self)@[0],
            final(self)@ == slots_after_tick(old(self)@),
            pending(final(self)@) == pending(old(self)@) - due@.len(),
    {
        proof {
            use_type_invariant(&*self);
            lemma_pending_after_tick(self@);
        }
        wheel_tick(&mut self.wheeltimer)
    }

    /// Schedules `event` to fire `delay` ticks after the next one: with a
    /// delay of 0 it is returned by the next tick. A delay of
    /// [`MAX_INTERVAL`] or more wraps around the wheel.
    pub fn schedule(&mut self, delay: usize, event: Event)
        requires
            delay <= usize::MAX - MAX_INTERVAL,
            pending(old(self)@) < usize::MAX,
        ensures
            old(self)@.len() == MAX_INTERVAL,
            final(self)@ == slots_after_schedule(old(self)@, delay as int, event),
            pending(final(self)@) == pending(old(self)@) + 1,
    {
        proof {
            use_type_invariant(&*self);
            lemma_pending_after_schedule(self@, delay as int, event);
        }
        wheel_schedule(&mut self.wheeltimer, delay, event);
    }

    /// Schedules `event` like [`Timer::schedule`] wherever that is possible,
    /// and says whether it was. Otherwise the timer is left as it is.
    pub fn try_schedule(&mut self, delay: usize, event: Event) -> (scheduled: bool)
        ensures
            old(self)@.len() == MAX_INTERVAL,
            scheduled <==> delay <= usize::MAX - MAX_INTERVAL && pending(old(self)@)
                < usize::MAX,
            scheduled ==> final(self)@ == slots_after_schedule(old(self)@, delay as int, event),
            !scheduled ==> final(self)@ == old(self)@,
    {
        proof {
            use_type_invariant(&*self);
        }
        if delay <= usize::MAX - MAX_INTERVAL && self.size() < usize::MAX {
            self.schedule(delay, event);
            true
        } else {
            false
        }
    }
}

} // verus!
