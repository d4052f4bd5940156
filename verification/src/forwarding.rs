//! The per-tick event forwarding plan.
//!
//! One tick of a unit reads exactly one pending event from the primary
//! device, then (for a two-device unit) exactly one from the secondary,
//! relays them verbatim to the synthetic device in that order, and closes
//! the frame with a synchronization event stamped with the wall-clock
//! time. If the clock is unavailable the tick fails: the already-relayed
//! physical events stay delivered and no synchronization event is emitted.
//! The I/O layer performs the reads and writes; the plan fixes the order.

use vstd::prelude::*;
use crate::events::{InputEvent, EV_TYPE_SYN, SYN_REPORT_CODE};

verus! {

/// A wall-clock timestamp for the synchronization event, as seconds and
/// microseconds since the epoch.
#[derive(Clone, Copy, PartialEq, Eq, Structural, Debug)]
pub struct TimeStamp {
    pub secs: i64,
    pub micros: i64,
}

/// One write to the synthetic device within a tick.
#[derive(Clone, Copy, Debug)]
pub enum Relay {
    /// A physical device's event, relayed verbatim.
    Physical(InputEvent),
    /// The frame-complete synchronization event, stamped with this time.
    Sync(TimeStamp),
}

/// Why a tick failed.
#[derive(Clone, Copy, PartialEq, Eq, Structural, Debug)]
pub enum TickError {
    /// The wall clock could not be read; the frame was left unsynchronized.
    ClockUnavailable,
}

/// The event a synchronization relay writes: a sync-report with value 0.
pub open spec fn sync_event_spec() -> InputEvent {
    InputEvent { event_type: EV_TYPE_SYN, code: SYN_REPORT_CODE, value: 0 }
}

/// The writes one tick performs, in order: the primary's event, then the
/// secondary's if the unit has one, then — only when the clock was
/// readable — the synchronization event.
pub open spec fn tick_relays_spec(
    primary: InputEvent,
    secondary: Option<InputEvent>,
    clock: Option<TimeStamp>,
) -> Seq<Relay> {
    let physicals = if secondary is Some {
        seq![Relay::Physical(primary), Relay::Physical(secondary.unwrap())]
    } else {
        seq![Relay::Physical(primary)]
    };
    if clock is Some {
        physicals.push(Relay::Sync(clock.unwrap()))
    } else {
        physicals
    }
}

/// The synchronization event as a value the I/O layer can write.
pub fn sync_event() -> (r: InputEvent)
    ensures
        r == sync_event_spec(),
{
    InputEvent { event_type: EV_TYPE_SYN, code: SYN_REPORT_CODE, value: 0 }
}

/// Plans one tick for a unit from the events its devices yielded and the
/// wall-clock reading. The relays are ordered primary, then secondary,
/// then sync; an unavailable clock fails the tick while keeping the
/// physical relays, exactly as they were already delivered.
pub fn plan_tick(
    primary: InputEvent,
    secondary: Option<InputEvent>,
    clock: Option<TimeStamp>,
) -> (r: (Vec<Relay>, Result<(), TickError>))
    ensures
        r.0@ == tick_relays_spec(primary, secondary, clock),
        r.1 is Ok <==> clock is Some,
        r.1 is Err ==> r.1 == Err::<(), TickError>(TickError::ClockUnavailable),
{
    let mut relays: Vec<Relay> = Vec::new();
    relays.push(Relay::Physical(primary));
    match secondary {
        Some(ev) => {
            relays.push(Relay::Physical(ev));
        },
        None => {},
    }
    let outcome: Result<(), TickError> = match clock {
        Some(t) => {
            relays.push(Relay::Sync(t));
            Ok(())
        },
        None => Err(TickError::ClockUnavailable),
    };
    proof {
        assert(relays@ =~= tick_relays_spec(primary, secondary, clock));
    }
    (relays, outcome)
}

/// Law: for a two-device unit, in every tick that completes, the primary's
/// relayed event precedes the secondary's, which precedes the
/// synchronization event — the tick is exactly those three writes.
pub proof fn lemma_tick_order(primary: InputEvent, secondary: InputEvent, clock: TimeStamp)
    ensures
        tick_relays_spec(primary, Some(secondary), Some(clock)).len() == 3,
        tick_relays_spec(primary, Some(secondary), Some(clock))[0] == Relay::Physical(primary),
        tick_relays_spec(primary, Some(secondary), Some(clock))[1] == Relay::Physical(secondary),
        tick_relays_spec(primary, Some(secondary), Some(clock))[2] == Relay::Sync(clock),
{
}

/// Law: a tick whose clock read failed emits no synchronization relay;
/// only the physical events, in primary-then-secondary order, are
/// delivered.
pub proof fn lemma_failed_tick(primary: InputEvent, secondary: Option<InputEvent>)
    ensures
        forall|i: int| 0 <= i < tick_relays_spec(primary, secondary, None).len()
            ==> !((#[trigger] tick_relays_spec(primary, secondary, None)[i]) is Sync),
        tick_relays_spec(primary, secondary, None)[0] == Relay::Physical(primary),
        secondary is Some ==> tick_relays_spec(primary, secondary, None).len() == 2
            && tick_relays_spec(primary, secondary, None)[1]
                == Relay::Physical(secondary.unwrap()),
        secondary is None ==> tick_relays_spec(primary, secondary, None).len() == 1,
{
}

} // verus!
