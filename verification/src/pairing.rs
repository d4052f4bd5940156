//! The button-chord pairing engine.
//!
//! Given a pool of unassigned recognized devices, the engine watches each
//! device's own event stream. A left-shoulder press nominates its device as
//! the left candidate, a right-shoulder press as the right candidate; a
//! release clears the slot, and a newer press silently supersedes a stale
//! candidate. Whenever both slots are populated a pairing attempt fires:
//! the same device in both slots forms a single-device unit, two distinct
//! devices form a two-device unit, and an attempt that would pair a
//! Pro Controller with a different device is rejected, both devices staying
//! in the pool. Formed units receive sequential player indices from 1.

use vstd::prelude::*;
use vstd::multiset::Multiset;
use crate::discovery::DeviceInfo;
use crate::events::{InputEvent, PRODUCT_PROCON, is_left_shoulder, is_right_shoulder};

verus! {

/// A formed logical controller: a primary device, an optional secondary
/// device (present exactly for a two-Joy-Con pair), and the player index
/// assigned at formation.
#[derive(Clone, Copy, Debug)]
pub struct UnitPlan {
    pub primary: DeviceInfo,
    pub secondary: Option<DeviceInfo>,
    pub player_index: u8,
}

/// The cross-family rule: a unit holding two devices contains no
/// Pro Controller, since a Pro Controller is self-contained.
pub open spec fn unit_families_ok(u: UnitPlan) -> bool {
    u.secondary is Some ==> u.primary.product != PRODUCT_PROCON
        && u.secondary.unwrap().product != PRODUCT_PROCON
}

/// The devices a unit holds: its primary, and its secondary if present.
pub open spec fn unit_devices(u: UnitPlan) -> Multiset<DeviceInfo> {
    if u.secondary is Some {
        Multiset::empty().insert(u.primary).insert(u.secondary.unwrap())
    } else {
        Multiset::empty().insert(u.primary)
    }
}

/// The devices held by a sequence of formed units, together.
pub open spec fn units_devices(units: Seq<UnitPlan>) -> Multiset<DeviceInfo>
    decreases units.len(),
{
    if units.len() == 0 {
        Multiset::empty()
    } else {
        units_devices(units.drop_last()).add(unit_devices(units.last()))
    }
}

/// Every device a pairing run holds, assigned or not: the unassigned pool
/// plus the devices inside formed units.
pub open spec fn all_devices(e: PairingEngine) -> Multiset<DeviceInfo> {
    e.pool@.to_multiset().add(units_devices(e.units@))
}

/// The pool with the devices at positions `i` and `j` taken out,
/// the order of the rest kept.
pub open spec fn pool_minus_two(s: Seq<DeviceInfo>, i: int, j: int) -> Seq<DeviceInfo>
    recommends
        0 <= i < s.len(),
        0 <= j < s.len(),
        i != j,
{
    if i < j {
        s.remove(j).remove(i)
    } else {
        s.remove(i).remove(j)
    }
}

/// Outcome of one pairing attempt.
#[derive(Clone, Copy, Debug)]
pub enum PairOutcome {
    /// The two candidate slots were not both populated; nothing changed.
    NoAttempt,
    /// The attempt would have mixed a Pro Controller with a different
    /// device; both devices stay in the pool and the slots are cleared.
    Rejected,
    /// A unit was formed; its devices left the pool.
    Formed(UnitPlan),
}

/// The transient pairing state: the still-unassigned pool, the two
/// candidate slots (indices into the pool), and the units formed so far.
pub struct PairingEngine {
    pub pool: Vec<DeviceInfo>,
    pub left_candidate: Option<usize>,
    pub right_candidate: Option<usize>,
    pub units: Vec<UnitPlan>,
}

impl PairingEngine {
    /// Well-formedness: candidate slots index into the pool, player
    /// indices are sequential from 1, every unit obeys the cross-family
    /// rule, and the device count stays within the player-index range.
    pub open spec fn wf(self) -> bool {
        &&& (self.left_candidate is Some ==> self.left_candidate.unwrap() < self.pool@.len())
        &&& (self.right_candidate is Some ==> self.right_candidate.unwrap() < self.pool@.len())
        &&& self.units@.len() + self.pool@.len() <= 255
        &&& (forall|i: int| 0 <= i < self.units@.len()
                ==> (#[trigger] self.units@[i]).player_index as int == i + 1)
        &&& (forall|i: int| 0 <= i < self.units@.len()
                ==> unit_families_ok(#[trigger] self.units@[i]))
    }

    /// Starts a pairing run over an unassigned pool. The pool bound keeps
    /// every later player index within its one-byte range.
    pub fn new(pool: Vec<DeviceInfo>) -> (r: PairingEngine)
        requires
            pool@.len() <= 255,
        ensures
            r.wf(),
            r.pool@ == pool@,
            r.left_candidate is None,
            r.right_candidate is None,
            r.units@.len() == 0,
    {
        PairingEngine { pool, left_candidate: None, right_candidate: None, units: Vec::new() }
    }

    /// Number of devices still unassigned.
    pub fn pool_len(&self) -> (r: usize)
        ensures
            r == self.pool@.len(),
    {
        self.pool.len()
    }

    /// The unassigned device at pool position `index`.
    pub fn device_at(&self, index: usize) -> (r: DeviceInfo)
        requires
            index < self.pool@.len(),
        ensures
            r == self.pool@[index as int],
    {
        self.pool[index]
    }

    /// Records one event observed on the pool device at `index`: a
    /// shoulder press (value 1) sets that role's candidate slot to the
    /// device, superseding any stale candidate; any other value of the
    /// shoulder button clears the slot; every other event is ignored.
    pub fn observe(&mut self, index: usize, ev: InputEvent)
        requires
            old(self).wf(),
            index < old(self).pool@.len(),
        ensures
            final(self).wf(),
            final(self).pool@ == old(self).pool@,
            final(self).units@ == old(self).units@,
            is_left_shoulder(ev) ==> final(self).left_candidate == (if ev.value == 1 {
                Some(index)
            } else {
                None::<usize>
            }) && final(self).right_candidate == old(self).right_candidate,
            is_right_shoulder(ev) ==> final(self).right_candidate == (if ev.value == 1 {
                Some(index)
            } else {
                None::<usize>
            }) && final(self).left_candidate == old(self).left_candidate,
            !is_left_shoulder(ev) && !is_right_shoulder(ev) ==> *final(self) == *old(self),
    {
        if ev.event_type == crate::events::EV_TYPE_KEY && ev.code == crate::events::KEY_BTN_TL {
            self.left_candidate = if ev.value == 1 { Some(index) } else { None };
        } else if ev.event_type == crate::events::EV_TYPE_KEY
            && ev.code == crate::events::KEY_BTN_TR {
            self.right_candidate = if ev.value == 1 { Some(index) } else { None };
        }
    }

    /// Fires a pairing attempt if both candidate slots are populated.
    ///
    /// The same device in both slots forms a single-device unit; two
    /// distinct devices form a two-device unit unless either is a
    /// Pro Controller, in which case the attempt is rejected and both
    /// devices remain unassigned. On any attempt both slots are cleared;
    /// on success the unit receives the next sequential player index.
    ///
    /// Whatever the outcome, devices are conserved: the pool and the
    /// formed units together hold exactly the devices they held before,
    /// so every device ends up covered exactly once and none is ever
    /// destroyed.
    pub fn try_pair(&mut self) -> (r: PairOutcome)
        requires
            old(self).wf(),
        ensures
            final(self).wf(),
            all_devices(*final(self)) == all_devices(*old(self)),
            match r {
                PairOutcome::NoAttempt => {
                    &&& !(old(self).left_candidate is Some && old(self).right_candidate is Some)
                    &&& *final(self) == *old(self)
                },
                PairOutcome::Rejected => {
                    let li = old(self).left_candidate.unwrap() as int;
                    let ri = old(self).right_candidate.unwrap() as int;
                    &&& old(self).left_candidate is Some
                    &&& old(self).right_candidate is Some
                    &&& li != ri
                    &&& (old(self).pool@[li].product == PRODUCT_PROCON
                        || old(self).pool@[ri].product == PRODUCT_PROCON)
                    &&& final(self).pool@ == old(self).pool@
                    &&& final(self).units@ == old(self).units@
                    &&& final(self).left_candidate is None
                    &&& final(self).right_candidate is None
                },
                PairOutcome::Formed(u) => {
                    let li = old(self).left_candidate.unwrap() as int;
                    let ri = old(self).right_candidate.unwrap() as int;
                    &&& old(self).left_candidate is Some
                    &&& old(self).right_candidate is Some
                    &&& final(self).units@ == old(self).units@.push(u)
                    &&& u.player_index as int == old(self).units@.len() + 1
                    &&& u.primary == old(self).pool@[li]
                    &&& unit_families_ok(u)
                    &&& final(self).left_candidate is None
                    &&& final(self).right_candidate is None
                    &&& if li == ri {
                        u.secondary is None && final(self).pool@ == old(self).pool@.remove(li)
                    } else {
                        &&& u.secondary == Some(old(self).pool@[ri])
                        &&& old(self).pool@[li].product != PRODUCT_PROCON
                        &&& old(self).pool@[ri].product != PRODUCT_PROCON
                        &&& final(self).pool@ == pool_minus_two(old(self).pool@, li, ri)
                    }
                },
            },
    {
        let (li, ri) = match (self.left_candidate, self.right_candidate) {
            (Some(l), Some(r)) => (l, r),
            _ => {
                return PairOutcome::NoAttempt;
            },
        };

        self.left_candidate = None;
        self.right_candidate = None;

        if li == ri {
            let primary = self.pool.remove(li);
            assert(self.units@.len() + 1 <= 255);
            let idx: u8 = (self.units.len() + 1) as u8;
            let u = UnitPlan { primary, secondary: None, player_index: idx };
            self.units.push(u);
            proof {
                broadcast use vstd::seq_lib::group_to_multiset_ensures;
                assert(self.units@.drop_last() =~= old(self).units@);
                assert(units_devices(self.units@) == units_devices(old(self).units@).add(
                    unit_devices(u),
                ));
                assert(old(self).pool@.contains(old(self).pool@[li as int]));
                assert(all_devices(*self) =~= all_devices(*old(self)));
            }
            PairOutcome::Formed(u)
        } else {
            let lp = self.pool[li].product;
            let rp = self.pool[ri].product;
            if lp == PRODUCT_PROCON || rp == PRODUCT_PROCON {
                return PairOutcome::Rejected;
            }
            let primary = self.pool[li];
            let secondary = self.pool[ri];
            if li < ri {
                self.pool.remove(ri);
                self.pool.remove(li);
            } else {
                self.pool.remove(li);
                self.pool.remove(ri);
            }
            assert(self.units@.len() + 1 <= 255);
            let idx: u8 = (self.units.len() + 1) as u8;
            let u = UnitPlan { primary, secondary: Some(secondary), player_index: idx };
            self.units.push(u);
            proof {
                broadcast use vstd::seq_lib::group_to_multiset_ensures;
                assert(self.units@.drop_last() =~= old(self).units@);
                assert(units_devices(self.units@) == units_devices(old(self).units@).add(
                    unit_devices(u),
                ));
                let pool0 = old(self).pool@;
                assert(pool0.contains(pool0[li as int]));
                assert(pool0.contains(pool0[ri as int]));
                if li < ri {
                    assert(pool0.remove(ri as int)[li as int] == pool0[li as int]);
                    assert(pool0.remove(ri as int).contains(pool0[li as int]));
                } else {
                    assert(pool0.remove(li as int)[ri as int] == pool0[ri as int]);
                    assert(pool0.remove(li as int).contains(pool0[ri as int]));
                }
                assert(all_devices(*self) =~= all_devices(*old(self)));
            }
            PairOutcome::Formed(u)
        }
    }
}

/// Law: pairing never produces a unit mixing a Pro Controller with a
/// different device — in every well-formed engine state, every formed unit
/// obeys the cross-family rule.
pub proof fn lemma_no_cross_family(e: PairingEngine)
    requires
        e.wf(),
    ensures
        forall|i: int| 0 <= i < e.units@.len() ==> unit_families_ok(#[trigger] e.units@[i]),
{
}

/// Law: player indices assigned within one run are strictly increasing
/// integers starting at 1, with no repeats.
pub proof fn lemma_player_indices(e: PairingEngine)
    requires
        e.wf(),
    ensures
        e.units@.len() > 0 ==> e.units@[0].player_index == 1,
        forall|i: int, j: int| 0 <= i < j < e.units@.len()
            ==> (#[trigger] e.units@[i]).player_index < (#[trigger] e.units@[j]).player_index,
{
}

} // verus!
