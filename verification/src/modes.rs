//! The top-level mode state machine.
//!
//! The daemon is always in exactly one of three modes: `CONFIGURING`
//! (discovering and pairing), `OPERATING` (live forwarding for an
//! established set of units), or `DORMANT` (no devices present, polling
//! for reappearance). Configuration that yields zero units goes dormant;
//! otherwise forwarding begins and re-enters itself each pass. A dormant
//! probe that sees any eligible device returns to configuration. There is
//! no terminal mode; only unrecovered errors end the process.

use vstd::prelude::*;

verus! {

/// The process-wide mode.
#[derive(Clone, Copy, PartialEq, Eq, Structural, Debug)]
pub enum ProconMode {
    OPERATING,
    CONFIGURING,
    DORMANT,
}

/// What the current mode's work reported back to the state machine.
#[derive(Clone, Copy, PartialEq, Eq, Structural, Debug)]
pub enum ModeObservation {
    /// Configuration finished, forming this many units.
    UnitsConfigured(usize),
    /// One forwarding pass over all units completed.
    PassCompleted,
    /// A dormant re-discovery probe saw this many eligible devices.
    DevicesProbed(usize),
}

/// The transition relation. An observation that does not belong to the
/// current mode leaves the mode unchanged.
pub open spec fn next_mode_spec(mode: ProconMode, obs: ModeObservation) -> ProconMode {
    match (mode, obs) {
        (ProconMode::CONFIGURING, ModeObservation::UnitsConfigured(n)) => if n == 0 {
            ProconMode::DORMANT
        } else {
            ProconMode::OPERATING
        },
        (ProconMode::OPERATING, ModeObservation::PassCompleted) => ProconMode::OPERATING,
        (ProconMode::DORMANT, ModeObservation::DevicesProbed(n)) => if n > 0 {
            ProconMode::CONFIGURING
        } else {
            ProconMode::DORMANT
        },
        _ => mode,
    }
}

/// The mode the daemon starts in.
pub fn initial_mode() -> (r: ProconMode)
    ensures
        r == ProconMode::CONFIGURING,
{
    ProconMode::CONFIGURING
}

/// Advances the state machine by one observation.
pub fn next_mode(mode: ProconMode, obs: ModeObservation) -> (r: ProconMode)
    ensures
        r == next_mode_spec(mode, obs),
{
    match (mode, obs) {
        (ProconMode::CONFIGURING, ModeObservation::UnitsConfigured(n)) => if n == 0 {
            ProconMode::DORMANT
        } else {
            ProconMode::OPERATING
        },
        (ProconMode::OPERATING, ModeObservation::PassCompleted) => ProconMode::OPERATING,
        (ProconMode::DORMANT, ModeObservation::DevicesProbed(n)) => if n > 0 {
            ProconMode::CONFIGURING
        } else {
            ProconMode::DORMANT
        },
        _ => mode,
    }
}

/// A human-readable description of a mode.
pub fn mode_description(mode: ProconMode) -> (r: &'static str)
    ensures
        mode is OPERATING ==> r@ == "operating as usual"@,
        mode is CONFIGURING ==> r@ == "configuring controllers"@,
        mode is DORMANT ==> r@ == "dormant, no controllers connected"@,
{
    match mode {
        ProconMode::OPERATING => "operating as usual",
        ProconMode::CONFIGURING => "configuring controllers",
        ProconMode::DORMANT => "dormant, no controllers connected",
    }
}

/// Law: configuration that forms zero units — in particular, discovery
/// returning an empty set — always sends a configuring daemon dormant.
pub proof fn lemma_empty_configuration_goes_dormant()
    ensures
        next_mode_spec(ProconMode::CONFIGURING, ModeObservation::UnitsConfigured(0))
            == ProconMode::DORMANT,
{
}

/// Law: a dormant probe that sees any eligible device always returns the
/// daemon to configuration; one that sees none keeps it dormant.
pub proof fn lemma_dormant_probe(n: usize)
    ensures
        n > 0 ==> next_mode_spec(ProconMode::DORMANT, ModeObservation::DevicesProbed(n))
            == ProconMode::CONFIGURING,
        n == 0 ==> next_mode_spec(ProconMode::DORMANT, ModeObservation::DevicesProbed(n))
            == ProconMode::DORMANT,
{
}

} // verus!
