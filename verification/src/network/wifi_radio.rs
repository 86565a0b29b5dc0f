//! The state of a radio: what the operator prefers, the flight mode, and the kernel's
//! blocks.

use crate::network::rfkill::RadioBlockState;
use vstd::prelude::*;

verus! {

/// Whether a radio is on.
#[derive(Debug, Clone, Copy, PartialEq, Eq, Structural)]
pub enum RadioState {
    Enabled,
    Disabled,
}

impl RadioState {
    /// Whether the radio is on.
    pub fn is_enabled(self) -> (r: bool)
        ensures
            r == (self is Enabled),
    {
        match self {
            RadioState::Enabled => true,
            RadioState::Disabled => false,
        }
    }

    /// The state of a switch.
    pub fn from_bool(b: bool) -> (r: RadioState)
        ensures
            b == (r is Enabled),
    {
        if b {
            RadioState::Enabled
        } else {
            RadioState::Disabled
        }
    }
}

/// Why a radio is in its state.
#[derive(Debug, Clone, Copy, PartialEq, Eq, Structural)]
pub enum RadioSource {
    /// The operator prefers it so.
    Preference,
    /// The flight mode forces it off.
    FlightMode,
    /// The hardware forces it off.
    HardwareBlock,
}

/// The state of a radio and its reasons.
#[derive(Debug, Clone, Copy, PartialEq, Eq, Structural)]
pub struct RadioStateView {
    /// What the radio does.
    pub effective_state: RadioState,
    /// What the operator prefers.
    pub preference: RadioState,
    /// Whether the hardware blocks the radio.
    pub hard_blocked: bool,
    /// Whether the kernel blocks the radio.
    pub soft_blocked: bool,
    /// Why the radio is in its state.
    pub source: RadioSource,
}

/// Whether the hardware blocks, as far as anything is known.
pub open spec fn hard(block: Option<RadioBlockState>) -> bool {
    block matches Some(b) && b.hard_blocked
}

/// Whether the kernel blocks, as far as anything is known.
pub open spec fn soft(block: Option<RadioBlockState>) -> bool {
    block matches Some(b) && b.soft_blocked
}

/// The state of a radio.
pub open spec fn composed(preference: RadioState, flight_mode: bool, block: Option<RadioBlockState>) -> RadioStateView {
    RadioStateView {
        effective_state: if hard(block) || flight_mode {
            RadioState::Disabled
        } else {
            preference
        },
        preference,
        hard_blocked: hard(block),
        soft_blocked: soft(block),
        source: if hard(block) {
            RadioSource::HardwareBlock
        } else if flight_mode {
            RadioSource::FlightMode
        } else {
            RadioSource::Preference
        },
    }
}

/// Composes the state of a radio: it is on exactly when the operator prefers it on, the
/// flight mode is off and the hardware does not block it. Of two reasons the hardware's
/// is named first.
pub fn resolve(preference: RadioState, flight_mode: bool, block: Option<RadioBlockState>) -> (r: RadioStateView)
    ensures
        r == composed(preference, flight_mode, block),
        r.effective_state is Enabled <==> (!flight_mode && !hard(block) && preference is Enabled),
        r.preference == preference,
        r.hard_blocked == hard(block),
        r.soft_blocked == soft(block),
        r.source == if hard(block) {
            RadioSource::HardwareBlock
        } else if flight_mode {
            RadioSource::FlightMode
        } else {
            RadioSource::Preference
        },
{
    let (hard_blocked, soft_blocked) = match block {
        Some(b) => (b.hard_blocked, b.soft_blocked),
        None => (false, false),
    };
    let (effective_state, source) = if hard_blocked {
        (RadioState::Disabled, RadioSource::HardwareBlock)
    } else if flight_mode {
        (RadioState::Disabled, RadioSource::FlightMode)
    } else {
        (preference, RadioSource::Preference)
    };
    RadioStateView { effective_state, preference, hard_blocked, soft_blocked, source }
}

/// Each block is the one of its own kind, and without a reading there is none.
pub proof fn blocks_are_those_that_were_read(b: RadioBlockState)
    ensures
        hard(Some(b)) <==> b.hard_blocked,
        soft(Some(b)) <==> b.soft_blocked,
        !hard(None),
        !soft(None),
{
}

/// A radio is on exactly where the operator wants it on, the flight mode is off and the
/// hardware does not block it; a block of the kernel alone does not put it off. What
/// decided is named: the hardware before the flight mode, and the flight mode before the
/// operator.
pub proof fn radios_are_on_where_nothing_is_against_it(preference: RadioState, flight_mode: bool, b: RadioBlockState)
    ensures
        composed(preference, flight_mode, Some(b)).effective_state is Enabled <==> preference is Enabled && !flight_mode
            && !b.hard_blocked,
        composed(preference, flight_mode, None).effective_state is Enabled <==> preference is Enabled && !flight_mode,
        composed(preference, flight_mode, Some(b)).source == RadioSource::HardwareBlock <==> b.hard_blocked,
        composed(preference, flight_mode, Some(b)).source == RadioSource::FlightMode <==> flight_mode && !b.hard_blocked,
        composed(preference, flight_mode, None).source == RadioSource::FlightMode <==> flight_mode,
        composed(preference, flight_mode, Some(b)).preference == preference,
        composed(preference, flight_mode, Some(b)).hard_blocked == b.hard_blocked,
        composed(preference, flight_mode, Some(b)).soft_blocked == b.soft_blocked,
        !composed(preference, flight_mode, None).hard_blocked,
        !composed(preference, flight_mode, None).soft_blocked,
{
}

} // verus!
