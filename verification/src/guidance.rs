//! Guidance state machine: consumes telemetry poll outcomes sequentially,
//! keeps the most recent active slew in memory, and produces one renderable
//! draw state per poll tick, including the stale-slew redisplay behaviour
//! when live guidance data disappears.

use vstd::prelude::*;
use vstd::string::*;

use crate::telemetry::CedarResponse;
use crate::telemetry::ResponseStatus;
use crate::telemetry::ServerMode;
use crate::telemetry::ServerState;

verus! {

/// The visual state of the screen for one tick: either a short status
/// message rendered centered, or live/stale guidance data.
#[derive(Debug, Clone, PartialEq, Eq)]
pub enum DrawState {
    /// A short status string to render centered.
    Message(String),
    /// Guidance data to render; the second component is `None` for a live
    /// snapshot and `Some(phase)` for a frozen snapshot being redisplayed
    /// with the stale-animation indicator at that phase.
    Operating(ServerState, Option<u32>),
}

/// Step by which the stale-animation phase advances on every stale tick.
pub const STALE_PHASE_STEP: u32 = 9;

/// State that persists across poll ticks.
#[derive(Debug, Clone, PartialEq, Eq)]
pub struct GuidanceMemory {
    /// The most recent snapshot in which a slew was active; cleared when a
    /// fresh plate solution arrives while no slew is active.
    pub last_active_snapshot: Option<ServerState>,
    /// Phase of the stale animation, in degrees, always in `[0, 360)`.
    pub stale_animation_phase: u32,
}

/// The status label displayed for each non-success poll outcome, and the
/// debug label of `Success` for totality (it is never displayed).
pub open spec fn spec_status_text(status: ResponseStatus) -> Seq<char> {
    match status {
        ResponseStatus::Success => "Success"@,
        ResponseStatus::Disconnected => "Disconnected"@,
        ResponseStatus::RpcFailed => "RpcFailed"@,
        ResponseStatus::NoState => "NoState"@,
    }
}

/// True exactly when this tick redisplays the remembered snapshot in stale
/// mode: the server operates without an active slew, no fresh plate
/// solution clears the memory, and a remembered snapshot exists.
pub open spec fn spec_stale_redisplay(mem: GuidanceMemory, outcome: CedarResponse) -> bool {
    &&& outcome.status == ResponseStatus::Success
    &&& match outcome.server_state {
        Some(s) => {
            &&& s.server_mode == ServerMode::Operating
            &&& !s.has_slew_request
            &&& !s.has_solution
            &&& mem.last_active_snapshot is Some
        },
        None => false,
    }
}

/// The slew memory after one tick: a live slewing snapshot is stored, a
/// fresh plate solution while not slewing clears it, and every other
/// outcome (in particular every non-success outcome) leaves it unchanged.
pub open spec fn spec_next_last(mem: GuidanceMemory, outcome: CedarResponse) -> Option<
    ServerState,
> {
    if outcome.status == ResponseStatus::Success {
        match outcome.server_state {
            Some(s) => {
                if s.server_mode == ServerMode::Operating {
                    if s.has_slew_request {
                        Some(s)
                    } else if s.has_solution {
                        None
                    } else {
                        mem.last_active_snapshot
                    }
                } else {
                    mem.last_active_snapshot
                }
            },
            None => mem.last_active_snapshot,
        }
    } else {
        mem.last_active_snapshot
    }
}

/// The animation phase after one tick: it advances by the fixed step,
/// wrapping at 360, on every stale-redisplay tick, and stays put otherwise.
pub open spec fn spec_next_phase(mem: GuidanceMemory, outcome: CedarResponse) -> u32 {
    if spec_stale_redisplay(mem, outcome) {
        ((mem.stale_animation_phase + STALE_PHASE_STEP) % 360) as u32
    } else {
        mem.stale_animation_phase
    }
}

impl GuidanceMemory {
    /// Well-formedness: the animation phase stays within one revolution.
    pub open spec fn inv(&self) -> bool {
        self.stale_animation_phase < 360
    }

    /// Fresh memory: no remembered slew, animation at phase zero.
    pub fn new() -> (r: GuidanceMemory)
        ensures
            r.last_active_snapshot is None,
            r.stale_animation_phase == 0,
            r.inv(),
    {
        GuidanceMemory { last_active_snapshot: None, stale_animation_phase: 0 }
    }

    /// Consumes one poll outcome and produces the draw state for this tick.
    ///
    /// Transition rules, in order: a non-success outcome yields its status
    /// label and leaves the memory untouched; a calibrating server yields
    /// "Calibrating"; setup or unknown modes yield "Setup Mode"; an
    /// operating server with an active slew stores and displays the live
    /// snapshot; without an active slew, a fresh plate solution first
    /// clears the memory, then the remembered snapshot (if any) is
    /// redisplayed stale, and otherwise "No Target" is shown.
    pub fn advance(&mut self, outcome: &CedarResponse) -> (r: DrawState)
        requires
            old(self).inv(),
        ensures
            final(self).inv(),
            final(self).last_active_snapshot == spec_next_last(*old(self), *outcome),
            final(self).stale_animation_phase == spec_next_phase(*old(self), *outcome),
            outcome.status != ResponseStatus::Success ==> (r matches DrawState::Message(msg)
                && msg@ == spec_status_text(outcome.status)),
            outcome.status == ResponseStatus::Success && outcome.server_state is None ==> (
            r matches DrawState::Message(msg) && msg@ == "..."@),
            match outcome.server_state {
                Some(s) => outcome.status == ResponseStatus::Success ==> {
                    &&& s.server_mode == ServerMode::Calibrating ==> (
                    r matches DrawState::Message(msg) && msg@ == "Calibrating"@)
                    &&& (s.server_mode == ServerMode::Setup || s.server_mode
                        == ServerMode::Unknown) ==> (r matches DrawState::Message(msg) && msg@
                        == "Setup Mode"@)
                    &&& s.server_mode == ServerMode::Operating && s.has_slew_request ==> r
                        == DrawState::Operating(s, None)
                    &&& spec_stale_redisplay(*old(self), *outcome) ==> (
                    old(self).last_active_snapshot matches Some(remembered) && r
                        == DrawState::Operating(
                        remembered,
                        Some(old(self).stale_animation_phase),
                    ))
                    &&& s.server_mode == ServerMode::Operating && !s.has_slew_request && (
                    s.has_solution || old(self).last_active_snapshot is None) ==> (
                    r matches DrawState::Message(msg) && msg@ == "No Target"@)
                },
                None => true,
            },
    {
        if outcome.status != ResponseStatus::Success {
            return DrawState::Message(describe(outcome.status));
        }
        match &outcome.server_state {
            Some(state) => {
                match state.server_mode {
                    ServerMode::Operating => {
                        if !state.has_slew_request {
                            if state.has_solution {
                                self.last_active_snapshot = None;
                            }
                            match self.last_active_snapshot {
                                Some(remembered) => {
                                    let phase = self.stale_animation_phase;
                                    self.stale_animation_phase = (phase + STALE_PHASE_STEP) % 360;
                                    DrawState::Operating(remembered, Some(phase))
                                },
                                None => DrawState::Message(String::from_str("No Target")),
                            }
                        } else {
                            self.last_active_snapshot = Some(*state);
                            DrawState::Operating(*state, None)
                        }
                    },
                    ServerMode::Calibrating => DrawState::Message(String::from_str("Calibrating")),
                    _ => DrawState::Message(String::from_str("Setup Mode")),
                }
            },
            None => DrawState::Message(String::from_str("...")),
        }
    }
}

/// Law: a non-success poll outcome never touches the guidance memory: the
/// remembered slew stays, the animation phase stays, and the tick is never
/// treated as a stale redisplay (its draw state is a message).
pub proof fn lemma_non_success_keeps_memory(mem: GuidanceMemory, outcome: CedarResponse)
    requires
        outcome.status != ResponseStatus::Success,
    ensures
        spec_next_last(mem, outcome) == mem.last_active_snapshot,
        spec_next_phase(mem, outcome) == mem.stale_animation_phase,
        !spec_stale_redisplay(mem, outcome),
{
}

/// Maps each poll status to its distinct human-readable label.
pub fn describe(status: ResponseStatus) -> (r: String)
    ensures
        r@ == spec_status_text(status),
{
    match status {
        ResponseStatus::Success => String::from_str("Success"),
        ResponseStatus::Disconnected => String::from_str("Disconnected"),
        ResponseStatus::RpcFailed => String::from_str("RpcFailed"),
        ResponseStatus::NoState => String::from_str("NoState"),
    }
}

} // verus!
