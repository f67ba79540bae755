//! The per-frame action bus: transient player events carried from the input
//! translators to the movement resolver.
//!
//! Actions live for exactly one frame.  Producers append to a plain ordered
//! queue (`Vec<PlayerAction>`) and the movement resolver drains it in
//! emission order; nothing is buffered across frames.

use vstd::prelude::*;

verus! {

/// A handle to a character: its index in the world's character arena.
/// An action whose target index is out of range is silently dropped, which
/// models events addressed to an entity that no longer exists.
pub type EntityId = usize;

/// A transient input event targeting one character.
///
/// - `Move`: horizontal steering, deflection per-mille in `[-1000, 1000]`;
/// - `Jump`: request to jump, honoured only while grounded;
/// - `Aim`: an unnormalised aim direction, components per-mille in
///   `[-1000, 1000]`;
/// - `Fire`: latch the character's fire intent for this frame.
#[derive(Clone, Copy, PartialEq, Eq, Debug)]
pub enum PlayerAction {
    Move(EntityId, i32),
    Jump(EntityId),
    Aim(EntityId, i32, i32),
    Fire(EntityId),
}

impl PlayerAction {
    /// The character the action addresses.
    pub open spec fn target(self) -> EntityId {
        match self {
            PlayerAction::Move(e, _) => e,
            PlayerAction::Jump(e) => e,
            PlayerAction::Aim(e, _, _) => e,
            PlayerAction::Fire(e) => e,
        }
    }

    /// Analog deflections are per-mille readings of sticks in `[-1, 1]`, so
    /// every emitted action carries components within `[-1000, 1000]`.
    pub open spec fn wf(self) -> bool {
        match self {
            PlayerAction::Move(_, dir) => -1000 <= dir <= 1000,
            PlayerAction::Jump(_) => true,
            PlayerAction::Aim(_, x, y) => -1000 <= x <= 1000 && -1000 <= y <= 1000,
            PlayerAction::Fire(_) => true,
        }
    }
}

/// Every action in a queue is well-formed.
pub open spec fn actions_wf(s: Seq<PlayerAction>) -> bool {
    forall|i: int| 0 <= i < s.len() ==> (#[trigger] s[i]).wf()
}

} // verus!
