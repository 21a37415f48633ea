use vstd::prelude::*;
use crate::player::{RangedWeaponSlot, Upgrade};
use direction::CardinalDirection;
use std::time::Duration;

verus! {

/// Relies on `direction::CardinalDirection` only as a value to carry: it is
/// handed to the engine unchanged and nothing here looks inside it.
#[verifier::external_type_specification]
#[verifier::external_body]
pub struct ExCardinalDirection(CardinalDirection);

/// A mode change that the simulation engine asks for after an input or a tick.
#[derive(Clone, Copy, Debug, PartialEq, Eq, Structural)]
pub enum GameControlFlow {
    Upgrade,
    GameOver,
    /// A signal that this state machine does not handle yet.
    Reserved,
}

/// Why an action was not carried out. The turn is not spent.
#[derive(Clone, Copy, Debug, PartialEq, Eq, Structural)]
pub enum ActionError {
    /// There is no weapon under the player to pick up.
    NoItemToGet,
    /// The engine refused the action, with its own reason code.
    Refused(u32),
}

/// The class of the weapon lying under the player.
#[derive(Clone, Copy, Debug, PartialEq, Eq, Structural)]
pub enum WeaponClass {
    Ranged,
    Melee,
    /// An item that is neither: it cannot be picked up here.
    Other,
}

/// A stimulus handed to the engine's input handler.
#[derive(Clone, Copy, Debug, PartialEq, Eq)]
pub enum Input {
    Walk(CardinalDirection),
    Wait,
    Upgrade(Upgrade),
}

/// The player actions that a driver can map from its controls.
#[derive(Clone, Copy, Debug, PartialEq, Eq)]
pub enum ControlInput {
    Walk(CardinalDirection),
    Wait,
}

/// A call into the simulation world that an operation of this crate made.
#[derive(Clone, Copy, Debug, PartialEq, Eq)]
pub enum WorldEvent {
    Tick(Duration),
    Input(Input),
    EquipRangedWeaponFromGround(RangedWeaponSlot),
    EquipMeleeWeaponFromGround,
    NpcTurn,
}

/// What the engine answered to an input: a refusal, or success with an
/// optional mode change.
pub type InputOutcome = Result<Option<GameControlFlow>, ActionError>;

/// The engine never hands back a signal that this state machine leaves unhandled.
pub open spec fn signal_is_handled(signal: Option<GameControlFlow>) -> bool {
    signal != Some(GameControlFlow::Reserved)
}

pub open spec fn outcome_is_handled(outcome: InputOutcome) -> bool {
    match outcome {
        Ok(signal) => signal_is_handled(signal),
        Err(_) => true,
    }
}

} // verus!
