use vstd::prelude::*;
use crate::engine::{ActionError, GameControlFlow, InputOutcome, WeaponClass};

verus! {

/// The phase of play, which alone decides which operations are legal.
#[derive(Clone, Copy, Debug, PartialEq, Eq, Structural)]
pub enum Mode {
    Running,
    Upgrade,
    GetRangedWeapon,
    GetMeleeWeapon,
    GameOver,
}

/// An operation offered by some token, together with what the engine or the
/// world reported while it ran.
#[derive(Clone, Copy, Debug)]
pub enum Operation {
    Tick(Option<GameControlFlow>),
    Walk(InputOutcome),
    Wait(InputOutcome),
    Get(Option<WeaponClass>),
    ApplyUpgrade(InputOutcome),
    Cancel,
    CommitRanged,
    CommitMelee,
}

/// The mode that an engine signal leads to; none for a signal left unhandled.
pub open spec fn mode_after_signal(signal: Option<GameControlFlow>) -> Option<Mode> {
    match signal {
        None => Some(Mode::Running),
        Some(GameControlFlow::Upgrade) => Some(Mode::Upgrade),
        Some(GameControlFlow::GameOver) => Some(Mode::GameOver),
        Some(GameControlFlow::Reserved) => None,
    }
}

/// A refused input keeps the mode it came from; an accepted one follows the signal.
pub open spec fn mode_after_input(from: Mode, outcome: InputOutcome) -> Option<Mode> {
    match outcome {
        Err(_) => Some(from),
        Ok(signal) => mode_after_signal(signal),
    }
}

/// A weapon under the player opens the matching pickup choice; anything else
/// leaves play running.
pub open spec fn mode_after_get(under_player: Option<WeaponClass>) -> Mode {
    match under_player {
        Some(WeaponClass::Ranged) => Mode::GetRangedWeapon,
        Some(WeaponClass::Melee) => Mode::GetMeleeWeapon,
        _ => Mode::Running,
    }
}

/// What an input operation reports to its caller.
pub open spec fn input_result(outcome: InputOutcome) -> Result<(), ActionError> {
    match outcome {
        Err(e) => Err(e),
        Ok(_) => Ok(()),
    }
}

/// What `get` reports to its caller.
pub open spec fn get_result(under_player: Option<WeaponClass>) -> Result<(), ActionError> {
    if mode_after_get(under_player) == Mode::Running {
        Err(ActionError::NoItemToGet)
    } else {
        Ok(())
    }
}

/// The transition table: the mode that `op` leads to from `from`, or none where
/// `op` is not offered in `from` (or the engine sent a signal left unhandled).
pub open spec fn step(from: Mode, op: Operation) -> Option<Mode> {
    match (from, op) {
        (Mode::Running, Operation::Tick(signal)) => mode_after_signal(signal),
        (Mode::Running, Operation::Walk(outcome)) => mode_after_input(Mode::Running, outcome),
        (Mode::Running, Operation::Wait(outcome)) => mode_after_input(Mode::Running, outcome),
        (Mode::Running, Operation::Get(under_player)) => Some(mode_after_get(under_player)),
        (Mode::Upgrade, Operation::ApplyUpgrade(outcome)) => mode_after_input(Mode::Upgrade, outcome),
        (Mode::Upgrade, Operation::Cancel) => Some(Mode::Running),
        (Mode::GetRangedWeapon, Operation::CommitRanged) => Some(Mode::Running),
        (Mode::GetRangedWeapon, Operation::Cancel) => Some(Mode::Running),
        (Mode::GetMeleeWeapon, Operation::CommitMelee) => Some(Mode::Running),
        (Mode::GetMeleeWeapon, Operation::Cancel) => Some(Mode::Running),
        _ => None,
    }
}

/// The engine reported no signal that this state machine leaves unhandled.
pub open spec fn is_handled(op: Operation) -> bool {
    match op {
        Operation::Tick(signal) => mode_after_signal(signal) is Some,
        Operation::Walk(outcome) => mode_after_input(Mode::Running, outcome) is Some,
        Operation::Wait(outcome) => mode_after_input(Mode::Running, outcome) is Some,
        Operation::ApplyUpgrade(outcome) => mode_after_input(Mode::Upgrade, outcome) is Some,
        _ => true,
    }
}

/// The engine answered the operation by ending the game.
pub open spec fn signals_game_over(op: Operation) -> bool {
    match op {
        Operation::Tick(signal) => signal == Some(GameControlFlow::GameOver),
        Operation::Walk(outcome) => outcome == InputOutcome::Ok(Some(GameControlFlow::GameOver)),
        Operation::Wait(outcome) => outcome == InputOutcome::Ok(Some(GameControlFlow::GameOver)),
        Operation::ApplyUpgrade(outcome) => outcome == InputOutcome::Ok(Some(GameControlFlow::GameOver)),
        _ => false,
    }
}

/// The operations that each mode offers are exactly those of the table:
/// `tick`, `walk`, `wait` and `get` in `Running`; `upgrade` and `cancel` in
/// `Upgrade`; a commit and `cancel` in each pickup mode; nothing in `GameOver`.
pub proof fn lemma_operations_of_each_mode(from: Mode, op: Operation)
    requires
        is_handled(op),
    ensures
        step(from, op) is Some <==> match from {
            Mode::Running => op is Tick || op is Walk || op is Wait || op is Get,
            Mode::Upgrade => op is ApplyUpgrade || op is Cancel,
            Mode::GetRangedWeapon => op is CommitRanged || op is Cancel,
            Mode::GetMeleeWeapon => op is CommitMelee || op is Cancel,
            Mode::GameOver => false,
        },
{
}

/// `GameOver` is terminal: no operation leads anywhere from it.
pub proof fn lemma_game_over_is_terminal(op: Operation)
    ensures
        step(Mode::GameOver, op) is None,
{
}

/// Cancelling an upgrade or a pickup choice always returns to `Running`.
pub proof fn lemma_cancel_returns_to_running(from: Mode)
    requires
        from == Mode::Upgrade || from == Mode::GetRangedWeapon || from == Mode::GetMeleeWeapon,
    ensures
        step(from, Operation::Cancel) == Some(Mode::Running),
{
}

/// Whatever mode an operation starts from, an engine signal of game over ends
/// the game.
pub proof fn lemma_game_over_signal_ends_game(from: Mode, op: Operation)
    requires
        step(from, op) is Some,
        signals_game_over(op),
    ensures
        step(from, op) == Some(Mode::GameOver),
{
}

} // verus!
