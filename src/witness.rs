use vstd::prelude::*;
use crate::engine::{
    outcome_is_handled, signal_is_handled, ActionError, GameControlFlow, Input, InputOutcome,
    WeaponClass, WorldEvent,
};
use crate::player::{Player, RangedWeaponSlot, Upgrade as PlayerUpgrade};
use crate::protocol::{
    get_result, input_result, mode_after_get, mode_after_input, mode_after_signal, step, Mode,
    Operation,
};
use direction::CardinalDirection;
use std::time::Duration;

verus! {

/// The upgrades the player holds after `input` met `outcome`: an upgrade that
/// the engine accepted is added last.
pub open spec fn upgrades_after(
    upgrades: Seq<PlayerUpgrade>,
    input: Input,
    outcome: InputOutcome,
) -> Seq<PlayerUpgrade> {
    match (input, outcome) {
        (Input::Upgrade(u), Ok(_)) => upgrades.push(u),
        _ => upgrades,
    }
}

/// The simulation world as this crate sees it: the calls made into it that no
/// one has collected yet, and the player.
pub struct World {
    events: Vec<WorldEvent>,
    player: Player,
}

impl World {
    /// The calls made into the world since the last collection, oldest first.
    pub closed spec fn pending_events(&self) -> Seq<WorldEvent> {
        self.events@
    }

    /// The upgrades the player holds, oldest first.
    pub closed spec fn upgrades(&self) -> Seq<PlayerUpgrade> {
        self.player@
    }

    fn new() -> (r: World)
        ensures
            r.pending_events() == Seq::<WorldEvent>::empty(),
            r.upgrades() == Seq::<PlayerUpgrade>::empty(),
    {
        World { events: Vec::new(), player: Player::new() }
    }

    fn record(&mut self, event: WorldEvent)
        ensures
            final(self).pending_events() == old(self).pending_events().push(event),
            final(self).upgrades() == old(self).upgrades(),
    {
        self.events.push(event);
    }

    fn handle_input(&mut self, input: Input, outcome: InputOutcome)
        ensures
            final(self).pending_events() == old(self).pending_events().push(
                WorldEvent::Input(input),
            ),
            final(self).upgrades() == upgrades_after(old(self).upgrades(), input, outcome),
    {
        self.record(WorldEvent::Input(input));
        if let (Input::Upgrade(u), Ok(_)) = (input, outcome) {
            self.player.add_upgrade(u);
        }
    }

    /// The player, read-only.
    pub fn player(&self) -> (r: &Player)
        ensures
            r@ == self.upgrades(),
    {
        &self.player
    }

    /// The calls made into the world that no one has collected yet, oldest first.
    pub fn pending(&self) -> (r: &Vec<WorldEvent>)
        ensures
            r@ == self.pending_events(),
    {
        &self.events
    }
}

/// Proof that a token was issued by this state machine; nothing outside this
/// module can make one.
struct Private;

/// Permission to advance play by a tick or a player action.
pub struct Running(Private);

/// Permission to settle an upgrade choice.
pub struct Upgrade(Private);

/// Permission to settle the pickup of a ranged weapon.
pub struct GetRangedWeapon(Private);

/// Permission to settle the pickup of a melee weapon.
pub struct GetMeleeWeapon(Private);

/// The game's current legal continuation: the one token the caller holds, or
/// the end of the game.
pub enum Witness {
    Running(Running),
    Upgrade(Upgrade),
    GetRangedWeapon(GetRangedWeapon),
    GetMeleeWeapon(GetMeleeWeapon),
    GameOver,
}

impl Witness {
    pub open spec fn mode(&self) -> Mode {
        match self {
            Witness::Running(_) => Mode::Running,
            Witness::Upgrade(_) => Mode::Upgrade,
            Witness::GetRangedWeapon(_) => Mode::GetRangedWeapon,
            Witness::GetMeleeWeapon(_) => Mode::GetMeleeWeapon,
            Witness::GameOver => Mode::GameOver,
        }
    }

    fn running(private: Private) -> (r: Self)
        ensures
            r.mode() == Mode::Running,
    {
        Witness::Running(Running(private))
    }

    fn upgrade(private: Private) -> (r: Self)
        ensures
            r.mode() == Mode::Upgrade,
    {
        Witness::Upgrade(Upgrade(private))
    }

    /// The witness that follows an engine signal that this state machine handles.
    fn after_signal(private: Private, signal: Option<GameControlFlow>) -> (r: Self)
        requires
            signal_is_handled(signal),
        ensures
            mode_after_signal(signal) == Some(r.mode()),
    {
        match signal {
            None => Witness::running(private),
            Some(GameControlFlow::Upgrade) => Witness::upgrade(private),
            Some(GameControlFlow::GameOver) => Witness::GameOver,
            Some(GameControlFlow::Reserved) => vstd::pervasive::unreached(),
        }
    }
}

/// Exclusive owner of the simulation world. It offers no way to change the
/// world but through a token.
pub struct Game {
    inner_game: World,
}

impl Game {
    pub closed spec fn world(&self) -> World {
        self.inner_game
    }

    /// Hands `input` to the engine, whose answer was `outcome`, and mints the
    /// next witness: the mode `from` again on a refusal, else the mode the
    /// signal asks for.
    fn witness_handle_input(
        &mut self,
        input: Input,
        outcome: InputOutcome,
        from: Mode,
        private: Private,
    ) -> (r: (Witness, Result<(), ActionError>))
        requires
            from == Mode::Running || from == Mode::Upgrade,
            outcome_is_handled(outcome),
        ensures
            mode_after_input(from, outcome) == Some(r.0.mode()),
            r.1 == input_result(outcome),
            final(self).world().pending_events() == old(self).world().pending_events().push(
                WorldEvent::Input(input),
            ),
            final(self).world().upgrades() == upgrades_after(
                old(self).world().upgrades(),
                input,
                outcome,
            ),
    {
        self.inner_game.handle_input(input, outcome);
        match outcome {
            Err(e) => {
                if from == Mode::Upgrade {
                    (Witness::upgrade(private), Err(e))
                } else {
                    (Witness::running(private), Err(e))
                }
            },
            Ok(signal) => (Witness::after_signal(private, signal), Ok(())),
        }
    }

    /// The world, read-only.
    pub fn inner_ref(&self) -> (r: &World)
        ensures
            *r == self.world(),
    {
        &self.inner_game
    }

    /// Sets the world aside for storage; only a `Running` token allows it.
    pub fn into_running_game(self, running: Running) -> (r: RunningGame)
        ensures
            r.world() == self.world(),
    {
        RunningGame::new(self, running)
    }

    /// Lets the non-player characters take their turn.
    pub fn npc_turn(&mut self)
        ensures
            final(self).world().pending_events() == old(self).world().pending_events().push(
                WorldEvent::NpcTurn,
            ),
            final(self).world().upgrades() == old(self).world().upgrades(),
    {
        self.inner_game.record(WorldEvent::NpcTurn)
    }

    /// Hands out the calls made into the world since the last collection,
    /// oldest first, and forgets them: each call yields only what is new.
    pub fn events(&mut self) -> (r: Vec<WorldEvent>)
        ensures
            r@ == old(self).world().pending_events(),
            final(self).world().pending_events() == Seq::<WorldEvent>::empty(),
            final(self).world().upgrades() == old(self).world().upgrades(),
    {
        let mut taken: Vec<WorldEvent> = Vec::new();
        std::mem::swap(&mut self.inner_game.events, &mut taken);
        taken
    }

    /// The player, read-only.
    pub fn player(&self) -> (r: &Player)
        ensures
            r@ == self.world().upgrades(),
    {
        self.inner_game.player()
    }
}

/// A world set aside while play was running, and so resumable as ordinary play.
pub struct RunningGame {
    game: World,
}

impl RunningGame {
    pub closed spec fn world(&self) -> World {
        self.game
    }

    /// Only a `Running` token can be traded for a snapshot; it is used up.
    pub fn new(game: Game, running: Running) -> (r: Self)
        ensures
            r.world() == game.world(),
    {
        let _ = running;
        RunningGame { game: game.inner_game }
    }

    /// The stored world, read-only.
    pub fn world_ref(&self) -> (r: &World)
        ensures
            *r == self.world(),
    {
        &self.game
    }

    /// Rebuilds a stored snapshot from its parts, as read back from storage.
    pub fn from_parts(events: Vec<WorldEvent>, upgrades: Vec<PlayerUpgrade>) -> (r: Self)
        ensures
            r.world().pending_events() == events@,
            r.world().upgrades() == upgrades@,
    {
        RunningGame { game: World { events, player: Player::from_upgrades(upgrades) } }
    }

    /// Resumes the stored world, with a fresh `Running` token.
    pub fn into_game(self) -> (r: (Game, Running))
        ensures
            r.0.world() == self.world(),
    {
        (Game { inner_game: self.game }, Running(Private))
    }
}

/// Starts a playthrough: a world that nothing has been done to, and the first
/// `Running` token.
pub fn new_game() -> (r: (Game, Running))
    ensures
        r.0.world().pending_events() == Seq::<WorldEvent>::empty(),
        r.0.world().upgrades() == Seq::<PlayerUpgrade>::empty(),
{
    (Game { inner_game: World::new() }, Running(Private))
}

impl Running {
    pub fn into_witness(self) -> (r: Witness)
        ensures
            r.mode() == Mode::Running,
    {
        Witness::Running(self)
    }

    /// Lets `since_last_tick` of time pass in the world; the engine answered
    /// with `signal`.
    pub fn tick(
        self,
        game: &mut Game,
        since_last_tick: Duration,
        signal: Option<GameControlFlow>,
    ) -> (r: Witness)
        requires
            signal_is_handled(signal),
        ensures
            step(Mode::Running, Operation::Tick(signal)) == Some(r.mode()),
            final(game).world().pending_events() == old(game).world().pending_events().push(
                WorldEvent::Tick(since_last_tick),
            ),
            final(game).world().upgrades() == old(game).world().upgrades(),
    {
        let Running(private) = self;
        game.inner_game.record(WorldEvent::Tick(since_last_tick));
        Witness::after_signal(private, signal)
    }

    /// Walks the player one step; the engine answered with `outcome`.
    pub fn walk(self, game: &mut Game, direction: CardinalDirection, outcome: InputOutcome) -> (r: (
        Witness,
        Result<(), ActionError>,
    ))
        requires
            outcome_is_handled(outcome),
        ensures
            step(Mode::Running, Operation::Walk(outcome)) == Some(r.0.mode()),
            r.1 == input_result(outcome),
            final(game).world().pending_events() == old(game).world().pending_events().push(
                WorldEvent::Input(Input::Walk(direction)),
            ),
            final(game).world().upgrades() == old(game).world().upgrades(),
    {
        let Running(private) = self;
        game.witness_handle_input(Input::Walk(direction), outcome, Mode::Running, private)
    }

    /// Lets the player wait a turn; the engine answered with `outcome`.
    pub fn wait(self, game: &mut Game, outcome: InputOutcome) -> (r: (
        Witness,
        Result<(), ActionError>,
    ))
        requires
            outcome_is_handled(outcome),
        ensures
            step(Mode::Running, Operation::Wait(outcome)) == Some(r.0.mode()),
            r.1 == input_result(outcome),
            final(game).world().pending_events() == old(game).world().pending_events().push(
                WorldEvent::Input(Input::Wait),
            ),
            final(game).world().upgrades() == old(game).world().upgrades(),
    {
        let Running(private) = self;
        game.witness_handle_input(Input::Wait, outcome, Mode::Running, private)
    }

    /// Starts picking up what lies under the player, whose class the world
    /// reported as `under_player`; the world itself is only read. Without a ranged or melee weapon there,
    /// play stays `Running` and `NoItemToGet` is reported.
    pub fn get(self, _game: &Game, under_player: Option<WeaponClass>) -> (r: (
        Witness,
        Result<(), ActionError>,
    ))
        ensures
            step(Mode::Running, Operation::Get(under_player)) == Some(r.0.mode()),
            r.0.mode() == mode_after_get(under_player),
            r.1 == get_result(under_player),
    {
        let Running(private) = self;
        match under_player {
            Some(WeaponClass::Ranged) => (
                Witness::GetRangedWeapon(GetRangedWeapon(private)),
                Ok(()),
            ),
            Some(WeaponClass::Melee) => (Witness::GetMeleeWeapon(GetMeleeWeapon(private)), Ok(())),
            _ => (Witness::running(private), Err(ActionError::NoItemToGet)),
        }
    }
}

impl Upgrade {
    /// Applies the chosen upgrade; the engine answered with `outcome`. On a
    /// refusal the choice is still owed, so the witness is `Upgrade` again.
    pub fn upgrade(self, game: &mut Game, upgrade: PlayerUpgrade, outcome: InputOutcome) -> (r: (
        Witness,
        Result<(), ActionError>,
    ))
        requires
            outcome_is_handled(outcome),
        ensures
            step(Mode::Upgrade, Operation::ApplyUpgrade(outcome)) == Some(r.0.mode()),
            r.1 == input_result(outcome),
            final(game).world().pending_events() == old(game).world().pending_events().push(
                WorldEvent::Input(Input::Upgrade(upgrade)),
            ),
            final(game).world().upgrades() == (match outcome {
                Ok(_) => old(game).world().upgrades().push(upgrade),
                Err(_) => old(game).world().upgrades(),
            }),
    {
        let Upgrade(private) = self;
        game.witness_handle_input(Input::Upgrade(upgrade), outcome, Mode::Upgrade, private)
    }

    /// Declines the upgrade; play goes on and the world is not touched.
    pub fn cancel(self) -> (r: Witness)
        ensures
            step(Mode::Upgrade, Operation::Cancel) == Some(r.mode()),
            r.mode() == Mode::Running,
    {
        let Upgrade(private) = self;
        Witness::running(private)
    }
}

impl GetRangedWeapon {
    /// Equips the weapon from the ground into `slot`, then play goes on.
    pub fn commit(self, game: &mut Game, slot: RangedWeaponSlot) -> (r: Witness)
        ensures
            step(Mode::GetRangedWeapon, Operation::CommitRanged) == Some(r.mode()),
            r.mode() == Mode::Running,
            final(game).world().pending_events() == old(game).world().pending_events().push(
                WorldEvent::EquipRangedWeaponFromGround(slot),
            ),
            final(game).world().upgrades() == old(game).world().upgrades(),
    {
        game.inner_game.record(WorldEvent::EquipRangedWeaponFromGround(slot));
        let GetRangedWeapon(private) = self;
        Witness::running(private)
    }

    /// Leaves the weapon where it lies; play goes on and the world is not touched.
    pub fn cancel(self) -> (r: Witness)
        ensures
            step(Mode::GetRangedWeapon, Operation::Cancel) == Some(r.mode()),
            r.mode() == Mode::Running,
    {
        let GetRangedWeapon(private) = self;
        Witness::running(private)
    }
}

impl GetMeleeWeapon {
    /// Equips the melee weapon from the ground, then play goes on.
    pub fn commit(self, game: &mut Game) -> (r: Witness)
        ensures
            step(Mode::GetMeleeWeapon, Operation::CommitMelee) == Some(r.mode()),
            r.mode() == Mode::Running,
            final(game).world().pending_events() == old(game).world().pending_events().push(
                WorldEvent::EquipMeleeWeaponFromGround,
            ),
            final(game).world().upgrades() == old(game).world().upgrades(),
    {
        game.inner_game.record(WorldEvent::EquipMeleeWeaponFromGround);
        let GetMeleeWeapon(private) = self;
        Witness::running(private)
    }

    /// Leaves the weapon where it lies; play goes on and the world is not touched.
    pub fn cancel(self) -> (r: Witness)
        ensures
            step(Mode::GetMeleeWeapon, Operation::Cancel) == Some(r.mode()),
            r.mode() == Mode::Running,
    {
        let GetMeleeWeapon(private) = self;
        Witness::running(private)
    }
}

} // verus!
