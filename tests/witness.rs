use direction::CardinalDirection;
use game_witness::engine::{ActionError, GameControlFlow, Input, WeaponClass, WorldEvent};
use game_witness::player::{RangedWeaponSlot, Upgrade, UpgradeLevel, UpgradeType};
use game_witness::witness::{
    new_game, Game, GetMeleeWeapon, GetRangedWeapon, Running, RunningGame, Witness,
};
use std::time::Duration;

fn toughness_1() -> Upgrade {
    Upgrade { typ: UpgradeType::Toughness, level: UpgradeLevel::Level1 }
}

fn expect_running(witness: Witness) -> Running {
    match witness {
        Witness::Running(running) => running,
        _ => panic!("expected a Running witness"),
    }
}

fn expect_upgrade(witness: Witness) -> game_witness::witness::Upgrade {
    match witness {
        Witness::Upgrade(upgrade) => upgrade,
        _ => panic!("expected an Upgrade witness"),
    }
}

fn ranged_pickup(game: &mut Game, running: Running) -> GetRangedWeapon {
    match running.get(game, Some(WeaponClass::Ranged)) {
        (Witness::GetRangedWeapon(token), Ok(())) => token,
        _ => panic!("expected a GetRangedWeapon witness"),
    }
}

fn melee_pickup(game: &mut Game, running: Running) -> GetMeleeWeapon {
    match running.get(game, Some(WeaponClass::Melee)) {
        (Witness::GetMeleeWeapon(token), Ok(())) => token,
        _ => panic!("expected a GetMeleeWeapon witness"),
    }
}

#[test]
fn new_game_wait_without_signal_keeps_running() {
    let (mut game, running) = new_game();
    let (witness, result) = running.wait(&mut game, Ok(None));
    assert!(matches!(witness, Witness::Running(_)));
    assert_eq!(result, Ok(()));
    assert_eq!(game.events(), vec![WorldEvent::Input(Input::Wait)]);
}

#[test]
fn walk_into_upgrade_then_upgrade_returns_to_running() {
    let (mut game, running) = new_game();
    let (witness, result) =
        running.walk(&mut game, CardinalDirection::North, Ok(Some(GameControlFlow::Upgrade)));
    assert_eq!(result, Ok(()));
    let upgrade = expect_upgrade(witness);
    let (witness, result) = upgrade.upgrade(&mut game, toughness_1(), Ok(None));
    assert!(matches!(witness, Witness::Running(_)));
    assert_eq!(result, Ok(()));
    assert_eq!(game.player().upgrades(), &vec![toughness_1()]);
    assert_eq!(
        game.events(),
        vec![
            WorldEvent::Input(Input::Walk(CardinalDirection::North)),
            WorldEvent::Input(Input::Upgrade(toughness_1())),
        ]
    );
}

#[test]
fn get_with_nothing_under_player_reports_no_item() {
    let (game, running) = new_game();
    let (witness, result) = running.get(&game, None);
    assert!(matches!(witness, Witness::Running(_)));
    assert_eq!(result, Err(ActionError::NoItemToGet));
}

#[test]
fn get_over_other_item_reports_no_item() {
    let (game, running) = new_game();
    let (witness, result) = running.get(&game, Some(WeaponClass::Other));
    assert!(matches!(witness, Witness::Running(_)));
    assert_eq!(result, Err(ActionError::NoItemToGet));
}

#[test]
fn get_over_ranged_weapon_offers_ranged_pickup() {
    let (game, running) = new_game();
    let (witness, result) = running.get(&game, Some(WeaponClass::Ranged));
    assert!(matches!(witness, Witness::GetRangedWeapon(_)));
    assert_eq!(result, Ok(()));
}

#[test]
fn get_over_melee_weapon_offers_melee_pickup() {
    let (game, running) = new_game();
    let (witness, result) = running.get(&game, Some(WeaponClass::Melee));
    assert!(matches!(witness, Witness::GetMeleeWeapon(_)));
    assert_eq!(result, Ok(()));
}

#[test]
fn get_touches_nothing_in_the_world() {
    let (mut game, running) = new_game();
    let _ = ranged_pickup(&mut game, running);
    assert_eq!(game.events(), vec![]);
}

#[test]
fn commit_ranged_equips_from_ground_once() {
    let (mut game, running) = new_game();
    let token = ranged_pickup(&mut game, running);
    let witness = token.commit(&mut game, RangedWeaponSlot::Slot1);
    assert!(matches!(witness, Witness::Running(_)));
    let events = game.events();
    assert_eq!(events, vec![WorldEvent::EquipRangedWeaponFromGround(RangedWeaponSlot::Slot1)]);
    assert_eq!(RangedWeaponSlot::Slot1.index(), 0);
    assert_eq!(game.events(), vec![]);
}

#[test]
fn commit_melee_equips_from_ground_once() {
    let (mut game, running) = new_game();
    let token = melee_pickup(&mut game, running);
    let witness = token.commit(&mut game);
    assert!(matches!(witness, Witness::Running(_)));
    assert_eq!(game.events(), vec![WorldEvent::EquipMeleeWeaponFromGround]);
}

#[test]
fn tick_into_game_over_is_terminal() {
    let (mut game, running) = new_game();
    let witness =
        running.tick(&mut game, Duration::from_millis(250), Some(GameControlFlow::GameOver));
    assert!(matches!(witness, Witness::GameOver));
    assert_eq!(game.events(), vec![WorldEvent::Tick(Duration::from_millis(250))]);
}

#[test]
fn tick_without_signal_keeps_running() {
    let (mut game, running) = new_game();
    let witness = running.tick(&mut game, Duration::from_millis(16), None);
    assert!(matches!(witness, Witness::Running(_)));
}

#[test]
fn tick_with_upgrade_signal_offers_upgrade() {
    let (mut game, running) = new_game();
    let witness = running.tick(&mut game, Duration::from_millis(16), Some(GameControlFlow::Upgrade));
    assert!(matches!(witness, Witness::Upgrade(_)));
}

#[test]
fn cancel_upgrade_returns_to_running_untouched() {
    let (mut game, running) = new_game();
    let (witness, _) = running.wait(&mut game, Ok(Some(GameControlFlow::Upgrade)));
    let _ = game.events();
    let witness = expect_upgrade(witness).cancel();
    assert!(matches!(witness, Witness::Running(_)));
    assert_eq!(game.events(), vec![]);
    assert!(game.player().upgrades().is_empty());
}

#[test]
fn cancel_ranged_pickup_returns_to_running_untouched() {
    let (mut game, running) = new_game();
    let witness = ranged_pickup(&mut game, running).cancel();
    assert!(matches!(witness, Witness::Running(_)));
    assert_eq!(game.events(), vec![]);
}

#[test]
fn cancel_melee_pickup_returns_to_running_untouched() {
    let (mut game, running) = new_game();
    let witness = melee_pickup(&mut game, running).cancel();
    assert!(matches!(witness, Witness::Running(_)));
    assert_eq!(game.events(), vec![]);
}

#[test]
fn refused_walk_stays_running_and_reports_error() {
    let (mut game, running) = new_game();
    let (witness, result) =
        running.walk(&mut game, CardinalDirection::East, Err(ActionError::Refused(1)));
    assert!(matches!(witness, Witness::Running(_)));
    assert_eq!(result, Err(ActionError::Refused(1)));
}

#[test]
fn refused_wait_stays_running_and_reports_error() {
    let (mut game, running) = new_game();
    let (witness, result) = running.wait(&mut game, Err(ActionError::Refused(2)));
    assert!(matches!(witness, Witness::Running(_)));
    assert_eq!(result, Err(ActionError::Refused(2)));
}

#[test]
fn refused_upgrade_keeps_upgrade_owed() {
    let (mut game, running) = new_game();
    let (witness, _) = running.wait(&mut game, Ok(Some(GameControlFlow::Upgrade)));
    let (witness, result) =
        expect_upgrade(witness).upgrade(&mut game, toughness_1(), Err(ActionError::Refused(7)));
    assert!(matches!(witness, Witness::Upgrade(_)));
    assert_eq!(result, Err(ActionError::Refused(7)));
    assert!(game.player().upgrades().is_empty());
}

#[test]
fn game_over_signal_ends_game_from_running_input() {
    let (mut game, running) = new_game();
    let (witness, result) =
        running.walk(&mut game, CardinalDirection::South, Ok(Some(GameControlFlow::GameOver)));
    assert!(matches!(witness, Witness::GameOver));
    assert_eq!(result, Ok(()));
    let (mut game, running) = new_game();
    let (witness, _) = running.wait(&mut game, Ok(Some(GameControlFlow::GameOver)));
    assert!(matches!(witness, Witness::GameOver));
}

#[test]
fn game_over_signal_ends_game_from_upgrade() {
    let (mut game, running) = new_game();
    let (witness, _) = running.wait(&mut game, Ok(Some(GameControlFlow::Upgrade)));
    let (witness, result) = expect_upgrade(witness).upgrade(
        &mut game,
        Upgrade { typ: UpgradeType::Endurance, level: UpgradeLevel::Level2 },
        Ok(Some(GameControlFlow::GameOver)),
    );
    assert!(matches!(witness, Witness::GameOver));
    assert_eq!(result, Ok(()));
}

#[test]
fn snapshot_round_trip_resumes_running_with_same_world() {
    let (mut game, running) = new_game();
    let (witness, _) = running.wait(&mut game, Ok(Some(GameControlFlow::Upgrade)));
    let (witness, _) = expect_upgrade(witness).upgrade(&mut game, toughness_1(), Ok(None));
    let running = expect_running(witness);
    let snapshot: RunningGame = game.into_running_game(running);
    let (mut game, running) = snapshot.into_game();
    assert!(matches!(running.into_witness(), Witness::Running(_)));
    assert_eq!(game.player().upgrades(), &vec![toughness_1()]);
    assert_eq!(game.events().len(), 2);
}

#[test]
fn snapshot_by_constructor_round_trip() {
    let (mut game, running) = new_game();
    game.npc_turn();
    let snapshot = RunningGame::new(game, running);
    let (mut game, _running) = snapshot.into_game();
    assert_eq!(game.events(), vec![WorldEvent::NpcTurn]);
}

#[test]
fn events_hand_out_each_call_once_in_order() {
    let (mut game, running) = new_game();
    let witness = running.tick(&mut game, Duration::from_millis(5), None);
    game.npc_turn();
    let (_, _) = expect_running(witness).wait(&mut game, Ok(None));
    assert_eq!(
        game.events(),
        vec![
            WorldEvent::Tick(Duration::from_millis(5)),
            WorldEvent::NpcTurn,
            WorldEvent::Input(Input::Wait),
        ]
    );
    assert_eq!(game.events(), vec![]);
    assert!(game.inner_ref().player().upgrades().is_empty());
}

#[test]
fn ranged_slot_indices() {
    assert_eq!(RangedWeaponSlot::Slot1.index(), 0);
    assert_eq!(RangedWeaponSlot::Slot2.index(), 1);
    assert_eq!(RangedWeaponSlot::Slot3.index(), 2);
}

#[test]
fn snapshot_from_parts_restores_world() {
    let upgrades = vec![toughness_1()];
    let events = vec![WorldEvent::NpcTurn, WorldEvent::EquipMeleeWeaponFromGround];
    let snapshot = RunningGame::from_parts(events.clone(), upgrades.clone());
    assert_eq!(snapshot.world_ref().pending(), &events);
    assert_eq!(snapshot.world_ref().player().upgrades(), &upgrades);
    let (mut game, running) = snapshot.into_game();
    assert!(matches!(running.into_witness(), Witness::Running(_)));
    assert_eq!(game.events(), events);
    assert_eq!(game.player().upgrades(), &upgrades);
}
