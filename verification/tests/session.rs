use back_to_the_roots::components::{Debuff, Enemy, Player, PlayerColor};
use back_to_the_roots::progression::Session;
use back_to_the_roots::resource::TotalToSpawn;
use back_to_the_roots::systems::in_game::{GameOverEvent, MobSpawnEvent, Mortal};
use back_to_the_roots::systems::{ButtonShade, Interaction};
use back_to_the_roots::{AppState, StatsRes};

fn dead_enemies(n: usize) -> Vec<Mortal> {
    vec![Mortal { dead: true, maybe_enemy: Some(Enemy), maybe_player: None }; n]
}

fn running() -> Session {
    let mut session = Session::new();
    session.start(Interaction::Clicked);
    session.play(Interaction::Clicked);
    session
}

#[test]
fn new_session_waits_on_the_main_menu() {
    let session = Session::new();
    assert_eq!(session.app_state, AppState::MainMenu);
    assert_eq!(session.score.get_level_index(), 0);
    assert_eq!(session.budget.to_spawn, TotalToSpawn::default());
    assert_eq!(session.budget.spawned.amount, 0);
    assert_eq!(session.budget.killed.amount, 0);
    assert_eq!(session.stats, StatsRes::default());
}

#[test]
fn menus_lead_into_the_first_wave() {
    let mut session = Session::new();
    session.play(Interaction::Clicked);
    assert_eq!(session.app_state, AppState::MainMenu);
    session.start(Interaction::Hovered);
    assert_eq!(session.app_state, AppState::MainMenu);
    session.start(Interaction::Clicked);
    assert_eq!(session.app_state, AppState::PreStartMenu);
    session.play(Interaction::Idle);
    assert_eq!(session.app_state, AppState::PreStartMenu);
    session.play(Interaction::Clicked);
    assert_eq!(session.app_state, AppState::InGame);
}

#[test]
fn tick_off_the_running_game_does_nothing() {
    let mut session = Session::new();
    let outcome = session.tick(Some(MobSpawnEvent), &dead_enemies(3));
    assert_eq!(outcome.batch, None);
    assert!(outcome.casualties.despawn.is_empty());
    assert_eq!(outcome.casualties.game_over, None);
    assert_eq!(outcome.timer_period, None);
    assert_eq!(session.app_state, AppState::MainMenu);
    assert_eq!(session.budget.killed.amount, 0);
    assert_eq!(session.budget.spawned.amount, 0);
}

#[test]
fn tick_spawns_a_batch_and_counts_the_dead() {
    let mut session = running();
    let outcome = session.tick(Some(MobSpawnEvent), &dead_enemies(3));
    let batch = outcome.batch.unwrap();
    assert_eq!(batch.count, 10);
    assert!(batch.angle < 3600);
    assert_eq!(outcome.casualties.despawn, vec![0, 1, 2]);
    assert_eq!(outcome.timer_period, None);
    assert_eq!(session.budget.spawned.amount, 10);
    assert_eq!(session.budget.killed.amount, 3);
    assert_eq!(session.app_state, AppState::InGame);
    let quiet = session.tick(None, &Vec::new());
    assert_eq!(quiet.batch, None);
    assert_eq!(session.budget.spawned.amount, 10);
    assert_eq!(session.budget.killed.amount, 3);
}

#[test]
fn last_kill_moves_on_to_the_next_level() {
    let mut session = running();
    session.budget.reset(5);
    let outcome = session.tick(None, &dead_enemies(4));
    assert_eq!(outcome.timer_period, None);
    assert_eq!(session.app_state, AppState::InGame);
    let outcome = session.tick(None, &dead_enemies(1));
    assert_eq!(outcome.timer_period, Some(460));
    assert_eq!(session.app_state, AppState::LevelMenu);
    assert_eq!(session.score.get_level_index(), 1);
    assert_eq!(session.score.get_date(), 2065);
    assert_eq!(session.budget.to_spawn, TotalToSpawn { amount: 50, rate: 460, quantity_per_spawn: 1 });
    assert_eq!(session.budget.spawned.amount, 0);
    assert_eq!(session.budget.killed.amount, 0);
}

#[test]
fn batch_of_the_last_tick_belongs_to_the_old_wave() {
    let mut session = running();
    session.budget.reset(5);
    let outcome = session.tick(Some(MobSpawnEvent), &dead_enemies(5));
    assert_eq!(outcome.batch.unwrap().count, 5);
    assert_eq!(session.app_state, AppState::LevelMenu);
    assert_eq!(session.budget.spawned.amount, 0);
    assert_eq!(session.budget.to_spawn.amount, 50);
}

#[test]
fn dying_on_the_last_kill_is_still_dying() {
    let mut session = running();
    session.budget.reset(2);
    let mut mortals = dead_enemies(2);
    mortals.push(Mortal { dead: true, maybe_enemy: None, maybe_player: Some(Player) });
    let outcome = session.tick(None, &mortals);
    assert_eq!(outcome.casualties.game_over, Some(GameOverEvent));
    assert_eq!(outcome.casualties.despawn, vec![0, 1]);
    assert_eq!(outcome.timer_period, None);
    assert_eq!(session.app_state, AppState::RetryMenu);
    assert_eq!(session.score.get_level_index(), 0);
    assert_eq!(session.budget.killed.amount, 2);
    assert_eq!(session.budget.to_spawn.amount, 2);
}

#[test]
fn picking_a_parent_starts_the_next_wave() {
    let mut session = running();
    session.budget.reset(1);
    session.tick(None, &dead_enemies(1));
    assert_eq!(session.app_state, AppState::LevelMenu);
    let (dad, mom) = Debuff::from_draws(3, 3, 3);
    let color = PlayerColor { red: 1, green: 2, blue: 3 };
    let shade = session.choose_parent(Interaction::Hovered, &dad, &color);
    assert_eq!(shade, ButtonShade::Hover);
    assert_eq!(session.stats, StatsRes::default());
    let shade = session.choose_parent(Interaction::Clicked, &mom, &color);
    assert_eq!(shade, ButtonShade::Normal);
    assert_eq!(session.app_state, AppState::InGame);
    assert_eq!(
        session.stats,
        StatsRes {
            player_speed: 320_000,
            player_bullets: 15,
            player_bullets_ttl: 1,
            player_color: color,
            ..StatsRes::default()
        }
    );
    assert_eq!(session.score.get_level_index(), 1);
    assert_eq!(session.budget.to_spawn.amount, 50);
    session.choose_parent(Interaction::Clicked, &dad, &color);
    assert_eq!(session.stats.player_damage, 500);
}

#[test]
fn retry_begins_a_new_playthrough() {
    let mut session = running();
    session.budget.reset(1);
    session.tick(None, &dead_enemies(1));
    let (dad, _) = Debuff::from_draws(0, 0, 0);
    session.choose_parent(Interaction::Clicked, &dad, &PlayerColor { red: 9, green: 9, blue: 9 });
    session.tick(Some(MobSpawnEvent), &dead_enemies(7));
    let died = vec![Mortal { dead: true, maybe_enemy: None, maybe_player: Some(Player) }];
    session.tick(None, &died);
    assert_eq!(session.app_state, AppState::RetryMenu);
    session.retry(Interaction::Hovered);
    assert_eq!(session.app_state, AppState::RetryMenu);
    assert_eq!(session.score.get_level_index(), 1);
    session.retry(Interaction::Clicked);
    assert_eq!(session.app_state, AppState::InGame);
    assert_eq!(session.score.get_level_index(), 0);
    assert_eq!(session.score.get_date(), 2100);
    assert_eq!(session.budget.to_spawn, TotalToSpawn::default());
    assert_eq!(session.budget.spawned.amount, 0);
    assert_eq!(session.budget.killed.amount, 0);
    assert_eq!(session.stats, StatsRes::default());
}

#[test]
fn retry_off_the_game_over_menu_does_nothing() {
    let mut session = running();
    session.tick(Some(MobSpawnEvent), &dead_enemies(2));
    session.retry(Interaction::Clicked);
    assert_eq!(session.app_state, AppState::InGame);
    assert_eq!(session.budget.spawned.amount, 10);
    assert_eq!(session.budget.killed.amount, 2);
}
