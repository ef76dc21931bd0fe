use back_to_the_roots::resource::{Score, TotalKilled, TotalSpawned, TotalToSpawn};
use back_to_the_roots::spawn_budget::SpawnBudgetTracker;
use back_to_the_roots::systems::in_game::{change_level, wave_is_done_emit};
use back_to_the_roots::AppState;

fn tracker_of(quota: u32) -> SpawnBudgetTracker {
    let mut tracker = SpawnBudgetTracker::default();
    tracker.reset(quota);
    tracker
}

#[test]
fn default_tracker_is_the_opening_wave() {
    let tracker = SpawnBudgetTracker::default();
    assert_eq!(tracker.to_spawn, TotalToSpawn::default());
    assert_eq!(tracker.spawned.amount, 0);
    assert_eq!(tracker.killed.amount, 0);
    assert!(!tracker.is_wave_complete());
}

#[test]
fn spawns_are_granted_up_to_the_quota() {
    let mut tracker = tracker_of(3);
    assert!(tracker.record_spawn());
    assert!(tracker.record_spawn());
    assert!(tracker.record_spawn());
    assert_eq!(tracker.spawned.amount, 3);
    assert!(!tracker.record_spawn());
    assert!(!tracker.record_spawn());
    assert_eq!(tracker.spawned.amount, 3);
    assert_eq!(tracker.to_spawn.amount, 3);
}

#[test]
fn spawned_never_passes_the_quota_under_mixed_calls() {
    let mut tracker = tracker_of(4);
    for round in 0..20 {
        let allowed = tracker.record_spawn();
        assert_eq!(allowed, round < 4);
        if round % 3 == 0 {
            tracker.record_kill();
        }
        assert!(tracker.spawned.amount <= tracker.to_spawn.amount);
        assert_eq!(tracker.is_wave_complete(), tracker.killed.amount >= 4);
    }
    assert_eq!(tracker.spawned.amount, 4);
    assert_eq!(tracker.killed.amount, 7);
}

#[test]
fn empty_wave_grants_nothing() {
    let mut tracker = tracker_of(0);
    assert!(!tracker.record_spawn());
    assert_eq!(tracker.spawned.amount, 0);
    assert_eq!(tracker.record_batch(), 0);
}

#[test]
fn kills_count_even_past_the_quota() {
    let mut tracker = tracker_of(1);
    tracker.record_kill();
    tracker.record_kill();
    tracker.record_kill();
    assert_eq!(tracker.killed.amount, 3);
    assert_eq!(tracker.spawned.amount, 0);
    assert!(tracker.is_wave_complete());
}

#[test]
fn kill_count_stops_at_the_top() {
    let mut killed = TotalKilled { amount: u32::MAX - 1 };
    killed.record_kill();
    assert_eq!(killed.amount, u32::MAX);
    killed.record_kill();
    assert_eq!(killed.amount, u32::MAX);
}

#[test]
fn wave_complete_does_not_look_at_spawned() {
    let mut with_spawns = tracker_of(2);
    let mut without_spawns = tracker_of(2);
    with_spawns.record_spawn();
    with_spawns.record_spawn();
    for _ in 0..2 {
        assert_eq!(with_spawns.is_wave_complete(), without_spawns.is_wave_complete());
        with_spawns.record_kill();
        without_spawns.record_kill();
    }
    assert!(with_spawns.is_wave_complete());
    assert!(without_spawns.is_wave_complete());
}

#[test]
fn fresh_wave_is_complete_only_when_empty() {
    assert!(tracker_of(0).is_wave_complete());
    assert!(!tracker_of(1).is_wave_complete());
    assert!(!tracker_of(7).is_wave_complete());
    assert!(!tracker_of(u32::MAX).is_wave_complete());
}

#[test]
fn reset_clears_the_counts_and_keeps_the_pacing() {
    let mut tracker = SpawnBudgetTracker::default();
    tracker.record_spawn();
    tracker.record_kill();
    tracker.reset(9);
    assert_eq!(tracker.to_spawn, TotalToSpawn { amount: 9, rate: 330, quantity_per_spawn: 10 });
    assert_eq!(tracker.spawned.amount, 0);
    assert_eq!(tracker.killed.amount, 0);
}

#[test]
fn batch_is_as_large_as_batch_size_and_room_allow() {
    let mut tracker = SpawnBudgetTracker::default();
    tracker.to_spawn = TotalToSpawn { amount: 25, rate: 330, quantity_per_spawn: 10 };
    assert_eq!(tracker.record_batch(), 10);
    assert_eq!(tracker.record_batch(), 10);
    assert_eq!(tracker.record_batch(), 5);
    assert_eq!(tracker.record_batch(), 0);
    assert_eq!(tracker.spawned.amount, 25);
}

#[test]
fn batch_does_what_single_spawns_do() {
    let mut batched = SpawnBudgetTracker::default();
    batched.to_spawn = TotalToSpawn { amount: 7, rate: 460, quantity_per_spawn: 3 };
    let mut single = batched;
    for _ in 0..4 {
        let granted = batched.record_batch();
        let mut counted = 0;
        for _ in 0..3 {
            if single.record_spawn() {
                counted += 1;
            }
        }
        assert_eq!(granted, counted);
        assert_eq!(batched.spawned, single.spawned);
    }
}

#[test]
fn record_spawn_on_the_counter_alone() {
    let to_spawn = TotalToSpawn { amount: 2, rate: 460, quantity_per_spawn: 1 };
    let mut spawned = TotalSpawned { amount: 1 };
    assert!(spawned.record_spawn(&to_spawn));
    assert_eq!(spawned.amount, 2);
    assert!(!spawned.record_spawn(&to_spawn));
    assert_eq!(spawned.amount, 2);
    let mut over = TotalSpawned { amount: 5 };
    assert!(!over.record_spawn(&to_spawn));
    assert_eq!(over.amount, 5);
}

#[test]
fn fifth_kill_of_five_ends_the_wave_and_the_next_level_begins() {
    let mut tracker = tracker_of(5);
    for _ in 0..5 {
        assert!(tracker.record_spawn());
    }
    for _ in 0..4 {
        tracker.record_kill();
        assert!(!tracker.is_wave_complete());
    }
    tracker.record_kill();
    assert!(tracker.is_wave_complete());

    let mut app_state = AppState::InGame;
    let mut score = Score::default();
    let event = wave_is_done_emit(&tracker.killed, &tracker.to_spawn);
    assert!(event.is_some());
    let timer = change_level(
        &mut app_state,
        &mut score,
        event,
        &mut tracker.spawned,
        &mut tracker.to_spawn,
        &mut tracker.killed,
    );
    assert_eq!(score.get_level_index(), 1);
    assert_eq!(tracker.to_spawn.amount, 50);
    assert_eq!(tracker.to_spawn.quantity_per_spawn, 1);
    assert_eq!(tracker.spawned.amount, 0);
    assert_eq!(tracker.killed.amount, 0);
    assert_eq!(timer, Some(460));
    assert_eq!(app_state, AppState::LevelMenu);
    assert!(!tracker.is_wave_complete());
}
