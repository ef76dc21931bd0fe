use back_to_the_roots::components::{DebufChoices, Debuff, PlayerColor};
use back_to_the_roots::StatsRes;

#[test]
fn starting_stats() {
    let stats = StatsRes::default();
    assert_eq!(stats.player_speed, 400_000);
    assert_eq!(stats.player_damage, 500);
    assert_eq!(stats.player_health, 1000);
    assert_eq!(stats.player_fire_rate, 250);
    assert_eq!(stats.player_bullets, 31);
    assert_eq!(stats.player_bullets_ttl, 1);
    assert_eq!(stats.player_bullets_speed, 1_250_000);
    assert_eq!(stats.player_decay, 10);
    assert_eq!(stats.player_color, PlayerColor { red: 300, green: 300, blue: 700 });
}

#[test]
fn halving_one_bullet_leaves_one() {
    let mut stats = StatsRes::default();
    stats.player_bullets = 1;
    stats.apply(DebufChoices::Bullets);
    assert_eq!(stats.player_bullets, 1);
}

#[test]
fn halving_two_bullets_leaves_one() {
    let mut stats = StatsRes::default();
    stats.player_bullets = 2;
    stats.apply(DebufChoices::Bullets);
    assert_eq!(stats.player_bullets, 1);
}

#[test]
fn halving_one_hit_leaves_one() {
    let mut stats = StatsRes::default();
    stats.player_bullets_ttl = 1;
    stats.apply(DebufChoices::BulletsTtl);
    assert_eq!(stats.player_bullets_ttl, 1);
}

#[test]
fn halving_two_hits_leaves_one() {
    let mut stats = StatsRes::default();
    stats.player_bullets_ttl = 2;
    stats.apply(DebufChoices::BulletsTtl);
    assert_eq!(stats.player_bullets_ttl, 1);
}

#[test]
fn bullets_halve_down_to_one_and_stay() {
    let mut stats = StatsRes::default();
    let mut seen = Vec::new();
    for _ in 0..6 {
        stats.apply(DebufChoices::Bullets);
        seen.push(stats.player_bullets);
    }
    assert_eq!(seen, vec![15, 7, 3, 1, 1, 1]);
}

#[test]
fn counts_below_one_come_up_to_one() {
    let mut stats = StatsRes::default();
    stats.player_bullets = 0;
    stats.player_bullets_ttl = -7;
    stats.apply(DebufChoices::Bullets);
    stats.apply(DebufChoices::BulletsTtl);
    assert_eq!(stats.player_bullets, 1);
    assert_eq!(stats.player_bullets_ttl, 1);
    stats.player_bullets_ttl = i32::MIN;
    stats.apply(DebufChoices::BulletsTtl);
    assert_eq!(stats.player_bullets_ttl, 1);
    stats.player_bullets_ttl = i32::MAX;
    stats.apply(DebufChoices::BulletsTtl);
    assert_eq!(stats.player_bullets_ttl, 1_073_741_823);
}

#[test]
fn each_penalty_touches_its_own_stat() {
    let start = StatsRes::default();

    let mut stats = start;
    stats.apply(DebufChoices::Speed);
    assert_eq!(stats, StatsRes { player_speed: 320_000, ..start });

    let mut stats = start;
    stats.apply(DebufChoices::Damage);
    assert_eq!(stats, StatsRes { player_damage: 350, ..start });

    let mut stats = start;
    stats.apply(DebufChoices::BulletsSpeed);
    assert_eq!(stats, StatsRes { player_bullets_speed: 750_000, player_decay: 6, ..start });

    let mut stats = start;
    stats.apply(DebufChoices::FireRate);
    assert_eq!(stats, StatsRes { player_fire_rate: 325, ..start });

    let mut stats = start;
    stats.apply(DebufChoices::Bullets);
    assert_eq!(stats, StatsRes { player_bullets: 15, ..start });

    let mut stats = start;
    stats.player_bullets_ttl = 9;
    stats.apply(DebufChoices::BulletsTtl);
    assert_eq!(stats, StatsRes { player_bullets_ttl: 4, ..start });
}

#[test]
fn penalties_round_down() {
    let mut stats = StatsRes::default();
    stats.player_speed = 9;
    stats.player_damage = 9;
    stats.player_fire_rate = 9;
    stats.apply(DebufChoices::Speed);
    stats.apply(DebufChoices::Damage);
    stats.apply(DebufChoices::FireRate);
    assert_eq!(stats.player_speed, 7);
    assert_eq!(stats.player_damage, 6);
    assert_eq!(stats.player_fire_rate, 11);
}

#[test]
fn fire_rate_stops_at_the_top() {
    let mut stats = StatsRes::default();
    stats.player_fire_rate = 3_303_820_996;
    stats.apply(DebufChoices::FireRate);
    assert_eq!(stats.player_fire_rate, 4_294_967_294);
    stats.apply(DebufChoices::FireRate);
    assert_eq!(stats.player_fire_rate, u32::MAX);
    stats.apply(DebufChoices::FireRate);
    assert_eq!(stats.player_fire_rate, u32::MAX);
}

#[test]
fn largest_speed_is_scaled_without_overflow() {
    let mut stats = StatsRes::default();
    stats.player_speed = u32::MAX;
    stats.apply(DebufChoices::Speed);
    assert_eq!(stats.player_speed, 3_435_973_836);
}

#[test]
fn a_parent_applies_its_three_penalties() {
    let (dad, mom) = Debuff::from_draws(0, 0, 0);
    let start = StatsRes::default();
    let mut stats = start;
    stats.apply_all(&dad);
    assert_eq!(
        stats,
        StatsRes { player_speed: 320_000, player_bullets: 15, player_bullets_ttl: 1, ..start }
    );
    let mut stats = start;
    stats.apply_all(&mom);
    assert_eq!(
        stats,
        StatsRes {
            player_damage: 350,
            player_bullets_speed: 750_000,
            player_decay: 6,
            player_fire_rate: 325,
            ..start
        }
    );
}
