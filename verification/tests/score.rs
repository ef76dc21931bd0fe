use back_to_the_roots::resource::Score;
use back_to_the_roots::text::{decimal, signed_decimal};

#[test]
fn score_starts_in_the_first_year() {
    let score = Score::default();
    assert_eq!(score.get_level_index(), 0);
    assert_eq!(score.get_date(), 2100);
    assert_eq!(score.get_shown(), 2_100_000);
    assert_eq!(score.to_text(), "2100");
}

#[test]
fn level_up_goes_back_thirty_five_years() {
    let mut score = Score::default();
    score.level_up();
    assert_eq!(score.get_level_index(), 1);
    assert_eq!(score.get_date(), 2065);
    assert_eq!(score.get_shown(), 2_100_000);
    score.level_up();
    assert_eq!(score.get_level_index(), 2);
    assert_eq!(score.get_date(), 2030);
}

#[test]
fn theme_follows_the_level() {
    let mut score = Score::default();
    let mut themes = Vec::new();
    for _ in 0..8 {
        themes.push(score.historic_period_theme());
        score.level_up();
    }
    assert_eq!(themes, vec![0, 0, 1, 1, 1, 2, 2, 2]);
}

#[test]
fn music_starts_with_each_period_and_stops_before_the_next() {
    let mut score = Score::default();
    let mut starts = Vec::new();
    let mut stops = Vec::new();
    for level in 0..8 {
        if score.should_start_music() {
            starts.push(level);
        }
        if score.should_stop_music() {
            stops.push(level);
        }
        score.level_up();
    }
    assert_eq!(starts, vec![0, 2, 5]);
    assert_eq!(stops, vec![1, 3]);
}

#[test]
fn date_panel_runs_down_to_the_date_and_stops() {
    let mut score = Score::default();
    score.decrease(1000);
    assert_eq!(score.get_shown(), 2_100_000);
    score.level_up();
    score.decrease(10_000);
    assert_eq!(score.get_shown(), 2_090_000);
    assert_eq!(score.to_text(), "2090");
    score.decrease(24_999);
    assert_eq!(score.get_shown(), 2_065_001);
    score.decrease(2);
    assert_eq!(score.get_shown(), 2_065_000);
    score.decrease(u64::MAX);
    assert_eq!(score.get_shown(), 2_065_000);
    assert_eq!(score.get_date(), 2065);
    assert_eq!(score.get_level_index(), 1);
}

#[test]
fn date_panel_rounds_to_the_nearest_year() {
    let mut score = Score::default();
    score.level_up();
    score.decrease(499);
    assert_eq!(score.to_text(), "2100");
    score.decrease(1);
    assert_eq!(score.get_shown(), 2_099_500);
    assert_eq!(score.to_text(), "2100");
    score.decrease(1);
    assert_eq!(score.to_text(), "2099");
}

#[test]
fn date_panel_shows_years_before_zero() {
    let mut score = Score::default();
    for _ in 0..61 {
        score.level_up();
    }
    assert_eq!(score.get_date(), -35);
    score.decrease(2_100_000);
    assert_eq!(score.to_text(), "0");
    score.decrease(499);
    assert_eq!(score.to_text(), "0");
    score.decrease(1);
    assert_eq!(score.get_shown(), -500);
    assert_eq!(score.to_text(), "-1");
    score.decrease(1_000_000);
    assert_eq!(score.get_shown(), -35_000);
    assert_eq!(score.to_text(), "-35");
}

#[test]
fn decimal_writes_whole_numbers() {
    assert_eq!(decimal(0), "0");
    assert_eq!(decimal(7), "7");
    assert_eq!(decimal(10), "10");
    assert_eq!(decimal(1234567890), "1234567890");
    assert_eq!(decimal(u32::MAX), "4294967295");
    for n in 0..3000u32 {
        assert_eq!(decimal(n), n.to_string());
    }
}

#[test]
fn signed_decimal_writes_the_sign() {
    assert_eq!(signed_decimal(0), "0");
    assert_eq!(signed_decimal(-1), "-1");
    assert_eq!(signed_decimal(2100), "2100");
    assert_eq!(signed_decimal(i32::MAX), "2147483647");
    assert_eq!(signed_decimal(i32::MIN), "-2147483648");
    for n in -1500..1500i32 {
        assert_eq!(signed_decimal(n), n.to_string());
    }
}
