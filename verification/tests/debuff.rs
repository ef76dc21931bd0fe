use back_to_the_roots::components::{DebufChoices, Debuff};
use back_to_the_roots::components::DebufChoices::{
    Bullets, BulletsSpeed, BulletsTtl, Damage, FireRate, Speed,
};

const ALL: [DebufChoices; 6] = [Speed, Bullets, BulletsTtl, Damage, BulletsSpeed, FireRate];

fn assert_split(dad: &Debuff, mom: &Debuff) {
    let dad = dad.get_defaults();
    let mom = mom.get_defaults();
    for choice in ALL {
        let in_dad = dad.iter().filter(|c| **c == choice).count();
        let in_mom = mom.iter().filter(|c| **c == choice).count();
        assert_eq!(in_dad + in_mom, 1, "{:?} in {:?} and {:?}", choice, dad, mom);
    }
}

#[test]
fn every_number_has_its_penalty() {
    assert_eq!(Debuff::get_default(0), Speed);
    assert_eq!(Debuff::get_default(1), Bullets);
    assert_eq!(Debuff::get_default(2), BulletsTtl);
    assert_eq!(Debuff::get_default(3), Damage);
    assert_eq!(Debuff::get_default(4), BulletsSpeed);
    assert_eq!(Debuff::get_default(5), FireRate);
}

#[test]
fn numbers_past_the_last_fall_back_to_speed() {
    assert_eq!(Debuff::get_default(6), Speed);
    assert_eq!(Debuff::get_default(100), Speed);
    assert_eq!(Debuff::get_default(usize::MAX), Speed);
}

#[test]
fn first_positions_give_dad_the_first_three() {
    let (dad, mom) = Debuff::from_draws(0, 0, 0);
    assert_eq!(dad.get_defaults(), [Speed, Bullets, BulletsTtl]);
    assert_eq!(mom.get_defaults(), [Damage, BulletsSpeed, FireRate]);
}

#[test]
fn last_positions_give_dad_the_last_three_backwards() {
    let (dad, mom) = Debuff::from_draws(5, 4, 3);
    assert_eq!(dad.get_defaults(), [FireRate, BulletsSpeed, Damage]);
    assert_eq!(mom.get_defaults(), [Speed, Bullets, BulletsTtl]);
}

#[test]
fn same_position_thrice_takes_three_neighbours() {
    let (dad, mom) = Debuff::from_draws(2, 2, 2);
    assert_eq!(dad.get_defaults(), [BulletsTtl, Damage, BulletsSpeed]);
    assert_eq!(mom.get_defaults(), [Speed, Bullets, FireRate]);
}

#[test]
fn mixed_positions_keep_the_order_of_what_is_left() {
    let (dad, mom) = Debuff::from_draws(3, 0, 3);
    assert_eq!(dad.get_defaults(), [Damage, Speed, FireRate]);
    assert_eq!(mom.get_defaults(), [Bullets, BulletsTtl, BulletsSpeed]);
}

#[test]
fn every_triple_of_draws_splits_the_six() {
    let mut seen = Vec::new();
    for i1 in 0..6 {
        for i2 in 0..5 {
            for i3 in 0..4 {
                let (dad, mom) = Debuff::from_draws(i1, i2, i3);
                assert_split(&dad, &mom);
                let mut members = dad.get_defaults().map(|c| ALL.iter().position(|a| *a == c));
                members.sort();
                if !seen.contains(&members) {
                    seen.push(members);
                }
            }
        }
    }
    assert_eq!(seen.len(), 20);
}

#[test]
fn random_offer_splits_the_six() {
    for _ in 0..2000 {
        let (dad, mom) = Debuff::get_parent_random();
        assert_split(&dad, &mom);
    }
}

#[test]
fn random_offer_is_not_always_the_same() {
    let (first, _) = Debuff::get_parent_random();
    let mut differs = false;
    for _ in 0..500 {
        let (dad, _) = Debuff::get_parent_random();
        if dad.get_defaults() != first.get_defaults() {
            differs = true;
        }
    }
    assert!(differs);
}

#[test]
fn penalties_have_their_lines() {
    assert_eq!(Speed.to_text(), "- speed");
    assert_eq!(Bullets.to_text(), "- nb of bullets");
    assert_eq!(BulletsTtl.to_text(), "- bullets hitcount");
    assert_eq!(Damage.to_text(), "- damage");
    assert_eq!(BulletsSpeed.to_text(), "- bullets speed");
    assert_eq!(FireRate.to_text(), "- fire rate");
}

#[test]
fn bundle_lists_its_penalties_line_by_line() {
    let (dad, mom) = Debuff::from_draws(0, 0, 0);
    assert_eq!(dad.to_text(), "- speed\n- nb of bullets\n- bullets hitcount\n");
    assert_eq!(mom.to_text(), "- damage\n- bullets speed\n- fire rate\n");
}

#[test]
fn every_split_turns_up_in_the_long_run() {
    let mut seen = Vec::new();
    for _ in 0..4000 {
        let (dad, _) = Debuff::get_parent_random();
        let mut members = dad.get_defaults().map(|c| ALL.iter().position(|a| *a == c));
        members.sort();
        if !seen.contains(&members) {
            seen.push(members);
        }
    }
    assert_eq!(seen.len(), 20);
}
