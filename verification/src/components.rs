//! Data attached to the things of the game world, and the hereditary flaws
//! offered to the player between two waves.

use crate::random::random_below;
use vstd::prelude::*;
use vstd::string::StringExecFns;

verus! {

/// Counts down the enemies a bullet may still hit.
#[derive(Clone, Copy, Debug, PartialEq, Eq, Structural)]
pub struct HitCount {
    pub ttl: i32,
}

impl Default for HitCount {
    fn default() -> (hit_count: HitCount)
        ensures
            hit_count.ttl == 0,
    {
        HitCount { ttl: 0 }
    }
}

impl HitCount {
    /// A spent bullet hits nothing more and is taken out of the world.
    pub open spec fn spent(self) -> bool {
        self.ttl <= 0
    }

    /// Whether the bullet is spent.
    pub fn is_spent(&self) -> (spent: bool)
        ensures
            spent == self.spent(),
    {
        self.ttl <= 0
    }

    /// Settles one meeting of the bullet with an enemy. The enemy is hit, and
    /// the count goes down by one, exactly when the bullet is not spent and
    /// the two overlap.
    pub fn register_hit(&mut self, overlaps: bool) -> (hit: bool)
        ensures
            hit == (overlaps && !old(self).spent()),
            hit ==> final(self).ttl == old(self).ttl - 1,
            !hit ==> *final(self) == *old(self),
    {
        if self.ttl <= 0 {
            return false;
        }
        if overlaps {
            self.ttl = self.ttl - 1;
            true
        } else {
            false
        }
    }
}

/// Marks what takes part in collisions.
#[derive(Clone, Copy, Debug, Default, PartialEq, Eq)]
pub struct Collider;

/// Marks the player's character.
#[derive(Clone, Copy, Debug, Default, PartialEq, Eq)]
pub struct Player;

/// Marks an enemy.
#[derive(Clone, Copy, Debug, Default, PartialEq, Eq)]
pub struct Enemy;

/// Marks a bullet.
#[derive(Clone, Copy, Debug, Default, PartialEq, Eq)]
pub struct Bullet;

/// Marks what belongs to the main menu and goes away with it.
#[derive(Clone, Copy, Debug, Default, PartialEq, Eq)]
pub struct MainMenu;

/// Marks what belongs to a running wave and goes away with it.
#[derive(Clone, Copy, Debug, Default, PartialEq, Eq)]
pub struct InGame;

/// Marks what belongs to the level-up menu and goes away with it.
#[derive(Clone, Copy, Debug, Default, PartialEq, Eq)]
pub struct LevelMenu;

/// Marks what belongs to the game-over menu and goes away with it.
#[derive(Clone, Copy, Debug, Default, PartialEq, Eq)]
pub struct RetryMenu;

/// A colour of the player's character: red, green and blue in thousandths.
#[derive(Clone, Copy, Debug, PartialEq, Eq, Structural)]
pub struct PlayerColor {
    pub red: u16,
    pub green: u16,
    pub blue: u16,
}

/// One permanent penalty on the player's stats. There are six; the player's
/// health is never among them.
#[derive(Clone, Copy, Debug, PartialEq, Eq, Hash, Structural)]
pub enum DebufChoices {
    Speed,
    Bullets,
    BulletsTtl,
    Damage,
    BulletsSpeed,
    FireRate,
}

impl DebufChoices {
    /// The line that names this penalty on a menu.
    pub open spec fn label(self) -> Seq<char> {
        match self {
            DebufChoices::Speed => "- speed"@,
            DebufChoices::Bullets => "- nb of bullets"@,
            DebufChoices::BulletsTtl => "- bullets hitcount"@,
            DebufChoices::Damage => "- damage"@,
            DebufChoices::BulletsSpeed => "- bullets speed"@,
            DebufChoices::FireRate => "- fire rate"@,
        }
    }

    /// Writes the line that names this penalty.
    pub fn to_text(&self) -> (text: String)
        ensures
            text@ == self.label(),
    {
        match self {
            DebufChoices::Speed => String::from_str("- speed"),
            DebufChoices::Bullets => String::from_str("- nb of bullets"),
            DebufChoices::BulletsTtl => String::from_str("- bullets hitcount"),
            DebufChoices::Damage => String::from_str("- damage"),
            DebufChoices::BulletsSpeed => String::from_str("- bullets speed"),
            DebufChoices::FireRate => String::from_str("- fire rate"),
        }
    }
}

/// The three penalties that come with one parent.
#[derive(Clone, Copy, Debug)]
pub struct Debuff {
    debuff_choice: [DebufChoices; 3],
}

impl View for Debuff {
    type V = Seq<DebufChoices>;

    closed spec fn view(&self) -> Seq<DebufChoices> {
        self.debuff_choice@
    }
}

/// The penalty with number `i`; numbers past the last one fall back to `Speed`.
pub open spec fn choice_at(i: int) -> DebufChoices {
    if i == 1 {
        DebufChoices::Bullets
    } else if i == 2 {
        DebufChoices::BulletsTtl
    } else if i == 3 {
        DebufChoices::Damage
    } else if i == 4 {
        DebufChoices::BulletsSpeed
    } else if i == 5 {
        DebufChoices::FireRate
    } else {
        DebufChoices::Speed
    }
}

/// The numbers of all six penalties, in the order in which they are drawn from.
pub open spec fn pool() -> Seq<usize> {
    Seq::new(6, |i: int| i as usize)
}

/// The numbers drawn when position `i1` is taken out of the pool, then
/// position `i2` out of the five left, then position `i3` out of the four left.
pub open spec fn drawn(i1: int, i2: int, i3: int) -> Seq<usize> {
    let after_one = pool().remove(i1);
    let after_two = after_one.remove(i2);
    seq![pool()[i1], after_one[i2], after_two[i3]]
}

/// The numbers left in the pool after those three draws, in their old order.
pub open spec fn left(i1: int, i2: int, i3: int) -> Seq<usize> {
    pool().remove(i1).remove(i2).remove(i3)
}

/// Whether three numbers can be the positions of three draws in a row.
pub open spec fn are_draws(i1: int, i2: int, i3: int) -> bool {
    0 <= i1 < 6 && 0 <= i2 < 5 && 0 <= i3 < 4
}

/// The penalties that the numbers in `numbers` stand for.
pub open spec fn choices_of(numbers: Seq<usize>) -> Seq<DebufChoices> {
    numbers.map_values(|i: usize| choice_at(i as int))
}

/// `dad` and `mom` share no penalty, and every penalty is in one of them.
pub open spec fn splits_all_choices(dad: Seq<DebufChoices>, mom: Seq<DebufChoices>) -> bool {
    &&& dad.len() == 3
    &&& mom.len() == 3
    &&& forall|c: DebufChoices| dad.contains(c) != mom.contains(c)
}

/// The number that stands for penalty `c`.
pub open spec fn number_of(c: DebufChoices) -> usize {
    match c {
        DebufChoices::Speed => 0,
        DebufChoices::Bullets => 1,
        DebufChoices::BulletsTtl => 2,
        DebufChoices::Damage => 3,
        DebufChoices::BulletsSpeed => 4,
        DebufChoices::FireRate => 5,
    }
}

/// Taking position `i` out of a sequence without repeats leaves a sequence
/// without repeats that holds everything the old one held except `s[i]`.
proof fn lemma_remove_keeps_the_rest(s: Seq<usize>, i: int)
    requires
        s.no_duplicates(),
        0 <= i < s.len(),
    ensures
        s.remove(i).len() == s.len() - 1,
        s.remove(i).no_duplicates(),
        forall|x: usize| s.remove(i).contains(x) <==> (s.contains(x) && x != s[i]),
{
    let r = s.remove(i);
    s.remove_ensures(i);
    assert forall|x: usize| r.contains(x) <==> (s.contains(x) && x != s[i]) by {
        if r.contains(x) {
            let j = choose|j: int| 0 <= j < r.len() && r[j] == x;
            if j < i {
                assert(s[j] == x);
            } else {
                assert(s[j + 1] == x);
            }
        }
        if s.contains(x) && x != s[i] {
            let j = choose|j: int| 0 <= j < s.len() && s[j] == x;
            if j < i {
                assert(r[j] == x);
            } else {
                assert(r[j - 1] == x);
            }
        }
    }
}

/// A sequence of penalty numbers holds the number of `c` exactly when the
/// penalties it stands for hold `c`.
proof fn lemma_choices_hold(numbers: Seq<usize>, c: DebufChoices)
    requires
        forall|j: int| 0 <= j < numbers.len() ==> numbers[j] < 6,
    ensures
        choices_of(numbers).contains(c) <==> numbers.contains(number_of(c)),
{
    let choices = choices_of(numbers);
    if choices.contains(c) {
        let j = choose|j: int| 0 <= j < choices.len() && choices[j] == c;
        assert(numbers[j] == number_of(c));
    }
    if numbers.contains(number_of(c)) {
        let j = choose|j: int| 0 <= j < numbers.len() && numbers[j] == number_of(c);
        assert(choices[j] == c);
    }
}

/// Three penalties that match three numbers one by one are the penalties
/// those numbers stand for.
proof fn lemma_stands_for(choices: Seq<DebufChoices>, numbers: Seq<usize>)
    requires
        choices.len() == 3,
        numbers.len() == 3,
        choices[0] == choice_at(numbers[0] as int),
        choices[1] == choice_at(numbers[1] as int),
        choices[2] == choice_at(numbers[2] as int),
    ensures
        choices == choices_of(numbers),
{
    assert(choices =~= choices_of(numbers));
}

/// Whatever the three draws are, the two parents get three penalties each,
/// no penalty goes to both, and each of the six goes to one of them.
pub proof fn lemma_offer_splits_all_choices(i1: int, i2: int, i3: int)
    requires
        are_draws(i1, i2, i3),
    ensures
        splits_all_choices(choices_of(drawn(i1, i2, i3)), choices_of(left(i1, i2, i3))),
        choices_of(drawn(i1, i2, i3)).no_duplicates(),
        choices_of(left(i1, i2, i3)).no_duplicates(),
{
    let whole = pool();
    let after_one = whole.remove(i1);
    let after_two = after_one.remove(i2);
    let after_three = after_two.remove(i3);
    let d = drawn(i1, i2, i3);
    assert(whole.no_duplicates());
    lemma_remove_keeps_the_rest(whole, i1);
    lemma_remove_keeps_the_rest(after_one, i2);
    lemma_remove_keeps_the_rest(after_two, i3);
    assert(whole.contains(whole[i1]));
    assert(after_one.contains(after_one[i2]));
    assert(after_two.contains(after_two[i3]));
    assert forall|j: int| 0 <= j < after_three.len() implies after_three[j] < 6 by {
        assert(after_three.contains(after_three[j]));
        assert(whole.contains(after_three[j]));
    }
    assert forall|j: int| 0 <= j < d.len() implies d[j] < 6 by {
        assert(whole.contains(d[j]));
    }
    let dad = choices_of(d);
    let mom = choices_of(after_three);
    assert forall|c: DebufChoices| dad.contains(c) != mom.contains(c) by {
        let n = number_of(c);
        lemma_choices_hold(d, c);
        lemma_choices_hold(after_three, c);
        assert(whole[n as int] == n);
        assert(whole.contains(n));
        if d.contains(n) {
            assert(!after_three.contains(n));
        } else {
            assert(d[0] != n && d[1] != n && d[2] != n);
            assert(after_three.contains(n));
        }
    }
    assert(d.no_duplicates());
    assert(dad.no_duplicates());
    assert(mom.no_duplicates());
}

/// Different draws take different numbers out of the pool, or the same
/// numbers in another order.
pub proof fn lemma_draws_are_told_apart(i1: int, i2: int, i3: int, j1: int, j2: int, j3: int)
    requires
        are_draws(i1, i2, i3),
        are_draws(j1, j2, j3),
        drawn(i1, i2, i3) == drawn(j1, j2, j3),
    ensures
        i1 == j1,
        i2 == j2,
        i3 == j3,
{
    let first = drawn(i1, i2, i3);
    let second = drawn(j1, j2, j3);
    assert(first[0] == second[0]);
    assert(first[1] == second[1]);
    assert(first[2] == second[2]);
    pool().remove_ensures(i1);
    pool().remove_ensures(j1);
    assert(i1 == j1);
    pool().remove(i1).remove_ensures(i2);
    pool().remove(i1).remove_ensures(j2);
    assert(i2 == j2);
}

/// Every way of taking three different numbers out of the pool, one after
/// the other, comes from some draws. With the lemma before, the 120 triples
/// of draws and the 120 ordered choices match one to one, so draws that are
/// all equally likely make every split of the six equally likely.
pub proof fn lemma_every_ordered_choice_is_drawn(a: usize, b: usize, c: usize)
    requires
        a < 6,
        b < 6,
        c < 6,
        a != b,
        a != c,
        b != c,
    ensures
        exists|i1: int, i2: int, i3: int|
            are_draws(i1, i2, i3) && #[trigger] drawn(i1, i2, i3) == seq![a, b, c],
{
    let i1 = a as int;
    let i2 = if b < a {
        b as int
    } else {
        b - 1
    };
    let below_c = (if a < c {
        1int
    } else {
        0int
    }) + (if b < c {
        1int
    } else {
        0int
    });
    let i3 = c - below_c;
    let after_one = pool().remove(i1);
    pool().remove_ensures(i1);
    assert(after_one[i2] == b);
    let after_two = after_one.remove(i2);
    after_one.remove_ensures(i2);
    assert(after_two[i3] == c);
    assert(drawn(i1, i2, i3) =~= seq![a, b, c]);
}

impl Debuff {
    /// The penalty with number `i`.
    pub fn get_default(i: usize) -> (choice: DebufChoices)
        ensures
            choice == choice_at(i as int),
    {
        match i {
            0 => DebufChoices::Speed,
            1 => DebufChoices::Bullets,
            2 => DebufChoices::BulletsTtl,
            3 => DebufChoices::Damage,
            4 => DebufChoices::BulletsSpeed,
            5 => DebufChoices::FireRate,
            _ => DebufChoices::Speed,
        }
    }

    /// The three penalties, in the order in which they apply.
    pub fn get_defaults(&self) -> (choices: [DebufChoices; 3])
        ensures
            choices@ == self@,
    {
        self.debuff_choice
    }

    /// What a menu shows of the bundle: one line per penalty.
    pub open spec fn label(self) -> Seq<char> {
        self@[0].label() + "\n"@ + self@[1].label() + "\n"@ + self@[2].label() + "\n"@
    }

    /// Writes the lines that name the three penalties.
    pub fn to_text(&self) -> (text: String)
        ensures
            text@ == self.label(),
    {
        let mut text = self.debuff_choice[0].to_text();
        text.append("\n");
        text.append(self.debuff_choice[1].to_text().as_str());
        text.append("\n");
        text.append(self.debuff_choice[2].to_text().as_str());
        text.append("\n");
        text
    }

    /// Splits the six penalties between two parents from three draws: `dad`
    /// gets what the draws take out of the pool, `mom` what stays in it.
    pub fn from_draws(i1: usize, i2: usize, i3: usize) -> (offer: (Debuff, Debuff))
        requires
            i1 < 6,
            i2 < 5,
            i3 < 4,
        ensures
            offer.0@ == choices_of(drawn(i1 as int, i2 as int, i3 as int)),
            offer.1@ == choices_of(left(i1 as int, i2 as int, i3 as int)),
    {
        let mut vec_mom: Vec<usize> = vec![0, 1, 2, 3, 4, 5];
        let mut vec_dad: Vec<usize> = Vec::new();
        assert(vec_mom@ =~= pool());
        let ghost whole = vec_mom@;
        let d1 = vec_mom.remove(i1);
        vec_dad.push(d1);
        let ghost after_one = vec_mom@;
        let d2 = vec_mom.remove(i2);
        vec_dad.push(d2);
        let ghost after_two = vec_mom@;
        let d3 = vec_mom.remove(i3);
        vec_dad.push(d3);
        proof {
            whole.remove_ensures(i1 as int);
            after_one.remove_ensures(i2 as int);
            after_two.remove_ensures(i3 as int);
            assert(vec_dad@ =~= seq![whole[i1 as int], after_one[i2 as int], after_two[i3 as int]]);
        }

        let dad_default: [DebufChoices; 3] = [
            Self::get_default(vec_dad[0]),
            Self::get_default(vec_dad[1]),
            Self::get_default(vec_dad[2]),
        ];
        let mom_default: [DebufChoices; 3] = [
            Self::get_default(vec_mom[0]),
            Self::get_default(vec_mom[1]),
            Self::get_default(vec_mom[2]),
        ];
        proof {
            lemma_stands_for(dad_default@, vec_dad@);
            lemma_stands_for(mom_default@, vec_mom@);
        }
        (Debuff { debuff_choice: dad_default }, Debuff { debuff_choice: mom_default })
    }

    /// Draws the two bundles of penalties offered at a level-up: three
    /// penalties taken at random out of the six for `dad`, the other three for
    /// `mom`. Which split comes is left to chance; that it is a split is not.
    pub fn get_parent_random() -> (offer: (Debuff, Debuff))
        ensures
            exists|i1: int, i2: int, i3: int|
                are_draws(i1, i2, i3) && offer.0@ == #[trigger] choices_of(drawn(i1, i2, i3))
                    && offer.1@ == choices_of(left(i1, i2, i3)),
            splits_all_choices(offer.0@, offer.1@),
            offer.0@.no_duplicates(),
            offer.1@.no_duplicates(),
    {
        let i1 = random_below(6) as usize;
        let i2 = random_below(5) as usize;
        let i3 = random_below(4) as usize;
        let offer = Self::from_draws(i1, i2, i3);
        proof {
            lemma_offer_splits_all_choices(i1 as int, i2 as int, i3 as int);
        }
        offer
    }
}

} // verus!
