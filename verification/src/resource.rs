//! The state that lasts for a whole playthrough: what the current wave asks
//! for, what has been spawned and killed so far, and the score.

use crate::constants::{
    BEGIN_DATE, DECREMENT_DATE_PER_LEVEL, MAX_LEVEL, MAX_WAVE_CALIBRATION,
};
use crate::difficulty::{
    last_row_scaled, level_parameters, multiplier, DifficultyLevel, DifficultyTable,
};
use crate::text::{signed_decimal, signed_decimal_text};
use std::collections::HashMap;
use vstd::prelude::*;

verus! {

/// What the current wave asks for.
#[derive(Clone, Copy, Debug, PartialEq, Eq, Structural)]
pub struct TotalToSpawn {
    /// Enemies to defeat before the wave is over.
    pub amount: u32,
    /// Seconds between two spawn batches, in thousandths.
    pub rate: u64,
    /// Enemies that one spawn batch brings at most.
    pub quantity_per_spawn: u32,
}

impl TotalToSpawn {
    /// The same parameters as a level of the difficulty table.
    pub open spec fn level(self) -> DifficultyLevel {
        DifficultyLevel {
            enemy_quota: self.amount,
            spawn_interval: self.rate,
            batch_size: self.quantity_per_spawn,
        }
    }

    /// Takes over the parameters of level `index`.
    pub fn update_paramter_for_level_id(&mut self, index: u32)
        ensures
            final(self).level() == level_parameters(index),
            index >= MAX_WAVE_CALIBRATION ==> final(self).level() == last_row_scaled(multiplier(index)),
    {
        let level = DifficultyTable::lookup(index);
        self.amount = level.enemy_quota;
        self.rate = level.spawn_interval;
        self.quantity_per_spawn = level.batch_size;
    }
}

impl Default for TotalToSpawn {
    /// The parameters of the opening level.
    fn default() -> (to_spawn: TotalToSpawn)
        ensures
            to_spawn.level() == level_parameters(0),
    {
        let level = DifficultyTable::lookup(0);
        TotalToSpawn {
            amount: level.enemy_quota,
            rate: level.spawn_interval,
            quantity_per_spawn: level.batch_size,
        }
    }
}

/// Enemies spawned in the current wave.
#[derive(Clone, Copy, Debug, PartialEq, Eq, Structural)]
pub struct TotalSpawned {
    pub amount: u32,
}

impl Default for TotalSpawned {
    fn default() -> (spawned: TotalSpawned)
        ensures
            spawned.amount == 0,
    {
        TotalSpawned { amount: 0 }
    }
}

impl TotalSpawned {
    /// Counts one more enemy as spawned if the wave has room for it, and says
    /// whether it had. A full wave is left as it is.
    pub fn record_spawn(&mut self, to_spawn: &TotalToSpawn) -> (allowed: bool)
        ensures
            allowed == (old(self).amount < to_spawn.amount),
            allowed ==> final(self).amount == old(self).amount + 1,
            !allowed ==> final(self).amount == old(self).amount,
    {
        if self.amount < to_spawn.amount {
            self.amount = self.amount + 1;
            true
        } else {
            false
        }
    }

    /// How many enemies a wave that asks for `quota` and has spawned
    /// `spawned` grants to a batch of `size`.
    pub open spec fn granted(quota: u32, spawned: u32, size: u32) -> u32 {
        if spawned >= quota {
            0
        } else if size <= quota - spawned {
            size
        } else {
            (quota - spawned) as u32
        }
    }

    /// Counts one batch of enemies as spawned, as large as the wave's batch
    /// size and the room left in it allow, and returns how many that is.
    pub fn record_batch(&mut self, to_spawn: &TotalToSpawn) -> (count: u32)
        ensures
            count == Self::granted(
                to_spawn.amount,
                old(self).amount,
                to_spawn.quantity_per_spawn,
            ),
            final(self).amount == old(self).amount + count,
    {
        if to_spawn.amount <= self.amount {
            return 0;
        }
        let room: u32 = to_spawn.amount - self.amount;
        let count: u32 = if to_spawn.quantity_per_spawn <= room {
            to_spawn.quantity_per_spawn
        } else {
            room
        };
        self.amount = self.amount + count;
        count
    }
}

/// Enemies killed in the current wave.
#[derive(Clone, Copy, Debug, PartialEq, Eq, Structural)]
pub struct TotalKilled {
    pub amount: u32,
}

impl TotalKilled {
    /// Counts one more enemy as killed. The count stops at `u32::MAX`.
    pub fn record_kill(&mut self)
        ensures
            old(self).amount < u32::MAX ==> final(self).amount == old(self).amount + 1,
            old(self).amount == u32::MAX ==> final(self).amount == u32::MAX,
    {
        self.amount = self.amount.saturating_add(1);
    }
}

impl Default for TotalKilled {
    fn default() -> (killed: TotalKilled)
        ensures
            killed.amount == 0,
    {
        TotalKilled { amount: 0 }
    }
}

/// A number of thousandths rounded to the nearest whole, halves away from zero.
pub open spec fn rounded(thousandths: int) -> int {
    if thousandths >= 0 {
        (thousandths + 500) / 1000
    } else {
        -((500 - thousandths) / 1000)
    }
}

/// The level reached, the year the story has gone back to, and the year the
/// date panel shows while it runs down to it.
#[derive(Clone, Copy, Debug)]
pub struct Score {
    level: u32,
    date_pannel_level_effect: i64,
    date: i32,
}

impl Score {
    #[verifier::type_invariant]
    spec fn well_formed(self) -> bool {
        &&& self.level <= MAX_LEVEL
        &&& self.date == BEGIN_DATE - DECREMENT_DATE_PER_LEVEL * self.level
        &&& self.date * 1000 <= self.date_pannel_level_effect <= BEGIN_DATE * 1000
    }

    /// The level reached; the first level is level zero.
    pub closed spec fn level(self) -> u32 {
        self.level
    }

    /// The year the story has gone back to.
    pub closed spec fn date(self) -> i32 {
        self.date
    }

    /// The year on the date panel, in thousandths.
    pub closed spec fn shown(self) -> i64 {
        self.date_pannel_level_effect
    }

    /// The level reached. No score goes past [`MAX_LEVEL`].
    pub fn get_level_index(&self) -> (level: u32)
        ensures
            level == self.level(),
            level <= MAX_LEVEL,
    {
        proof {
            use_type_invariant(self);
        }
        self.level
    }

    /// The year the story has gone back to: the first year less the
    /// decrement of every level passed.
    pub fn get_date(&self) -> (date: i32)
        ensures
            date == self.date(),
            date == BEGIN_DATE - DECREMENT_DATE_PER_LEVEL * self.level(),
    {
        proof {
            use_type_invariant(self);
        }
        self.date
    }

    /// The year on the date panel, in thousandths: never before the year the
    /// story has gone back to, never after the first year.
    pub fn get_shown(&self) -> (shown: i64)
        ensures
            shown == self.shown(),
            self.date() * 1000 <= shown <= BEGIN_DATE * 1000,
    {
        proof {
            use_type_invariant(self);
        }
        self.date_pannel_level_effect
    }

    /// Moves on to the next level and takes the story one step back in time.
    /// The date panel keeps what it shows.
    pub fn level_up(&mut self)
        requires
            old(self).level() < MAX_LEVEL,
        ensures
            final(self).level() == old(self).level() + 1,
            final(self).date() == old(self).date() - DECREMENT_DATE_PER_LEVEL,
            final(self).shown() == old(self).shown(),
    {
        proof {
            use_type_invariant(&*self);
        }
        *self = Score {
            level: self.level + 1,
            date_pannel_level_effect: self.date_pannel_level_effect,
            date: self.date - DECREMENT_DATE_PER_LEVEL,
        };
    }

    /// Runs the date panel down by `amount` thousandths of a year, but not
    /// past the year the story has gone back to.
    pub fn decrease(&mut self, amount: u64)
        ensures
            final(self).level() == old(self).level(),
            final(self).date() == old(self).date(),
            final(self).shown() == if old(self).shown() - amount >= old(self).date() * 1000 {
                old(self).shown() - amount
            } else {
                old(self).date() * 1000
            },
    {
        proof {
            use_type_invariant(&*self);
        }
        let floor: i64 = (self.date as i64) * 1000;
        let room: u64 = (self.date_pannel_level_effect - floor) as u64;
        let shown: i64 = if amount <= room {
            self.date_pannel_level_effect - (amount as i64)
        } else {
            floor
        };
        *self = Score { level: self.level, date_pannel_level_effect: shown, date: self.date };
    }

    /// The year on the date panel, rounded to a whole year and written out.
    pub fn to_text(&self) -> (text: String)
        ensures
            text@ == signed_decimal_text(rounded(self.shown() as int)),
    {
        proof {
            use_type_invariant(self);
        }
        let shown = self.date_pannel_level_effect;
        let year: i64 = if shown >= 0 {
            (shown + 500) / 1000
        } else {
            -((500 - shown) / 1000)
        };
        signed_decimal(year as i32)
    }

    /// The period the level plays in: 0 for the first two levels, 1 for the
    /// three after them, 2 from then on.
    pub fn historic_period_theme(&self) -> (theme: i32)
        ensures
            theme == if self.level() < 2 {
                0int
            } else if self.level() < 5 {
                1int
            } else {
                2int
            },
    {
        if self.level < 2 {
            0
        } else if self.level < 5 {
            1
        } else {
            2
        }
    }

    /// Whether the level opens a period, so that its music has to start.
    pub fn should_start_music(&self) -> (start: bool)
        ensures
            start == (self.level() == 0 || self.level() == 2 || self.level() == 5),
    {
        self.level == 0 || self.level == 2 || self.level == 5
    }

    /// Whether the level closes a period, so that its music has to stop.
    pub fn should_stop_music(&self) -> (stop: bool)
        ensures
            stop == (self.level() == 1 || self.level() == 3),
    {
        self.level == 1 || self.level == 3
    }
}

impl Default for Score {
    /// The score at the start of a playthrough.
    fn default() -> (score: Score)
        ensures
            score.level() == 0,
            score.date() == BEGIN_DATE,
            score.shown() == BEGIN_DATE * 1000,
    {
        Score { level: 0, date_pannel_level_effect: 2_100_000, date: BEGIN_DATE }
    }
}

/// What a square of ground is made of.
#[derive(Clone, Copy, Debug, PartialEq, Eq, Structural)]
pub enum ChunkType {
    Basic,
}

/// The number under which the square at column `x` and row `y` is kept.
pub open spec fn chunk_key(x: i32, y: i32) -> u64 {
    ((x + 0x8000_0000) * 0x1_0000_0000 + (y + 0x8000_0000)) as u64
}

/// No two squares are kept under the same number.
pub proof fn lemma_chunk_key_is_one_to_one(a: (i32, i32), b: (i32, i32))
    ensures
        chunk_key(a.0, a.1) == chunk_key(b.0, b.1) <==> a == b,
{
}

/// Whether square `c` lies within two squares of the columns from `min_x`
/// to `max_x` and the rows from `min_y` to `max_y`: the two squares before
/// the first and the one after the last count in.
pub open spec fn in_reach(c: (i32, i32), min_x: i32, max_x: i32, min_y: i32, max_y: i32) -> bool {
    &&& min_x - 2 <= c.0 < max_x + 2
    &&& min_y - 2 <= c.1 < max_y + 2
}

/// Whether square `a` comes before square `b`: by column first, then by row.
pub open spec fn comes_before(a: (i32, i32), b: (i32, i32)) -> bool {
    a.0 < b.0 || (a.0 == b.0 && a.1 < b.1)
}

/// The squares of ground that are laid out.
pub struct ChunksMap {
    chunks: HashMap<u64, ChunkType>,
}

impl View for ChunksMap {
    type V = Map<(i32, i32), ChunkType>;

    closed spec fn view(&self) -> Map<(i32, i32), ChunkType> {
        Map::new(
            |c: (i32, i32)| self.chunks@.contains_key(chunk_key(c.0, c.1)),
            |c: (i32, i32)| self.chunks@[chunk_key(c.0, c.1)],
        )
    }
}

fn key_of(x: i32, y: i32) -> (key: u64)
    ensures
        key == chunk_key(x, y),
{
    let column: u64 = (x as i64 + 0x8000_0000) as u64;
    let row: u64 = (y as i64 + 0x8000_0000) as u64;
    column * 0x1_0000_0000 + row
}

impl ChunksMap {
    /// No ground at all.
    pub fn new() -> (map: ChunksMap)
        ensures
            map@ == Map::<(i32, i32), ChunkType>::empty(),
    {
        let map = ChunksMap { chunks: HashMap::new() };
        assert(map@ =~= Map::<(i32, i32), ChunkType>::empty());
        map
    }

    /// Forgets all the ground.
    pub fn clear(&mut self)
        ensures
            final(self)@ == Map::<(i32, i32), ChunkType>::empty(),
    {
        self.chunks.clear();
        assert(self@ =~= Map::<(i32, i32), ChunkType>::empty());
    }

    /// What the square at column `x` and row `y` is made of, if it is laid out.
    pub fn get(&self, x: i32, y: i32) -> (kind: Option<ChunkType>)
        ensures
            kind.is_some() == self@.contains_key((x, y)),
            kind.is_some() ==> kind.unwrap() == self@[(x, y)],
    {
        broadcast use vstd::std_specs::hash::group_hash_axioms;

        let key = key_of(x, y);
        match self.chunks.get(&key) {
            Some(kind) => Some(*kind),
            None => None,
        }
    }

    /// Lays out the square at column `x` and row `y`, over what was there.
    pub fn insert(&mut self, x: i32, y: i32, kind: ChunkType)
        ensures
            final(self)@ == old(self)@.insert((x, y), kind),
    {
        broadcast use vstd::std_specs::hash::group_hash_axioms;

        let key = key_of(x, y);
        self.chunks.insert(key, kind);
        proof {
            assert forall|c: (i32, i32)| chunk_key(c.0, c.1) == key <==> c == (x, y) by {
                lemma_chunk_key_is_one_to_one(c, (x, y));
            }
            assert(self@ =~= old(self)@.insert((x, y), kind));
        }
    }
}

} // verus!
