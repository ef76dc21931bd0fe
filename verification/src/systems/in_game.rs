//! The steps of a running wave.

use crate::components::{Enemy, Player};
use crate::constants::{
    MAX_LEVEL, MOB_HEALTH, MOB_ROBOT_ODDS, MOB_SPAWN_DIRECTIONS, PLAYER_FRAMES_FACING,
};
use crate::difficulty::level_parameters;
use crate::random::random_below;
use crate::resource::{
    comes_before, in_reach, ChunkType, ChunksMap, Score, TotalKilled, TotalSpawned,
    TotalToSpawn,
};
use crate::{AppState, GameEvent};
use vstd::prelude::*;

verus! {

/// The player asks for a shot.
#[derive(Debug, Clone, Copy, Eq, PartialEq, Structural)]
pub struct SpawnBulletEvent;

/// The last enemy of the wave is dead.
#[derive(Debug, Clone, Copy, Eq, PartialEq, Structural)]
pub struct WaveDoneEvent;

/// The player's character is dead.
#[derive(Debug, Clone, Copy, Eq, PartialEq, Structural)]
pub struct GameOverEvent;

/// The ground has to be laid out anew.
#[derive(Debug, Clone, Copy, Eq, PartialEq, Structural)]
pub struct CreateMapEvent;

/// The spawn timer has fired.
#[derive(Debug, Clone, Copy, Eq, PartialEq, Default, Structural)]
pub struct MobSpawnEvent;

/// The frame of its animation that a sprite shows next. A sprite at rest
/// shows its first frame. A moving sprite keeps its frame until its timer
/// has run out and then steps on, round and round: an enemy through all
/// `frames` of its sheet, the player through the first half of them, shown
/// from behind when moving up.
pub open spec fn next_frame(
    index: usize,
    frames: usize,
    maybe_player: Option<Player>,
    moving: bool,
    upward: bool,
    timer_finished: bool,
) -> int {
    if !moving {
        0
    } else if !timer_finished {
        index as int
    } else if maybe_player.is_none() {
        (index + 1) % (frames as int)
    } else if upward {
        (index + 1) % (frames as int / 2) + PLAYER_FRAMES_FACING
    } else {
        (index + 1) % (frames as int / 2)
    }
}

/// Picks the frame a sprite shows next. A sheet that is stepped through
/// must have a frame to step to, and the frame's number must fit.
pub fn animate_sprite(
    index: usize,
    frames: usize,
    maybe_player: Option<Player>,
    moving: bool,
    upward: bool,
    timer_finished: bool,
) -> (next: usize)
    requires
        moving && timer_finished ==> {
            &&& index < usize::MAX
            &&& maybe_player.is_none() ==> frames >= 1
            &&& maybe_player.is_some() ==> frames >= 2
            &&& next_frame(index, frames, maybe_player, moving, upward, timer_finished)
                <= usize::MAX
        },
    ensures
        next == next_frame(index, frames, maybe_player, moving, upward, timer_finished),
{
    if !moving {
        return 0;
    }
    if !timer_finished {
        return index;
    }
    if maybe_player.is_some() {
        let step = (index + 1) % (frames / 2);
        if upward {
            step + PLAYER_FRAMES_FACING
        } else {
            step
        }
    } else {
        (index + 1) % frames
    }
}

/// One batch of enemies for the host to put into the world.
#[derive(Debug, Clone, Copy, Eq, PartialEq, Structural)]
pub struct MobBatch {
    /// How many enemies the batch brings.
    pub count: u32,
    /// Whether they are robots.
    pub is_robot: bool,
    /// The health each of them starts with, in thousandths.
    pub health: u32,
    /// Where around the player they appear: tenths of a degree.
    pub angle: u32,
}

/// The batch that a fired spawn timer brings, given the numbers drawn for
/// the kind of enemy and for the direction: none without the timer or
/// without room in the wave; else as many enemies as the wave grants,
/// robots with twice the health if the first number is the last of its range.
pub open spec fn planned_batch(
    mob_spawn_event: Option<MobSpawnEvent>,
    to_spawn: TotalToSpawn,
    spawned: TotalSpawned,
    robot_draw: u32,
    angle_draw: u32,
) -> Option<MobBatch> {
    if mob_spawn_event.is_none() || to_spawn.amount <= spawned.amount {
        None
    } else {
        Some(
            MobBatch {
                count: TotalSpawned::granted(
                    to_spawn.amount,
                    spawned.amount,
                    to_spawn.quantity_per_spawn,
                ),
                is_robot: robot_draw == MOB_ROBOT_ODDS - 1,
                health: if robot_draw == MOB_ROBOT_ODDS - 1 {
                    (2 * MOB_HEALTH) as u32
                } else {
                    MOB_HEALTH
                },
                angle: angle_draw,
            },
        )
    }
}

/// How many enemies `batch` brings.
pub open spec fn batch_count(batch: Option<MobBatch>) -> u32 {
    match batch {
        Some(b) => b.count,
        None => 0,
    }
}

/// Plans the batch for the numbers drawn and counts its enemies as spawned.
pub fn plan_mob_batch(
    mob_spawn_event: Option<MobSpawnEvent>,
    to_spawn: &TotalToSpawn,
    spawned: &mut TotalSpawned,
    robot_draw: u32,
    angle_draw: u32,
) -> (batch: Option<MobBatch>)
    ensures
        batch == planned_batch(mob_spawn_event, *to_spawn, *old(spawned), robot_draw, angle_draw),
        final(spawned).amount == old(spawned).amount + batch_count(batch),
        final(spawned).amount <= to_spawn.amount || final(spawned).amount == old(spawned).amount,
{
    if mob_spawn_event.is_none() || to_spawn.amount <= spawned.amount {
        return None;
    }
    let is_robot = robot_draw == MOB_ROBOT_ODDS - 1;
    let health = if is_robot {
        2 * MOB_HEALTH
    } else {
        MOB_HEALTH
    };
    let count = spawned.record_batch(to_spawn);
    Some(MobBatch { count, is_robot, health, angle: angle_draw })
}

/// Answers the spawn timer: draws the kind of enemy and the direction they
/// come from, and grants the batch as far as the wave has room. Without a
/// fired timer, or in a full wave, nothing is spawned and nothing changes.
pub fn mob_spawner(
    mob_spawn_event: Option<MobSpawnEvent>,
    to_spawn: &TotalToSpawn,
    spawned: &mut TotalSpawned,
) -> (batch: Option<MobBatch>)
    ensures
        batch.is_some() == (mob_spawn_event.is_some() && old(spawned).amount < to_spawn.amount),
        exists|robot_draw: u32, angle_draw: u32|
            robot_draw < MOB_ROBOT_ODDS && angle_draw < MOB_SPAWN_DIRECTIONS && batch
                == #[trigger] planned_batch(
                mob_spawn_event,
                *to_spawn,
                *old(spawned),
                robot_draw,
                angle_draw,
            ),
        final(spawned).amount == old(spawned).amount + batch_count(batch),
        final(spawned).amount <= to_spawn.amount || final(spawned).amount == old(spawned).amount,
{
    let robot_draw = random_below(MOB_ROBOT_ODDS);
    if mob_spawn_event.is_none() || to_spawn.amount <= spawned.amount {
        assert(planned_batch(mob_spawn_event, *to_spawn, *spawned, robot_draw, 0).is_none());
        return None;
    }
    let angle_draw = random_below(MOB_SPAWN_DIRECTIONS);
    plan_mob_batch(mob_spawn_event, to_spawn, spawned, robot_draw, angle_draw)
}

/// What the host knows of one thing that has health.
#[derive(Debug, Clone, Copy)]
pub struct Mortal {
    /// Whether its health is used up.
    pub dead: bool,
    pub maybe_enemy: Option<Enemy>,
    pub maybe_player: Option<Player>,
}

/// What the dead leave behind.
#[derive(Debug)]
pub struct Casualties {
    /// The positions, in the list handed in, of the things to take out of
    /// the world, in rising order.
    pub despawn: Vec<usize>,
    /// Set when the player's character is among the dead.
    pub game_over: Option<GameOverEvent>,
}

/// How many dead enemies `mortals` holds.
pub open spec fn dead_enemies(mortals: Seq<Mortal>) -> nat
    decreases mortals.len(),
{
    if mortals.len() == 0 {
        0
    } else {
        dead_enemies(mortals.drop_last()) + if mortals.last().dead
            && mortals.last().maybe_enemy.is_some() {
            1nat
        } else {
            0nat
        }
    }
}

/// Whether the player's character is among the dead of `mortals`.
pub open spec fn player_died(mortals: Seq<Mortal>) -> bool {
    exists|i: int| 0 <= i < mortals.len() && is_dead_player(#[trigger] mortals[i])
}

pub open spec fn is_dead_player(mortal: Mortal) -> bool {
    mortal.dead && mortal.maybe_player.is_some()
}

/// The positions of the dead of `mortals` that leave the world: all of them
/// but the player's character.
pub open spec fn bodies(mortals: Seq<Mortal>) -> Seq<usize>
    decreases mortals.len(),
{
    if mortals.len() == 0 {
        Seq::empty()
    } else if mortals.last().dead && mortals.last().maybe_player.is_none() {
        bodies(mortals.drop_last()).push((mortals.len() - 1) as usize)
    } else {
        bodies(mortals.drop_last())
    }
}

/// The kill count after `kills` more kills; it stops at `u32::MAX`.
pub open spec fn kills_added(killed: u32, kills: nat) -> u32 {
    if killed + kills > u32::MAX {
        u32::MAX
    } else {
        (killed + kills) as u32
    }
}

/// Goes through everything that has health and settles the dead: a dead
/// enemy counts as a kill, a dead player ends the game, and every dead thing
/// but the player leaves the world.
pub fn despawn_health(mortals: &Vec<Mortal>, total_killed: &mut TotalKilled) -> (casualties:
    Casualties)
    ensures
        final(total_killed).amount == kills_added(old(total_killed).amount, dead_enemies(mortals@)),
        casualties.game_over.is_some() == player_died(mortals@),
        casualties.despawn@ == bodies(mortals@),
{
    let mut despawn: Vec<usize> = Vec::new();
    let mut game_over: Option<GameOverEvent> = None;
    let mut i: usize = 0;
    assert(mortals@.take(0) =~= Seq::<Mortal>::empty());
    while i < mortals.len()
        invariant
            i <= mortals.len(),
            total_killed.amount == kills_added(
                old(total_killed).amount,
                dead_enemies(mortals@.take(i as int)),
            ),
            game_over.is_some() == player_died(mortals@.take(i as int)),
            despawn@ == bodies(mortals@.take(i as int)),
        decreases mortals.len() - i,
    {
        let mortal = &mortals[i];
        let ghost before = mortals@.take(i as int);
        let ghost now = mortals@.take(i + 1);
        assert(now.drop_last() =~= before);
        assert(now.last() == mortals@[i as int]);
        if mortal.dead {
            if mortal.maybe_enemy.is_some() {
                total_killed.record_kill();
            }
            if mortal.maybe_player.is_some() {
                game_over = Some(GameOverEvent);
            } else {
                despawn.push(i);
            }
        }
        proof {
            if player_died(now) {
                let k = choose|k: int| 0 <= k < now.len() && is_dead_player(#[trigger] now[k]);
                if k < i {
                    assert(is_dead_player(before[k]));
                }
            }
            if player_died(before) {
                let k = choose|k: int|
                    0 <= k < before.len() && is_dead_player(#[trigger] before[k]);
                assert(is_dead_player(now[k]));
            }
            if is_dead_player(mortals@[i as int]) {
                assert(is_dead_player(now[i as int]));
            }
        }
        i = i + 1;
    }
    assert(mortals@.take(mortals.len() as int) =~= mortals@);
    Casualties { despawn, game_over }
}

/// Says that the wave is over once as many enemies are killed as it asks for.
pub fn wave_is_done_emit(total_killed: &TotalKilled, total_to_spawn: &TotalToSpawn) -> (event:
    Option<WaveDoneEvent>)
    ensures
        event.is_some() == (total_killed.amount >= total_to_spawn.amount),
{
    if total_killed.amount >= total_to_spawn.amount {
        Some(WaveDoneEvent)
    } else {
        None
    }
}

/// Whether a finished wave takes the game to the next level: it does while
/// the wave runs, and nowhere else.
pub open spec fn levels_up(app_state: AppState, wave_done_event: Option<WaveDoneEvent>) -> bool {
    wave_done_event.is_some() && app_state == AppState::InGame
}

/// Moves the game on when the wave is over: the score goes up one level, the
/// next wave takes the parameters of that level and starts with nothing
/// spawned or killed, and the level-up menu comes up. Returns the period the
/// spawn timer has to take, in thousandths of a second. Without a finished
/// wave, or off the running game, nothing changes and nothing is returned.
pub fn change_level(
    app_state: &mut AppState,
    score: &mut Score,
    wave_done_event: Option<WaveDoneEvent>,
    total_spawned: &mut TotalSpawned,
    total_to_spawn: &mut TotalToSpawn,
    total_killed: &mut TotalKilled,
) -> (timer_period: Option<u64>)
    requires
        levels_up(*old(app_state), wave_done_event) ==> old(score).level() < MAX_LEVEL,
    ensures
        levels_up(*old(app_state), wave_done_event) ==> {
            &&& *final(app_state) == AppState::LevelMenu
            &&& final(score).level() == old(score).level() + 1
            &&& final(score).date() == old(score).date() - crate::constants::DECREMENT_DATE_PER_LEVEL
            &&& final(score).shown() == old(score).shown()
            &&& final(total_to_spawn).level() == level_parameters(final(score).level())
            &&& final(total_spawned).amount == 0
            &&& final(total_killed).amount == 0
            &&& timer_period == Some(level_parameters(final(score).level()).spawn_interval)
        },
        !levels_up(*old(app_state), wave_done_event) ==> {
            &&& *final(app_state) == *old(app_state)
            &&& *final(score) == *old(score)
            &&& *final(total_to_spawn) == *old(total_to_spawn)
            &&& *final(total_spawned) == *old(total_spawned)
            &&& *final(total_killed) == *old(total_killed)
            &&& timer_period.is_none()
        },
{
    if wave_done_event.is_none() {
        return None;
    }
    match *app_state {
        AppState::InGame => {},
        _ => {
            return None;
        },
    }
    score.level_up();
    total_to_spawn.update_paramter_for_level_id(score.get_level_index());
    total_killed.amount = 0;
    total_spawned.amount = 0;
    *app_state = app_state.transition(GameEvent::WaveDone);
    Some(total_to_spawn.rate)
}

/// Brings up the game-over menu when the player's character has died.
pub fn game_over(app_state: &mut AppState, game_over_event: Option<GameOverEvent>)
    ensures
        *final(app_state) == if game_over_event.is_some() {
            old(app_state).next(GameEvent::PlayerDied)
        } else {
            *old(app_state)
        },
{
    if game_over_event.is_some() {
        *app_state = app_state.transition(GameEvent::PlayerDied);
    }
}

/// Prepares a wave. A level that opens a period forgets the ground of the
/// period before and returns the number of the period whose music is to
/// play; any other level keeps ground and music.
pub fn setup_in_game(score: &Score, chunk_map: &mut ChunksMap) -> (music: Option<i32>)
    ensures
        music.is_some() == (score.level() == 0 || score.level() == 2 || score.level() == 5),
        score.level() == 0 ==> music == Some(0i32),
        score.level() == 2 ==> music == Some(1i32),
        score.level() == 5 ==> music == Some(2i32),
        music.is_some() ==> final(chunk_map)@ == Map::<(i32, i32), ChunkType>::empty(),
        music.is_none() ==> final(chunk_map)@ == old(chunk_map)@,
{
    if score.should_start_music() {
        chunk_map.clear();
        Some(score.historic_period_theme())
    } else {
        None
    }
}

/// Whether square `c` lies in a column before `x`, or in column `x` in a row
/// before `y`.
pub open spec fn passed(c: (i32, i32), x: int, y: int) -> bool {
    c.0 < x || (c.0 == x && c.1 < y)
}

/// Lays out, as basic ground, every square within reach of the columns
/// from `chunk_min_x` to `chunk_max_x` and the rows from `chunk_min_y` to
/// `chunk_max_y` that is not laid out yet, and returns those squares,
/// column by column and row by row. Ground that is laid out stays as it
/// is.
pub fn load_chunks(
    chunk_map: &mut ChunksMap,
    chunk_min_x: i32,
    chunk_max_x: i32,
    chunk_min_y: i32,
    chunk_max_y: i32,
) -> (loaded: Vec<(i32, i32)>)
    ensures
        forall|c: (i32, i32)|
            #![trigger final(chunk_map)@.contains_key(c)]
            #![trigger old(chunk_map)@.contains_key(c)]
            final(chunk_map)@.contains_key(c) <==> (old(chunk_map)@.contains_key(c) || in_reach(
                c,
                chunk_min_x,
                chunk_max_x,
                chunk_min_y,
                chunk_max_y,
            )),
        forall|c: (i32, i32)|
            #![trigger old(chunk_map)@.contains_key(c)]
            old(chunk_map)@.contains_key(c) ==> final(chunk_map)@[c] == old(chunk_map)@[c],
        forall|c: (i32, i32)|
            #![trigger final(chunk_map)@.contains_key(c)]
            final(chunk_map)@.contains_key(c) && !old(chunk_map)@.contains_key(c) ==> final(chunk_map)@[c]
                == ChunkType::Basic,
        forall|c: (i32, i32)|
            #![trigger loaded@.contains(c)]
            #![trigger old(chunk_map)@.contains_key(c)]
            loaded@.contains(c) <==> (!old(chunk_map)@.contains_key(c) && in_reach(
                c,
                chunk_min_x,
                chunk_max_x,
                chunk_min_y,
                chunk_max_y,
            )),
        forall|a: int, b: int|
            0 <= a < b < loaded@.len() ==> comes_before(loaded@[a], loaded@[b]),
{
    let first_x: i64 = if chunk_min_x as i64 - 2 < i32::MIN as i64 {
        i32::MIN as i64
    } else {
        chunk_min_x as i64 - 2
    };
    let first_y: i64 = if chunk_min_y as i64 - 2 < i32::MIN as i64 {
        i32::MIN as i64
    } else {
        chunk_min_y as i64 - 2
    };
    let end_x: i64 = if chunk_max_x as i64 + 2 > i32::MAX as i64 {
        i32::MAX as i64 + 1
    } else {
        chunk_max_x as i64 + 2
    };
    let end_y: i64 = if chunk_max_y as i64 + 2 > i32::MAX as i64 {
        i32::MAX as i64 + 1
    } else {
        chunk_max_y as i64 + 2
    };
    let mut loaded: Vec<(i32, i32)> = Vec::new();
    let mut i: i64 = first_x;
    while i < end_x
        invariant
            first_x <= i,
            i32::MIN <= first_x,
            end_x <= i32::MAX + 1,
            i32::MIN <= first_y,
            end_y <= i32::MAX + 1,
            forall|c: (i32, i32)|
                #![trigger in_reach(c, chunk_min_x, chunk_max_x, chunk_min_y, chunk_max_y)]
                in_reach(c, chunk_min_x, chunk_max_x, chunk_min_y, chunk_max_y) <==> (first_x
                    <= c.0 < end_x && first_y <= c.1 < end_y),
            forall|c: (i32, i32)|
                #![trigger chunk_map@.contains_key(c)]
                #![trigger old(chunk_map)@.contains_key(c)]
                chunk_map@.contains_key(c) <==> (old(chunk_map)@.contains_key(c) || (in_reach(
                    c,
                    chunk_min_x,
                    chunk_max_x,
                    chunk_min_y,
                    chunk_max_y,
                ) && passed(c, i as int, first_y as int))),
            forall|c: (i32, i32)|
                #![trigger old(chunk_map)@.contains_key(c)]
                old(chunk_map)@.contains_key(c) ==> chunk_map@[c] == old(chunk_map)@[c],
            forall|c: (i32, i32)|
                #![trigger old(chunk_map)@.contains_key(c)]
                chunk_map@.contains_key(c) && !old(chunk_map)@.contains_key(c) ==> chunk_map@[c]
                    == ChunkType::Basic,
            forall|c: (i32, i32)|
                #![trigger loaded@.contains(c)]
                #![trigger old(chunk_map)@.contains_key(c)]
                loaded@.contains(c) <==> (!old(chunk_map)@.contains_key(c) && in_reach(
                    c,
                    chunk_min_x,
                    chunk_max_x,
                    chunk_min_y,
                    chunk_max_y,
                ) && passed(c, i as int, first_y as int)),
            forall|a: int, b: int|
                0 <= a < b < loaded@.len() ==> comes_before(loaded@[a], loaded@[b]),
        decreases end_x - i,
    {
        let mut j: i64 = first_y;
        while j < end_y
            invariant
                first_x <= i < end_x,
                first_y <= j,
                i32::MIN <= first_x,
                end_x <= i32::MAX + 1,
                i32::MIN <= first_y,
                end_y <= i32::MAX + 1,
                forall|c: (i32, i32)|
                    #![trigger in_reach(c, chunk_min_x, chunk_max_x, chunk_min_y, chunk_max_y)]
                    in_reach(c, chunk_min_x, chunk_max_x, chunk_min_y, chunk_max_y) <==> (
                    first_x <= c.0 < end_x && first_y <= c.1 < end_y),
                forall|c: (i32, i32)|
                    #![trigger chunk_map@.contains_key(c)]
                    #![trigger old(chunk_map)@.contains_key(c)]
                    chunk_map@.contains_key(c) <==> (old(chunk_map)@.contains_key(c) || (in_reach(
                        c,
                        chunk_min_x,
                        chunk_max_x,
                        chunk_min_y,
                        chunk_max_y,
                    ) && passed(c, i as int, j as int))),
                forall|c: (i32, i32)|
                    #![trigger old(chunk_map)@.contains_key(c)]
                    old(chunk_map)@.contains_key(c) ==> chunk_map@[c] == old(chunk_map)@[c],
                forall|c: (i32, i32)|
                    #![trigger old(chunk_map)@.contains_key(c)]
                    chunk_map@.contains_key(c) && !old(chunk_map)@.contains_key(c) ==> chunk_map@[c]
                        == ChunkType::Basic,
                forall|c: (i32, i32)|
                    #![trigger loaded@.contains(c)]
                    #![trigger old(chunk_map)@.contains_key(c)]
                    loaded@.contains(c) <==> (!old(chunk_map)@.contains_key(c) && in_reach(
                        c,
                        chunk_min_x,
                        chunk_max_x,
                        chunk_min_y,
                        chunk_max_y,
                    ) && passed(c, i as int, j as int)),
                forall|a: int, b: int|
                    0 <= a < b < loaded@.len() ==> comes_before(loaded@[a], loaded@[b]),
            decreases end_y - j,
        {
            let x = i as i32;
            let y = j as i32;
            let ghost map_before = chunk_map@;
            let ghost loaded_before = loaded@;
            if chunk_map.get(x, y).is_none() {
                proof {
                    assert forall|a: int| 0 <= a < loaded@.len() implies comes_before(
                        loaded@[a],
                        (x, y),
                    ) by {
                        assert(loaded@.contains(loaded@[a]));
                    }
                }
                loaded.push((x, y));
                chunk_map.insert(x, y, ChunkType::Basic);
                proof {
                    assert forall|c: (i32, i32)|
                        loaded@.contains(c) <==> (loaded_before.contains(c) || c == (
                            x,
                            y,
                        )) by {
                        if loaded_before.contains(c) {
                            let k = choose|k: int|
                                0 <= k < loaded_before.len() && loaded_before[k] == c;
                            assert(loaded@[k] == c);
                        }
                        if c == (x, y) {
                            assert(loaded@[loaded@.len() - 1] == c);
                        }
                        if loaded@.contains(c) {
                            let k = choose|k: int| 0 <= k < loaded@.len() && loaded@[k] == c;
                            if k < loaded_before.len() {
                                assert(loaded_before[k] == c);
                            }
                        }
                    }
                }
            }
            j = j + 1;
        }
        i = i + 1;
    }
    loaded
}

} // verus!
