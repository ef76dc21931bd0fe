//! The budget of one wave: how many enemies it may spawn, how many it has
//! spawned and how many of them have been killed.

use crate::difficulty::level_parameters;
use crate::resource::{TotalKilled, TotalSpawned, TotalToSpawn};
use vstd::prelude::*;

verus! {

/// The three numbers of a wave.
pub struct SpawnBudget {
    pub quota: nat,
    pub spawned: nat,
    pub killed: nat,
}

/// One call that changes a budget.
pub enum BudgetCall {
    RecordSpawn,
    RecordKill,
}

impl SpawnBudget {
    /// The budget of a wave of `quota` enemies that has not begun.
    pub open spec fn fresh(quota: nat) -> SpawnBudget {
        SpawnBudget { quota, spawned: 0, killed: 0 }
    }

    /// Whether the wave may spawn one more enemy.
    pub open spec fn has_room(self) -> bool {
        self.spawned < self.quota
    }

    /// No more enemies have been spawned than the wave may spawn.
    pub open spec fn within_quota(self) -> bool {
        self.spawned <= self.quota
    }

    /// The budget after a request to spawn one enemy.
    pub open spec fn record_spawn(self) -> SpawnBudget {
        if self.has_room() {
            SpawnBudget { spawned: self.spawned + 1, ..self }
        } else {
            self
        }
    }

    /// The budget after a request to spawn up to `size` enemies at once.
    pub open spec fn record_batch(self, size: nat) -> SpawnBudget {
        SpawnBudget { spawned: self.spawned + self.batch(size), ..self }
    }

    /// How many enemies a request for `size` of them gets.
    pub open spec fn batch(self, size: nat) -> nat {
        if !self.has_room() {
            0
        } else if size <= self.quota - self.spawned {
            size
        } else {
            (self.quota - self.spawned) as nat
        }
    }

    /// The budget after one more kill. The count stops at `u32::MAX`.
    pub open spec fn record_kill(self) -> SpawnBudget {
        if self.killed < u32::MAX {
            SpawnBudget { killed: self.killed + 1, ..self }
        } else {
            self
        }
    }

    /// The wave is over once as many enemies are killed as it may spawn.
    pub open spec fn wave_complete(self) -> bool {
        self.killed >= self.quota
    }

    /// The budget after `call`.
    pub open spec fn step(self, call: BudgetCall) -> SpawnBudget {
        match call {
            BudgetCall::RecordSpawn => self.record_spawn(),
            BudgetCall::RecordKill => self.record_kill(),
        }
    }

    /// The budget after all of `calls`, first to last.
    pub open spec fn after(self, calls: Seq<BudgetCall>) -> SpawnBudget
        decreases calls.len(),
    {
        if calls.len() == 0 {
            self
        } else {
            self.after(calls.drop_last()).step(calls.last())
        }
    }

    /// The budget after `n` requests to spawn one enemy.
    pub open spec fn after_spawns(self, n: nat) -> SpawnBudget
        decreases n,
    {
        if n == 0 {
            self
        } else {
            self.after_spawns((n - 1) as nat).record_spawn()
        }
    }
}

/// No sequence of spawns and kills changes the quota or takes the number of
/// spawned enemies past it or back down, and kills never go down either.
pub proof fn lemma_spawned_stays_within_quota(budget: SpawnBudget, calls: Seq<BudgetCall>)
    requires
        budget.within_quota(),
    ensures
        budget.after(calls).within_quota(),
        budget.after(calls).quota == budget.quota,
        budget.after(calls).spawned >= budget.spawned,
        budget.after(calls).killed >= budget.killed,
    decreases calls.len(),
{
    if calls.len() > 0 {
        lemma_spawned_stays_within_quota(budget, calls.drop_last());
    }
}

/// Once a request to spawn is turned down, the wave is full: exactly as many
/// enemies are spawned as it may spawn, and every later request is turned
/// down too, whatever is killed in between.
pub proof fn lemma_full_wave_stays_full(budget: SpawnBudget, calls: Seq<BudgetCall>)
    requires
        budget.within_quota(),
        !budget.has_room(),
    ensures
        budget.spawned == budget.quota,
        !budget.after(calls).has_room(),
        budget.after(calls).spawned == budget.quota,
    decreases calls.len(),
{
    if calls.len() > 0 {
        lemma_full_wave_stays_full(budget, calls.drop_last());
    }
}

/// Whatever is asked of a wave from its beginning on, it never has more
/// enemies spawned than it may spawn; once a request to spawn is turned
/// down it has exactly that many; and it is over exactly when as many are
/// killed as it may spawn.
pub proof fn lemma_wave_never_passes_quota(quota: nat, calls: Seq<BudgetCall>)
    ensures
        SpawnBudget::fresh(quota).after(calls).quota == quota,
        SpawnBudget::fresh(quota).after(calls).within_quota(),
        !SpawnBudget::fresh(quota).after(calls).has_room() ==> SpawnBudget::fresh(quota).after(
            calls,
        ).spawned == quota,
        SpawnBudget::fresh(quota).after(calls).wave_complete() <==> SpawnBudget::fresh(quota).after(
            calls,
        ).killed >= quota,
{
    lemma_spawned_stays_within_quota(SpawnBudget::fresh(quota), calls);
}

/// Whether a wave is over depends on its quota and its kills alone, not on
/// how many enemies have been spawned.
pub proof fn lemma_wave_complete_ignores_spawned(a: SpawnBudget, b: SpawnBudget)
    requires
        a.quota == b.quota,
        a.killed == b.killed,
    ensures
        a.wave_complete() == b.wave_complete(),
        a.wave_complete() <==> a.killed >= a.quota,
{
}

/// A wave that has not begun is over only if it asks for no enemy at all.
pub proof fn lemma_fresh_wave_complete_iff_empty(quota: nat)
    ensures
        SpawnBudget::fresh(quota).wave_complete() == (quota == 0),
        SpawnBudget::fresh(quota).within_quota(),
{
}

/// A request for a batch of `size` enemies does what `size` requests for one
/// enemy do.
pub proof fn lemma_batch_is_repeated_spawn(budget: SpawnBudget, size: nat)
    requires
        budget.within_quota(),
    ensures
        budget.record_batch(size) == budget.after_spawns(size),
    decreases size,
{
    if size > 0 {
        lemma_batch_is_repeated_spawn(budget, (size - 1) as nat);
    }
}

/// Keeps the budget of the current wave: the resources that say what the
/// wave asks for, what was spawned and what was killed.
#[derive(Clone, Copy, Debug)]
pub struct SpawnBudgetTracker {
    pub to_spawn: TotalToSpawn,
    pub spawned: TotalSpawned,
    pub killed: TotalKilled,
}

impl View for SpawnBudgetTracker {
    type V = SpawnBudget;

    open spec fn view(&self) -> SpawnBudget {
        SpawnBudget {
            quota: self.to_spawn.amount as nat,
            spawned: self.spawned.amount as nat,
            killed: self.killed.amount as nat,
        }
    }
}

impl Default for SpawnBudgetTracker {
    /// The budget of the opening wave, before it begins.
    fn default() -> (tracker: SpawnBudgetTracker)
        ensures
            tracker.to_spawn.level() == level_parameters(0),
            tracker@ == SpawnBudget::fresh(tracker.to_spawn.amount as nat),
            tracker@.within_quota(),
    {
        SpawnBudgetTracker {
            to_spawn: TotalToSpawn::default(),
            spawned: TotalSpawned::default(),
            killed: TotalKilled::default(),
        }
    }
}

impl SpawnBudgetTracker {
    /// Asks to spawn one enemy. Returns `true` and counts it if the wave has
    /// room; otherwise returns `false` and changes nothing.
    pub fn record_spawn(&mut self) -> (allowed: bool)
        ensures
            allowed == old(self)@.has_room(),
            final(self)@ == old(self)@.record_spawn(),
            final(self).to_spawn == old(self).to_spawn,
            old(self)@.within_quota() ==> final(self)@.within_quota(),
    {
        self.spawned.record_spawn(&self.to_spawn)
    }

    /// Asks to spawn one batch of enemies, as large as the wave's batch size
    /// and the room left in it allow, and returns how many it may spawn.
    pub fn record_batch(&mut self) -> (count: u32)
        ensures
            count == old(self)@.batch(old(self).to_spawn.quantity_per_spawn as nat),
            final(self)@ == old(self)@.record_batch(old(self).to_spawn.quantity_per_spawn as nat),
            final(self).to_spawn == old(self).to_spawn,
            old(self)@.within_quota() ==> final(self)@.within_quota(),
    {
        self.spawned.record_batch(&self.to_spawn)
    }

    /// Counts one kill, whatever has been spawned.
    pub fn record_kill(&mut self)
        ensures
            final(self)@ == old(self)@.record_kill(),
            final(self).to_spawn == old(self).to_spawn,
            final(self).spawned == old(self).spawned,
            old(self)@.within_quota() ==> final(self)@.within_quota(),
    {
        self.killed.record_kill();
    }

    /// Whether the wave is over: as many enemies killed as it may spawn.
    pub fn is_wave_complete(&self) -> (complete: bool)
        ensures
            complete == self@.wave_complete(),
            complete == (self.killed.amount >= self.to_spawn.amount),
    {
        self.killed.amount >= self.to_spawn.amount
    }

    /// Starts a wave of `new_quota` enemies with nothing spawned or killed.
    pub fn reset(&mut self, new_quota: u32)
        ensures
            final(self)@ == SpawnBudget::fresh(new_quota as nat),
            final(self)@.within_quota(),
            final(self).to_spawn.rate == old(self).to_spawn.rate,
            final(self).to_spawn.quantity_per_spawn == old(self).to_spawn.quantity_per_spawn,
            final(self)@.wave_complete() == (new_quota == 0),
    {
        self.to_spawn.amount = new_quota;
        self.spawned.amount = 0;
        self.killed.amount = 0;
    }
}

} // verus!
