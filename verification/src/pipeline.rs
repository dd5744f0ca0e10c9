//! The startup dependency pipeline: a staged loader that defers derived
//! work until its prerequisite resources have finished loading.
//!
//! Each stage names the resource handles it awaits.  Once per tick the
//! caller polls the pipeline with the set of handles that now report loaded
//! (a handle counts as loaded only when all of its own dependencies are);
//! every stage whose handles are all loaded is removed from the pending list
//! in that same tick and its id is returned, so the caller runs its one-shot
//! reaction before the tick ends.  A reaction may register further stages,
//! chaining.  A stage whose handles never all load stays pending forever;
//! `pending_count` exposes that as a diagnosable signal.

use vstd::prelude::*;

verus! {

/// One pending stage: a name for its reaction, and the handles it awaits.
#[derive(Clone, Debug)]
pub struct Stage {
    pub id: u64,
    pub handles: Vec<u64>,
}

/// The handle `h` is in the loaded set.
pub open spec fn handle_loaded(loaded: Seq<u64>, h: u64) -> bool {
    exists|k: int| 0 <= k < loaded.len() && loaded[k] == h
}

/// Every handle the stage awaits is loaded.
pub open spec fn stage_ready(s: Stage, loaded: Seq<u64>) -> bool {
    forall|k: int| 0 <= k < s.handles@.len() ==> handle_loaded(loaded, #[trigger] s.handles@[k])
}

/// The stages still pending after one tick: the ready ones dropped, the rest
/// kept in registration order.
pub open spec fn remaining_spec(stages: Seq<Stage>, loaded: Seq<u64>) -> Seq<Stage>
    decreases stages.len(),
{
    if stages.len() == 0 {
        Seq::empty()
    } else {
        let rest = remaining_spec(stages.drop_last(), loaded);
        if stage_ready(stages.last(), loaded) {
            rest
        } else {
            rest.push(stages.last())
        }
    }
}

/// The ids of the stages one tick fires, in registration order.
pub open spec fn fired_spec(stages: Seq<Stage>, loaded: Seq<u64>) -> Seq<u64>
    decreases stages.len(),
{
    if stages.len() == 0 {
        Seq::empty()
    } else {
        let rest = fired_spec(stages.drop_last(), loaded);
        if stage_ready(stages.last(), loaded) {
            rest.push(stages.last().id)
        } else {
            rest
        }
    }
}

/// No two pending stages share an id.
pub open spec fn stage_ids_unique(stages: Seq<Stage>) -> bool {
    forall|k: int, l: int|
        0 <= k < l < stages.len() ==> (#[trigger] stages[k]).id != (#[trigger] stages[l]).id
}

/// Whether `h` is in the loaded set.
fn handle_is_loaded(loaded: &Vec<u64>, h: u64) -> (b: bool)
    ensures
        b == handle_loaded(loaded@, h),
{
    let mut k: usize = 0;
    while k < loaded.len()
        invariant
            0 <= k <= loaded@.len(),
            forall|j: int| 0 <= j < k ==> loaded@[j] != h,
        decreases loaded@.len() - k,
    {
        if loaded[k] == h {
            return true;
        }
        k = k + 1;
    }
    false
}

/// Whether every handle of `stage` is loaded.
fn stage_is_ready(stage: &Stage, loaded: &Vec<u64>) -> (b: bool)
    ensures
        b == stage_ready(*stage, loaded@),
{
    let mut k: usize = 0;
    while k < stage.handles.len()
        invariant
            0 <= k <= stage.handles@.len(),
            forall|j: int| 0 <= j < k ==> handle_loaded(loaded@, #[trigger] stage.handles@[j]),
        decreases stage.handles@.len() - k,
    {
        if !handle_is_loaded(loaded, stage.handles[k]) {
            return false;
        }
        k = k + 1;
    }
    true
}

/// The scheduler: the list of pending stages, in registration order.
#[derive(Clone, Debug)]
pub struct Pipeline {
    pub stages: Vec<Stage>,
}

impl Pipeline {
    /// A fresh pipeline with nothing pending.
    pub fn new() -> (p: Pipeline)
        ensures
            p.stages@.len() == 0,
    {
        Pipeline { stages: Vec::new() }
    }

    /// Register a stage.  It stays pending until every handle it names has
    /// loaded; re-registering an id is the only way a reaction can run again.
    pub fn register(&mut self, stage: Stage)
        ensures
            final(self).stages@ == old(self).stages@.push(stage),
    {
        self.stages.push(stage);
    }

    /// How many stages are still pending: the signal to watch when startup
    /// hangs on a resource that never loads.
    pub fn pending_count(&self) -> (n: usize)
        ensures
            n == self.stages@.len(),
    {
        self.stages.len()
    }

    /// One poll.  Every stage whose handles are all in `loaded` is removed
    /// and its id returned, in registration order; the others stay, in
    /// order.  A stage removed here is gone: no later tick returns its id
    /// again unless it is explicitly re-registered.
    pub fn tick(&mut self, loaded: &Vec<u64>) -> (fired: Vec<u64>)
        ensures
            final(self).stages@ == remaining_spec(old(self).stages@, loaded@),
            fired@ == fired_spec(old(self).stages@, loaded@),
    {
        let ghost original = self.stages@;
        let mut keep: Vec<Stage> = Vec::new();
        let mut fired: Vec<u64> = Vec::new();
        let n = self.stages.len();
        let mut k: usize = 0;
        while k < n
            invariant
                0 <= k <= n,
                n == original.len(),
                self.stages@ =~= original.skip(k as int),
                keep@ == remaining_spec(original.take(k as int), loaded@),
                fired@ == fired_spec(original.take(k as int), loaded@),
            decreases n - k,
        {
            let stage = self.stages.remove(0);
            proof {
                assert(stage == original[k as int]);
                assert(self.stages@ =~= original.skip(k + 1));
                assert(original.take(k + 1).drop_last() =~= original.take(k as int));
                assert(original.take(k + 1).last() == original[k as int]);
            }
            if stage_is_ready(&stage, loaded) {
                fired.push(stage.id);
            } else {
                keep.push(stage);
            }
            k = k + 1;
        }
        proof {
            assert(original.take(original.len() as int) =~= original);
        }
        self.stages = keep;
        fired
    }
}

/// Every id a tick fires names a stage that was pending and ready.
proof fn lemma_fired_are_ready_stages(stages: Seq<Stage>, loaded: Seq<u64>)
    ensures
        forall|x: u64|
            #[trigger] fired_spec(stages, loaded).contains(x) ==> exists|k: int|
                0 <= k < stages.len() && (#[trigger] stages[k]).id == x && stage_ready(
                    stages[k],
                    loaded,
                ),
    decreases stages.len(),
{
    if stages.len() > 0 {
        lemma_fired_are_ready_stages(stages.drop_last(), loaded);
        let f = fired_spec(stages, loaded);
        let rest = fired_spec(stages.drop_last(), loaded);
        assert forall|x: u64| #[trigger] f.contains(x) implies exists|k: int|
            0 <= k < stages.len() && (#[trigger] stages[k]).id == x && stage_ready(
                stages[k],
                loaded,
            ) by {
            let i = choose|i: int| 0 <= i < f.len() && f[i] == x;
            if stage_ready(stages.last(), loaded) && i == f.len() - 1 {
                assert(stages[stages.len() - 1].id == x);
            } else {
                assert(rest[i] == x);
                assert(rest.contains(x));
                let k = choose|k: int|
                    0 <= k < stages.drop_last().len() && (#[trigger] stages.drop_last()[k]).id == x
                        && stage_ready(stages.drop_last()[k], loaded);
                assert(stages[k] == stages.drop_last()[k]);
            }
        }
    }
}

/// Every stage a tick keeps was pending and not ready.
proof fn lemma_remaining_are_unready_stages(stages: Seq<Stage>, loaded: Seq<u64>)
    ensures
        forall|j: int|
            0 <= j < remaining_spec(stages, loaded).len() ==> exists|k: int|
                0 <= k < stages.len() && #[trigger] remaining_spec(stages, loaded)[j] == stages[k]
                    && !stage_ready(stages[k], loaded),
    decreases stages.len(),
{
    if stages.len() > 0 {
        lemma_remaining_are_unready_stages(stages.drop_last(), loaded);
        let rem = remaining_spec(stages, loaded);
        let rest = remaining_spec(stages.drop_last(), loaded);
        assert forall|j: int| 0 <= j < rem.len() implies exists|k: int|
            0 <= k < stages.len() && #[trigger] rem[j] == stages[k] && !stage_ready(
                stages[k],
                loaded,
            ) by {
            if !stage_ready(stages.last(), loaded) && j == rem.len() - 1 {
                assert(rem[j] == stages[stages.len() - 1]);
            } else {
                assert(rem[j] == rest[j]);
                let k = choose|k: int|
                    0 <= k < stages.drop_last().len() && rest[j] == stages.drop_last()[k]
                        && !stage_ready(stages.drop_last()[k], loaded);
                assert(stages[k] == stages.drop_last()[k]);
            }
        }
    }
}

/// Law: a stage's reaction fires at most once.  Once a tick has fired a
/// stage's id, no later tick can fire that id again — however long the
/// loaded predicate keeps answering true — unless a stage with that id is
/// explicitly re-registered.
pub proof fn lemma_stage_fires_at_most_once(
    stages: Seq<Stage>,
    loaded1: Seq<u64>,
    loaded2: Seq<u64>,
    id: u64,
)
    requires
        stage_ids_unique(stages),
        fired_spec(stages, loaded1).contains(id),
    ensures
        !fired_spec(remaining_spec(stages, loaded1), loaded2).contains(id),
{
    lemma_fired_are_ready_stages(stages, loaded1);
    let k0 = choose|k: int|
        0 <= k < stages.len() && (#[trigger] stages[k]).id == id && stage_ready(
            stages[k],
            loaded1,
        );
    let rem = remaining_spec(stages, loaded1);
    if fired_spec(rem, loaded2).contains(id) {
        lemma_fired_are_ready_stages(rem, loaded2);
        let j = choose|j: int|
            0 <= j < rem.len() && (#[trigger] rem[j]).id == id && stage_ready(rem[j], loaded2);
        lemma_remaining_are_unready_stages(stages, loaded1);
        let k1 = choose|k: int|
            0 <= k < stages.len() && rem[j] == stages[k] && !stage_ready(stages[k], loaded1);
        if k0 < k1 {
            assert(stages[k0].id != stages[k1].id);
        } else if k1 < k0 {
            assert(stages[k1].id != stages[k0].id);
        }
        assert(false);
    }
}

} // verus!
