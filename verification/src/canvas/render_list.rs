use vstd::prelude::*;
use core::ops::Range;
use vstd::std_specs::cmp::PartialEqSpec;

verus! {

/// A run of instructions that are drawn with one state.
#[derive(Debug, PartialEq)]
pub struct StageItem<S> {
    pub range: Range<usize>,
    pub state: S,
}

/// Drawing instructions in the order they were added, and the stages that
/// split the ones added so far into consecutive runs, each with the state it
/// is drawn with.
#[derive(Debug)]
pub struct RenderList<I, S> {
    pub instructions: Vec<I>,
    pub stage: Vec<StageItem<S>>,
}

/// Where stages end: the end of the last one, or zero.
pub open spec fn end_of_stages<S>(stages: Seq<StageItem<S>>) -> nat {
    if stages.len() == 0 {
        0
    } else {
        stages.last().range.end as nat
    }
}

/// What staging `state` does to `stages` over `len` instructions: nothing
/// when no instruction was added since the last stage; else the last stage is
/// extended to `len` when its state equals `state`; else a stage from the end
/// of the last one to `len` is added.
pub open spec fn stage_seq<S: PartialEq>(stages: Seq<StageItem<S>>, len: nat, state: S) -> Seq<StageItem<S>> {
    let start = end_of_stages(stages);
    if start < len {
        if stages.len() > 0 && stages.last().state.eq_spec(&state) {
            let last = stages.last();
            stages.update(
                stages.len() - 1,
                StageItem { range: Range { start: last.range.start, end: len as usize }, state: last.state },
            )
        } else {
            stages.push(StageItem { range: Range { start: start as usize, end: len as usize }, state })
        }
    } else {
        stages
    }
}

impl<I, S> RenderList<I, S> {
    /// Where the staged instructions end: the end of the last stage, or zero.
    pub open spec fn staged_end(self) -> nat {
        end_of_stages(self.stage@)
    }

    /// Stages are non-empty, the first starts at zero, each starts where the
    /// previous one ends, and the last ends within the instructions.
    pub open spec fn wf(self) -> bool {
        &&& forall|k: int|
            0 <= k < self.stage@.len() ==> #[trigger] self.stage@[k].range.start
                < self.stage@[k].range.end
        &&& self.stage@.len() > 0 ==> self.stage@[0].range.start == 0
        &&& forall|k: int|
            0 <= k < self.stage@.len() - 1 ==> #[trigger] self.stage@[k + 1].range.start
                == self.stage@[k].range.end
        &&& self.staged_end() <= self.instructions@.len()
    }
}

impl<I, S: PartialEq> RenderList<I, S> {
    /// Neighbouring stages hold states that differ.
    pub open spec fn states_alternate(self) -> bool {
        forall|k: int|
            0 <= k < self.stage@.len() - 1 ==> !#[trigger] self.stage@[k].state.eq_spec(
                &self.stage@[k + 1].state,
            )
    }

    /// What staging `state` does to the stages.
    pub open spec fn stage_changes_spec(self, state: S) -> Seq<StageItem<S>> {
        stage_seq(self.stage@, self.instructions@.len(), state)
    }
}

impl<I, S> Default for RenderList<I, S> {
    fn default() -> (r: Self)
        ensures
            r.instructions@.len() == 0,
            r.stage@.len() == 0,
            r.wf(),
    {
        RenderList { instructions: Vec::new(), stage: Vec::new() }
    }
}

impl<I, S: PartialEq> RenderList<I, S> {
    /// Appends an instruction; it is not staged yet.
    pub fn add(&mut self, instruction: I)
        requires
            old(self).wf(),
        ensures
            final(self).wf(),
            final(self).instructions@ == old(self).instructions@.push(instruction),
            final(self).stage@ == old(self).stage@,
    {
        self.instructions.push(instruction)
    }

    /// Stages the instructions added since the last stage with `state`.
    pub fn stage_changes(&mut self, state: S)
        requires
            old(self).wf(),
            old(self).instructions@.len() <= usize::MAX,
        ensures
            final(self).wf(),
            final(self).instructions@ == old(self).instructions@,
            S::obeys_eq_spec() ==> final(self).stage@ == old(self).stage_changes_spec(state),
            old(self).staged_end() < old(self).instructions@.len() ==> final(self).staged_end()
                == old(self).instructions@.len(),
            old(self).staged_end() >= old(self).instructions@.len() ==> final(self).stage@
                == old(self).stage@,
            S::obeys_eq_spec() && old(self).states_alternate() ==> final(self).states_alternate(),
    {
        let n = self.stage.len();
        let start = if n == 0 {
            0
        } else {
            self.stage[n - 1].range.end
        };
        let end = self.instructions.len();

        if start < end {
            if n > 0 {
                if self.stage[n - 1].state == state {
                    let last_start = self.stage[n - 1].range.start;
                    let mut last = self.stage.pop().unwrap();
                    last.range = last_start..end;
                    self.stage.push(last);
                    proof {
                        assert(self.stage@ =~= old(self).stage@.update(
                            n - 1,
                            StageItem {
                                range: Range { start: last_start, end: end },
                                state: old(self).stage@[n - 1].state,
                            },
                        ));
                    }
                    return;
                }
            }
            self.stage.push(StageItem { range: start..end, state });
        }
    }

    /// Drops the stages and keeps the instructions.
    pub fn clear_staged(&mut self)
        ensures
            final(self).stage@.len() == 0,
            final(self).instructions@ == old(self).instructions@,
            final(self).wf(),
    {
        self.stage.clear()
    }

    /// Drops the stages and the instructions.
    pub fn clear(&mut self)
        ensures
            final(self).stage@.len() == 0,
            final(self).instructions@.len() == 0,
            final(self).wf(),
    {
        self.stage.clear();
        self.instructions.clear();
    }

    pub fn is_empty(&self) -> (r: bool)
        ensures
            r == (self.instructions@.len() == 0),
    {
        self.instructions.len() == 0
    }

    /// The number of stages.
    pub fn stage_count(&self) -> (r: usize)
        ensures
            r == self.stage@.len(),
    {
        self.stage.len()
    }

    /// The instructions of stage `k` and its state.
    pub fn get_stage(&self, k: usize) -> (r: (&[I], &S))
        requires
            self.wf(),
            k < self.stage@.len(),
        ensures
            r.0@ == self.instructions@.subrange(
                self.stage@[k as int].range.start as int,
                self.stage@[k as int].range.end as int,
            ),
            *r.1 == self.stage@[k as int].state,
    {
        let item = &self.stage[k];
        proof {
            self.lemma_stage_within(k as int);
        }
        (vstd::slice::slice_subrange(self.instructions.as_slice(), item.range.start, item.range.end), &item.state)
    }

    /// Every stage lies within the instructions.
    pub proof fn lemma_stage_within(self, k: int)
        requires
            self.wf(),
            0 <= k < self.stage@.len(),
        ensures
            self.stage@[k].range.end <= self.staged_end(),
        decreases self.stage@.len() - k,
    {
        if k < self.stage@.len() - 1 {
            assert(self.stage@[k + 1].range.start == self.stage@[k].range.end);
            self.lemma_stage_within(k + 1);
        }
    }
}

} // verus!

verus! {

/// Staging twice in a row with no instruction added in between is staging
/// once: the second time nothing is left to stage, whatever the state.
pub proof fn lemma_stage_changes_idempotent<S: PartialEq>(
    stages: Seq<StageItem<S>>,
    len: nat,
    first: S,
    second: S,
)
    requires
        len <= usize::MAX,
        end_of_stages(stages) <= len,
    ensures
        end_of_stages(stage_seq(stages, len, first)) == len,
        stage_seq(stage_seq(stages, len, first), len, second) == stage_seq(stages, len, first),
{
}

} // verus!
