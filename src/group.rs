//! Running the steps of a group: conditional gating, optional steps and the
//! names that record how earlier steps went.
//!
//! The caller drives a [`GroupRun`]: it asks for the next step to execute,
//! runs that step's retry loop, and reports the result, until the run is
//! complete or stops with an outcome.
use vstd::prelude::*;
use crate::action::{plans_as, BrowserCommand};
use crate::config::{Step, StepAction};
use crate::outcome::BrowserOutcome;
use crate::retry::{verdict_after, RetryVerdict};

verus! {

/// What follows a step's final result within its group.
#[derive(Clone, Debug, PartialEq, Eq)]
pub enum StepVerdict {
    /// Go on with the next step.
    Continue,
    /// The group stops with `outcome`; when `screenshot` is set, a best-effort
    /// screenshot of the page is taken first.
    Stop { outcome: BrowserOutcome, screenshot: bool },
}

/// How a run over a sequence of steps ends.
#[derive(Clone, Debug, PartialEq, Eq)]
pub enum GroupEnd {
    /// Every step ran or was skipped without an unrecovered failure.
    Completed,
    /// A step stopped the run with this outcome.
    Stopped(BrowserOutcome),
}

/// The progress of one run over a sequence of steps.
///
/// `success` holds the names of the steps that succeeded; `failed` those of
/// the optional steps that failed in an expected way. Both start empty for
/// every run.
#[derive(Clone, Debug)]
pub struct GroupRun {
    pub position: usize,
    pub success: Vec<String>,
    pub failed: Vec<String>,
}

/// The set of texts of the strings in `v`.
pub open spec fn names(v: Seq<String>) -> Set<Seq<char>> {
    Set::new(|n: Seq<char>| exists|i: int| 0 <= i < v.len() && v[i]@ == n)
}

/// Whether `step` may run: each condition that it sets must name a step that
/// succeeded (`if_cond`) or an optional step that failed (`if_not_cond`).
pub open spec fn gate_open(success: Set<Seq<char>>, failed: Set<Seq<char>>, step: Step) -> bool {
    &&& (step.if_cond@.len() == 0 || success.contains(step.if_cond@))
    &&& (step.if_not_cond@.len() == 0 || failed.contains(step.if_not_cond@))
}

/// Whether a failure of `step` is absorbed: the step is optional and the
/// failure is expected and not a deliberate end.
pub open spec fn absorbed(step: Step, e: BrowserOutcome) -> bool {
    step.optional && !e.restarts() && !(e is EarlyEnd)
}

/// What follows the final result of `step`.
pub open spec fn step_verdict(step: Step, result: Result<(), BrowserOutcome>) -> StepVerdict {
    match result {
        Ok(()) => StepVerdict::Continue,
        Err(e) => if absorbed(step, e) {
            StepVerdict::Continue
        } else {
            StepVerdict::Stop { outcome: e, screenshot: !step.optional && step.logging }
        },
    }
}

/// The names of succeeded steps after `step` ended with `result`.
pub open spec fn success_after(
    success: Set<Seq<char>>,
    step: Step,
    result: Result<(), BrowserOutcome>,
) -> Set<Seq<char>> {
    if result is Ok && step.name@.len() > 0 {
        success.insert(step.name@)
    } else {
        success
    }
}

/// The names of failed optional steps after `step` ended with `result`.
pub open spec fn failed_after(
    failed: Set<Seq<char>>,
    step: Step,
    result: Result<(), BrowserOutcome>,
) -> Set<Seq<char>> {
    match result {
        Err(e) => if absorbed(step, e) && step.name@.len() > 0 {
            failed.insert(step.name@)
        } else {
            failed
        },
        Ok(()) => failed,
    }
}

/// The first position from `from` on whose step may run, or the length of
/// `steps` when there is none.
pub open spec fn next_open(
    success: Set<Seq<char>>,
    failed: Set<Seq<char>>,
    steps: Seq<Step>,
    from: int,
) -> int
    decreases steps.len() - from,
{
    if from >= steps.len() {
        steps.len() as int
    } else if gate_open(success, failed, steps[from]) {
        from
    } else {
        next_open(success, failed, steps, from + 1)
    }
}

/// How a run over `steps` ends from position `from`, when the step at each
/// position `i` that runs ends with `results[i]`.
pub open spec fn run_from(
    success: Set<Seq<char>>,
    failed: Set<Seq<char>>,
    steps: Seq<Step>,
    results: Seq<Result<(), BrowserOutcome>>,
    from: int,
) -> GroupEnd
    decreases steps.len() - from,
{
    let i = next_open(success, failed, steps, from);
    if from < 0 || i >= steps.len() || i < from {
        GroupEnd::Completed
    } else {
        match step_verdict(steps[i], results[i]) {
            StepVerdict::Stop { outcome, .. } => GroupEnd::Stopped(outcome),
            StepVerdict::Continue => run_from(
                success_after(success, steps[i], results[i]),
                failed_after(failed, steps[i], results[i]),
                steps,
                results,
                i + 1,
            ),
        }
    }
}

/// Whether the step at position `k` runs in a run over `steps` from position
/// `from`, when the step at each position `i` that runs ends with `results[i]`.
pub open spec fn executes(
    success: Set<Seq<char>>,
    failed: Set<Seq<char>>,
    steps: Seq<Step>,
    results: Seq<Result<(), BrowserOutcome>>,
    from: int,
    k: int,
) -> bool
    decreases steps.len() - from,
{
    let i = next_open(success, failed, steps, from);
    if from < 0 || i >= steps.len() || i < from || k < i {
        false
    } else if k == i {
        true
    } else {
        match step_verdict(steps[i], results[i]) {
            StepVerdict::Stop { .. } => false,
            StepVerdict::Continue => executes(
                success_after(success, steps[i], results[i]),
                failed_after(failed, steps[i], results[i]),
                steps,
                results,
                i + 1,
                k,
            ),
        }
    }
}

/// Whether `v` holds a string with the text of `n`.
pub fn contains_name(v: &Vec<String>, n: &String) -> (r: bool)
    ensures
        r == names(v@).contains(n@),
{
    let mut i: usize = 0;
    while i < v.len()
        invariant
            0 <= i <= v@.len(),
            forall|j: int| 0 <= j < i ==> v@[j]@ != n@,
        decreases v@.len() - i,
    {
        if v[i] == *n {
            assert(names(v@).contains(n@)) by {
                assert(v@[i as int]@ == n@);
            }
            return true;
        }
        i = i + 1;
    }
    false
}

fn add_name(v: &mut Vec<String>, n: &String)
    ensures
        names(final(v)@) == names(old(v)@).insert(n@),
{
    v.push(n.clone());
    assert(names(v@) =~= names(old(v)@).insert(n@)) by {
        assert forall|m: Seq<char>| #[trigger] names(v@).contains(m) implies names(old(v)@).insert(
            n@,
        ).contains(m) by {
            let j = choose|j: int| 0 <= j < v@.len() && v@[j]@ == m;
            if j < old(v)@.len() {
                assert(v@[j] == old(v)@[j]);
            }
        }
        assert forall|m: Seq<char>| #[trigger] names(old(v)@).insert(n@).contains(m) implies names(
            v@,
        ).contains(m) by {
            if m == n@ {
                assert(v@[old(v)@.len() as int]@ == m);
            } else {
                let j = choose|j: int| 0 <= j < old(v)@.len() && old(v)@[j]@ == m;
                assert(v@[j] == old(v)@[j]);
            }
        }
    }
}

impl GroupRun {
    /// The names of the steps that succeeded so far.
    pub open spec fn succeeded(&self) -> Set<Seq<char>> {
        names(self.success@)
    }

    /// The names of the optional steps that failed so far.
    pub open spec fn failures(&self) -> Set<Seq<char>> {
        names(self.failed@)
    }

    /// A run that starts at the first step, with no names recorded.
    pub fn new() -> (r: GroupRun)
        ensures
            r.position == 0,
            r.succeeded() == Set::<Seq<char>>::empty(),
            r.failures() == Set::<Seq<char>>::empty(),
    {
        let r = GroupRun { position: 0, success: Vec::new(), failed: Vec::new() };
        assert(r.succeeded() =~= Set::<Seq<char>>::empty());
        assert(r.failures() =~= Set::<Seq<char>>::empty());
        r
    }

    /// Whether `step` may run now.
    pub fn permits(&self, step: &Step) -> (r: bool)
        ensures
            r == gate_open(self.succeeded(), self.failures(), *step),
    {
        (step.if_cond.as_str().is_empty() || contains_name(&self.success, &step.if_cond)) && (
        step.if_not_cond.as_str().is_empty() || contains_name(&self.failed, &step.if_not_cond))
    }

    /// Skips the steps that may not run and returns the position of the next
    /// step to execute, or `None` when the run is complete.
    pub fn next_step(&mut self, steps: &Vec<Step>) -> (r: Option<usize>)
        ensures
            final(self).success == old(self).success,
            final(self).failed == old(self).failed,
            final(self).position == next_open(
                old(self).succeeded(),
                old(self).failures(),
                steps@,
                old(self).position as int,
            ) || (old(self).position > steps.len() && final(self).position == old(self).position),
            r == (if final(self).position < steps.len() {
                Some(final(self).position)
            } else {
                None::<usize>
            }),
    {
        while self.position < steps.len() && !self.permits(&steps[self.position])
            invariant
                self.success == old(self).success,
                self.failed == old(self).failed,
                old(self).position <= self.position,
                old(self).position <= steps@.len() ==> self.position <= steps@.len(),
                old(self).position <= steps@.len() ==> next_open(
                    self.succeeded(),
                    self.failures(),
                    steps@,
                    self.position as int,
                ) == next_open(
                    old(self).succeeded(),
                    old(self).failures(),
                    steps@,
                    old(self).position as int,
                ),
                old(self).position > steps@.len() ==> self.position == old(self).position,
            decreases steps@.len() - self.position,
        {
            self.position = self.position + 1;
        }
        if self.position < steps.len() {
            Some(self.position)
        } else {
            None
        }
    }

    /// Records the final result of the step at the current position and moves
    /// past it.
    pub fn report(&mut self, steps: &Vec<Step>, result: Result<(), BrowserOutcome>) -> (r: StepVerdict)
        requires
            old(self).position < steps.len(),
        ensures
            r == step_verdict(steps@[old(self).position as int], result),
            final(self).position == old(self).position + 1,
            final(self).succeeded() == success_after(
                old(self).succeeded(),
                steps@[old(self).position as int],
                result,
            ),
            final(self).failures() == failed_after(
                old(self).failures(),
                steps@[old(self).position as int],
                result,
            ),
    {
        let step = &steps[self.position];
        self.position = self.position + 1;
        match result {
            Ok(()) => {
                if !step.name.as_str().is_empty() {
                    add_name(&mut self.success, &step.name);
                }
                StepVerdict::Continue
            },
            Err(e) => {
                if step.optional && !e.needs_restart() && !matches!(e, BrowserOutcome::EarlyEnd) {
                    if !step.name.as_str().is_empty() {
                        add_name(&mut self.failed, &step.name);
                    }
                    StepVerdict::Continue
                } else {
                    StepVerdict::Stop { outcome: e, screenshot: !step.optional && step.logging }
                }
            },
        }
    }
}

/// A step that stops the run ends it: the run stops with that step's outcome,
/// and no later step runs.
pub proof fn lemma_stop_ends_run(
    success: Set<Seq<char>>,
    failed: Set<Seq<char>>,
    steps: Seq<Step>,
    results: Seq<Result<(), BrowserOutcome>>,
    from: int,
    k: int,
)
    requires
        executes(success, failed, steps, results, from, k),
        step_verdict(steps[k], results[k]) is Stop,
    ensures
        run_from(success, failed, steps, results, from) == GroupEnd::Stopped(
            step_verdict(steps[k], results[k])->outcome,
        ),
        forall|j: int| k < j ==> !#[trigger] executes(success, failed, steps, results, from, j),
    decreases steps.len() - from,
{
    let i = next_open(success, failed, steps, from);
    if i < k {
        let s2 = success_after(success, steps[i], results[i]);
        let f2 = failed_after(failed, steps[i], results[i]);
        lemma_stop_ends_run(s2, f2, steps, results, i + 1, k);
        assert forall|j: int| k < j implies !#[trigger] executes(
            success,
            failed,
            steps,
            results,
            from,
            j,
        ) by {
            assert(executes(success, failed, steps, results, from, j) == executes(
                s2,
                f2,
                steps,
                results,
                i + 1,
                j,
            ));
        }
    } else {
        assert forall|j: int| k < j implies !#[trigger] executes(
            success,
            failed,
            steps,
            results,
            from,
            j,
        ) by {}
    }
}

/// An optional step that fails in an expected way lets a following step
/// conditioned on its failure run; when it succeeds instead, that step is
/// skipped.
pub proof fn lemma_optional_failure_enables(
    a: Step,
    b: Step,
    e: BrowserOutcome,
)
    requires
        a.optional,
        a.name@.len() > 0,
        a.if_cond@.len() == 0,
        a.if_not_cond@.len() == 0,
        !e.restarts(),
        !(e is EarlyEnd),
        b.if_cond@.len() == 0,
        b.if_not_cond@ == a.name@,
    ensures
        executes(
            Set::empty(),
            Set::empty(),
            seq![a, b],
            seq![Err(e), Ok(())],
            0,
            1,
        ),
        !executes(
            Set::empty(),
            Set::empty(),
            seq![a, b],
            seq![Ok(()), Ok(())],
            0,
            1,
        ),
{
    let steps = seq![a, b];
    let empty = Set::<Seq<char>>::empty();
    assert(next_open(empty, empty, steps, 0) == 0);
    let f1 = failed_after(empty, a, Err(e));
    assert(f1.contains(a.name@));
    assert(next_open(empty, f1, steps, 1) == 1);
    assert(executes(empty, f1, steps, seq![Err(e), Ok(())], 1, 1));
    let s2 = success_after(empty, a, Ok(()));
    assert(!failed_after(empty, a, Ok(())).contains(a.name@));
    assert(next_open(s2, empty, steps, 2) == 2);
    assert(next_open(s2, empty, steps, 1) == 2);
    assert(!executes(s2, empty, steps, seq![Ok(()), Ok(())], 1, 1));
}

/// A step conditioned on a named step's success runs when that step
/// succeeded, and is skipped when it failed.
pub proof fn lemma_success_enables(
    a: Step,
    c: Step,
    e: BrowserOutcome,
)
    requires
        a.name@.len() > 0,
        a.if_cond@.len() == 0,
        a.if_not_cond@.len() == 0,
        c.if_cond@ == a.name@,
        c.if_not_cond@.len() == 0,
    ensures
        executes(
            Set::empty(),
            Set::empty(),
            seq![a, c],
            seq![Ok(()), Ok(())],
            0,
            1,
        ),
        !executes(
            Set::empty(),
            Set::empty(),
            seq![a, c],
            seq![Err(e), Ok(())],
            0,
            1,
        ),
{
    let steps = seq![a, c];
    let empty = Set::<Seq<char>>::empty();
    assert(next_open(empty, empty, steps, 0) == 0);
    let s1 = success_after(empty, a, Ok(()));
    assert(s1.contains(a.name@));
    assert(next_open(s1, empty, steps, 1) == 1);
    assert(executes(s1, empty, steps, seq![Ok(()), Ok(())], 1, 1));
    let f2 = failed_after(empty, a, Err(e));
    assert(!success_after(empty, a, Err(e)).contains(a.name@));
    assert(next_open(empty, f2, steps, 2) == 2);
    assert(next_open(empty, f2, steps, 1) == 2);
    if step_verdict(a, Err(e)) is Continue {
        assert(!executes(empty, f2, steps, seq![Err(e), Ok(())], 1, 1));
    }
}

/// An `End` step always ends in the early-termination outcome: every attempt
/// at its action fails with it, so the step ends with it once its budget is
/// spent, and once it runs, whatever its position and whether optional or not,
/// the run stops with that outcome and no later step runs.
pub proof fn lemma_end_halts_group(
    steps: Seq<Step>,
    results: Seq<Result<(), BrowserOutcome>>,
    k: int,
    elapsed_ms: u64,
)
    requires
        0 <= k < steps.len(),
        steps[k].action == StepAction::End,
        results[k] == Err::<(), BrowserOutcome>(BrowserOutcome::EarlyEnd),
        executes(Set::empty(), Set::empty(), steps, results, 0, k),
    ensures
        forall|r: Result<BrowserCommand, BrowserOutcome>, n: u64| #[trigger]
            plans_as(r, steps[k].action, n) <==> r == Err::<BrowserCommand, BrowserOutcome>(
                BrowserOutcome::EarlyEnd,
            ),
        elapsed_ms < steps[k].wait_max ==> verdict_after(steps[k].wait_max, results[k], elapsed_ms)
            == RetryVerdict::Retry,
        elapsed_ms >= steps[k].wait_max ==> verdict_after(steps[k].wait_max, results[k], elapsed_ms)
            == RetryVerdict::Finished(results[k]),
        run_from(Set::empty(), Set::empty(), steps, results, 0) == GroupEnd::Stopped(
            BrowserOutcome::EarlyEnd,
        ),
        forall|j: int| k < j ==> !#[trigger] executes(Set::empty(), Set::empty(), steps, results, 0, j),
{
    lemma_stop_ends_run(Set::empty(), Set::empty(), steps, results, 0, k);
}

} // verus!
