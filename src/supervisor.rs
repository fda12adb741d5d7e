//! The top-level loop: cycling through the groups, one per tab, restarting
//! the session when a failure calls for it, and stopping when a group
//! completes.
//!
//! The caller asks for the next command, carries it out on the session and
//! reports how it went.
use vstd::prelude::*;
use crate::outcome::{BrowserOutcome, SessionError};
use crate::session::tab_lookup;

verus! {

/// Where the loop stands.
#[derive(Clone, Copy, Debug, PartialEq, Eq, Structural)]
pub enum Phase {
    /// The tab of the current group is to be selected.
    SelectGroup,
    /// The current group is to be run.
    RunGroup,
    /// The session is to be restarted.
    Restarting,
    /// A group completed: the session is to be closed and the loop ends.
    Done,
}

/// What the loop asks of the session next.
#[derive(Clone, Copy, Debug, PartialEq, Eq, Structural)]
pub enum LoopCommand {
    /// Switch to the tab with this index.
    SwitchTab(usize),
    /// Run the group with this index, after its startup steps when `startup` is set.
    RunGroup { index: usize, startup: bool },
    /// Tear the session down and launch it again.
    Restart,
    /// Close the session; the work is done.
    Close,
}

/// The abstract state of the loop.
pub struct LoopState {
    pub group_count: nat,
    pub current: nat,
    pub phase: Phase,
    pub startup_done: Seq<bool>,
}

/// The state of the top-level loop over `group_count` groups.
pub struct Supervisor {
    group_count: usize,
    current: usize,
    phase: Phase,
    startup_done: Vec<bool>,
}

/// Whether a loop state is consistent: one startup flag per group, and a
/// current group whenever there are groups.
pub open spec fn well_formed_state(v: LoopState) -> bool {
    &&& v.startup_done.len() == v.group_count
    &&& v.group_count > 0 ==> v.current < v.group_count
    &&& v.group_count == 0 ==> v.phase == Phase::Done
}

/// The group after the current one, cycling back to the first.
pub open spec fn next_group(v: LoopState) -> nat {
    if v.current + 1 < v.group_count {
        v.current + 1
    } else {
        0
    }
}

/// The command that the loop issues in state `v`.
pub open spec fn command_of(v: LoopState) -> LoopCommand {
    match v.phase {
        Phase::SelectGroup => LoopCommand::SwitchTab(v.current as usize),
        Phase::RunGroup => LoopCommand::RunGroup {
            index: v.current as usize,
            startup: !v.startup_done[v.current as int],
        },
        Phase::Restarting => LoopCommand::Restart,
        Phase::Done => LoopCommand::Close,
    }
}

/// The state after the tab switch of state `v` succeeded (`ok`) or failed.
pub open spec fn after_tab(v: LoopState, ok: bool) -> LoopState {
    if v.phase != Phase::SelectGroup {
        v
    } else if ok {
        LoopState { phase: Phase::RunGroup, ..v }
    } else {
        LoopState { phase: Phase::Restarting, ..v }
    }
}

/// The state after the group run of state `v` ended with `result`.
pub open spec fn after_group(v: LoopState, result: Result<(), BrowserOutcome>) -> LoopState {
    if v.phase != Phase::RunGroup {
        v
    } else {
        let ran = LoopState { startup_done: v.startup_done.update(v.current as int, true), ..v };
        match result {
            Ok(()) => LoopState { phase: Phase::Done, ..ran },
            Err(e) => if e.restarts() {
                LoopState { phase: Phase::Restarting, ..ran }
            } else {
                LoopState { phase: Phase::SelectGroup, current: next_group(v), ..ran }
            },
        }
    }
}

/// The state after the restart of state `v`: every group's startup steps are
/// due again, and the loop goes on with the next group.
pub open spec fn after_restart(v: LoopState) -> LoopState {
    if v.phase != Phase::Restarting {
        v
    } else {
        LoopState {
            phase: Phase::SelectGroup,
            current: next_group(v),
            startup_done: Seq::new(v.group_count, |i: int| false),
            ..v
        }
    }
}

fn all_false(n: usize) -> (r: Vec<bool>)
    ensures
        r@ == Seq::new(n as nat, |i: int| false),
{
    let mut flags: Vec<bool> = Vec::new();
    let mut i: usize = 0;
    while i < n
        invariant
            0 <= i <= n,
            flags@ == Seq::new(i as nat, |j: int| false),
        decreases n - i,
    {
        flags.push(false);
        i = i + 1;
        assert(flags@ =~= Seq::new(i as nat, |j: int| false));
    }
    flags
}

fn flags_with(v: &Vec<bool>, k: usize) -> (r: Vec<bool>)
    requires
        k < v@.len(),
    ensures
        r@ == v@.update(k as int, true),
{
    let mut flags: Vec<bool> = Vec::new();
    let mut i: usize = 0;
    while i < v.len()
        invariant
            0 <= i <= v@.len(),
            k < v@.len(),
            flags@ == v@.update(k as int, true).take(i as int),
        decreases v@.len() - i,
    {
        flags.push(i == k || v[i]);
        i = i + 1;
        assert(flags@ =~= v@.update(k as int, true).take(i as int));
    }
    assert(flags@ =~= v@.update(k as int, true));
    flags
}

impl Supervisor {
    /// The abstract state.
    pub closed spec fn view(&self) -> LoopState {
        LoopState {
            group_count: self.group_count as nat,
            current: self.current as nat,
            phase: self.phase,
            startup_done: self.startup_done@,
        }
    }

    #[verifier::type_invariant]
    spec fn consistent(&self) -> bool {
        well_formed_state(self.view())
    }

    /// A loop over `group_count` groups that starts with the first group and
    /// no startup steps run yet. With no groups, there is nothing to do.
    pub fn new(group_count: usize) -> (r: Supervisor)
        ensures
            r.view().group_count == group_count,
            r.view().current == 0,
            r.view().phase == (if group_count > 0 {
                Phase::SelectGroup
            } else {
                Phase::Done
            }),
            r.view().startup_done == Seq::new(group_count as nat, |i: int| false),
            well_formed_state(r.view()),
    {
        let flags = all_false(group_count);
        let phase = if group_count > 0 {
            Phase::SelectGroup
        } else {
            Phase::Done
        };
        Supervisor { group_count, current: 0, phase, startup_done: flags }
    }

    /// The command to carry out now.
    pub fn command(&self) -> (r: LoopCommand)
        ensures
            r == command_of(self.view()),
            well_formed_state(self.view()),
    {
        proof {
            use_type_invariant(self);
        }
        match self.phase {
            Phase::SelectGroup => LoopCommand::SwitchTab(self.current),
            Phase::RunGroup => LoopCommand::RunGroup {
                index: self.current,
                startup: !self.startup_done[self.current],
            },
            Phase::Restarting => LoopCommand::Restart,
            Phase::Done => LoopCommand::Close,
        }
    }

    fn advance(&mut self)
        requires
            well_formed_state(old(self).view()),
            old(self).group_count > 0,
        ensures
            final(self).current == next_group(old(self).view()),
            final(self).group_count == old(self).group_count,
            final(self).phase == old(self).phase,
            final(self).startup_done == old(self).startup_done,
    {
        if self.current + 1 < self.group_count {
            self.current = self.current + 1;
        } else {
            self.current = 0;
        }
    }

    /// Reports whether the requested tab switch succeeded.
    pub fn tab_switched(&mut self, ok: bool)
        ensures
            final(self).view() == after_tab(old(self).view(), ok),
            well_formed_state(final(self).view()),
    {
        proof {
            use_type_invariant(&*self);
        }
        if self.phase == Phase::SelectGroup {
            if ok {
                self.phase = Phase::RunGroup;
            } else {
                self.phase = Phase::Restarting;
            }
        }
    }

    /// Reports how the requested group run ended.
    pub fn group_finished(&mut self, result: &Result<(), BrowserOutcome>)
        ensures
            final(self).view() == after_group(old(self).view(), *result),
            well_formed_state(final(self).view()),
    {
        proof {
            use_type_invariant(&*self);
        }
        if self.phase != Phase::RunGroup {
            return ;
        }
        self.startup_done = flags_with(&self.startup_done, self.current);
        match result {
            Ok(()) => {
                self.phase = Phase::Done;
            },
            Err(e) => {
                if e.needs_restart() {
                    self.phase = Phase::Restarting;
                } else {
                    self.phase = Phase::SelectGroup;
                    self.advance();
                }
            },
        }
    }

    /// Reports that the requested restart succeeded.
    pub fn restarted(&mut self)
        ensures
            final(self).view() == after_restart(old(self).view()),
            well_formed_state(final(self).view()),
    {
        proof {
            use_type_invariant(&*self);
        }
        if self.phase != Phase::Restarting {
            return ;
        }
        self.startup_done = all_false(self.group_count);
        self.phase = Phase::SelectGroup;
        self.advance();

    }
}

/// A step that times out makes the loop restart the session exactly once:
/// the next command is the restart, after it every group's startup steps are
/// due again, and the loop goes on by selecting the next group's tab, whose
/// run then begins with its startup steps.
pub proof fn lemma_timeout_restarts_once(v: LoopState)
    requires
        well_formed_state(v),
        v.phase == Phase::RunGroup,
    ensures
        command_of(after_group(v, Err(BrowserOutcome::Timeout))) == LoopCommand::Restart,
        ({
            let w = after_restart(after_group(v, Err(BrowserOutcome::Timeout)));
            &&& well_formed_state(w)
            &&& forall|i: int| 0 <= i < w.group_count ==> !#[trigger] w.startup_done[i]
            &&& command_of(w) == LoopCommand::SwitchTab(w.current as usize)
            &&& command_of(after_tab(w, true)) == (LoopCommand::RunGroup {
                index: w.current as usize,
                startup: true,
            })
        }),
{
}

/// Asking for a tab beyond the open ones gives the dedicated error, and a
/// failed tab switch leads to a restart, after which the loop goes on.
pub proof fn lemma_missing_tab_restarts(v: LoopState, count: usize, index: usize)
    requires
        well_formed_state(v),
        v.phase == Phase::SelectGroup,
        index >= count,
    ensures
        tab_lookup(count, index) == Err::<usize, SessionError>(SessionError::TabDoesNotExist),
        command_of(after_tab(v, false)) == LoopCommand::Restart,
        after_restart(after_tab(v, false)).phase == Phase::SelectGroup,
        well_formed_state(after_restart(after_tab(v, false))),
{
}

} // verus!
