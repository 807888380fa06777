//! The interactive selection state machine that leads up to a cleanup.
use vstd::prelude::*;

use crate::cleaner::{selected_total, CleanupResult, TargetCleaner};
use crate::project::RustProject;

verus! {

/// The mode of the session.
#[derive(PartialEq, Eq, Structural, Clone, Copy, Debug)]
pub enum UIMode {
    /// Moving through the list and choosing projects.
    Browse,
    /// Waiting for the operator to affirm or decline the cleanup.
    Confirm,
    /// A cleanup is running; input is ignored.
    Cleaning,
    /// A cleanup has finished, or the session was cut short.
    Complete,
}

/// One discrete operator input.
#[derive(PartialEq, Eq, Structural, Clone, Copy, Debug)]
pub enum Input {
    Up,
    Down,
    ToggleSelection,
    Confirm,
    Affirm,
    Decline,
    ToggleDryRun,
    Reset,
    Exit,
    ForceExit,
}

/// What the caller must do after a transition.
#[derive(PartialEq, Eq, Structural, Clone, Copy, Debug)]
pub enum Action {
    Nothing,
    /// Run the cleanup of the selection, then report it with `finish_cleanup`.
    RunCleanup,
    /// End the session.
    Exit,
}

/// The message shown to the operator.
#[derive(PartialEq, Eq, Structural, Clone, Copy, Debug)]
pub enum Status {
    /// How to navigate, select, confirm and quit.
    Help,
    /// Asks to confirm the removal of this many directories.
    ConfirmPrompt(usize),
    /// Confirmation was asked for with nothing selected.
    NothingSelected,
    /// The operator declined the cleanup.
    Cancelled,
    /// The cleanup is running.
    Cleaning,
    /// A dry run finished; it would have freed this many bytes.
    DryRunDone(u64),
    /// A cleanup finished, freeing this many bytes with this many errors.
    CleanupDone(u64, usize),
    /// Dry-run mode was switched on (`true`) or off (`false`).
    SwitchedMode(bool),
    /// Back to choosing projects after a cleanup.
    BackToSelection,
}

/// The number of `true` entries in `s`.
pub open spec fn count_true(s: Seq<bool>) -> nat
    decreases s.len(),
{
    if s.len() == 0 {
        0
    } else {
        count_true(s.drop_last()) + if s.last() {
            1nat
        } else {
            0nat
        }
    }
}

/// The state of a selection session over a fixed project list.
pub struct AppState {
    /// The focused index.
    pub selected: usize,
    /// Which projects are chosen, index-aligned with the project list.
    pub selected_projects: Vec<bool>,
    pub mode: UIMode,
    pub status: Status,
    /// The bytes that the current selection implies freeing.
    pub total_freed_space: u64,
    /// The bytes that the last cleanup freed (or would have, in a dry run).
    pub freed_by_cleanup: u64,
    /// Cleanup progress in thousandths.
    pub cleanup_progress: u32,
    /// Whether cleanups only simulate removal.
    pub dry_run: bool,
}

impl AppState {
    /// The state agrees with the project list `projects`: the selection is
    /// aligned with it, focus is in range (0 on an empty list), the implied
    /// bytes are those of the selection, and Confirm holds a selection.
    pub open spec fn wf(&self, projects: Seq<RustProject>) -> bool {
        &&& self.selected_projects@.len() == projects.len()
        &&& (self.selected < projects.len() || (projects.len() == 0 && self.selected == 0))
        &&& self.total_freed_space == selected_total(
            projects,
            self.selected_projects@,
            projects.len() as int,
        )
        &&& self.cleanup_progress <= 1000
        &&& (self.mode == UIMode::Confirm ==> count_true(self.selected_projects@) > 0)
    }

    /// The start of a session over `projects`: nothing chosen, focus on the
    /// first entry, browsing.
    pub fn new(projects: &Vec<RustProject>, dry_run: bool) -> (r: Self)
        ensures
            r.wf(projects@),
            r.selected == 0,
            forall|i: int| 0 <= i < r.selected_projects@.len() ==> !#[trigger] r.selected_projects@[i],
            r.mode == UIMode::Browse,
            r.status == Status::Help,
            r.total_freed_space == 0,
            r.freed_by_cleanup == 0,
            r.cleanup_progress == 0,
            r.dry_run == dry_run,
    {
        let mut sel: Vec<bool> = Vec::new();
        let mut i: usize = 0;
        while i < projects.len()
            invariant
                i <= projects@.len(),
                sel@.len() == i,
                forall|j: int| 0 <= j < i ==> !#[trigger] sel@[j],
            decreases projects@.len() - i,
        {
            sel.push(false);
            i = i + 1;
        }
        let total = TargetCleaner::selected_size(projects, &sel);
        proof {
            lemma_nothing_selected(projects@, sel@, projects@.len() as int);
        }
        AppState {
            selected: 0,
            selected_projects: sel,
            mode: UIMode::Browse,
            status: Status::Help,
            total_freed_space: total,
            freed_by_cleanup: 0,
            cleanup_progress: 0,
            dry_run,
        }
    }

    /// The number of chosen projects.
    pub fn selection_count(&self) -> (r: usize)
        ensures
            r == count_true(self.selected_projects@),
    {
        let mut c: usize = 0;
        let mut i: usize = 0;
        while i < self.selected_projects.len()
            invariant
                i <= self.selected_projects@.len(),
                c == count_true(self.selected_projects@.subrange(0, i as int)),
                c <= i,
            decreases self.selected_projects@.len() - i,
        {
            assert(self.selected_projects@.subrange(0, i + 1).drop_last()
                =~= self.selected_projects@.subrange(0, i as int));
            if self.selected_projects[i] {
                c = c + 1;
            }
            i = i + 1;
        }
        assert(self.selected_projects@.subrange(0, i as int) =~= self.selected_projects@);
        c
    }

    /// Whether the session has reached its end state.
    pub fn should_exit(&self) -> (r: bool)
        ensures
            r == (self.mode == UIMode::Complete),
    {
        self.mode == UIMode::Complete
    }
}

impl AppState {
    /// Applies one operator input. In Browse: focus moves within the list
    /// without wrapping, a toggle flips the focused choice and recomputes the
    /// implied bytes, a confirmation request enters Confirm only with a
    /// selection, and a forced exit ends the session without cleaning. In
    /// Confirm: affirming starts the cleanup, declining returns to Browse. In
    /// Cleaning all input is ignored. In Complete: dry-run mode can be
    /// switched, the session can go back to Browse, or end.
    pub fn handle_input(&mut self, projects: &Vec<RustProject>, input: Input) -> (action: Action)
        requires
            old(self).wf(projects@),
        ensures
            final(self).wf(projects@),
            final(self).mode == UIMode::Confirm && old(self).mode != UIMode::Confirm ==> count_true(
                final(self).selected_projects@,
            ) > 0,
            old(self).mode == UIMode::Cleaning ==> *final(self) == *old(self) && action
                == Action::Nothing,
            old(self).mode == UIMode::Browse ==> match input {
                Input::Up => *final(self) == (AppState {
                    selected: if old(self).selected > 0 {
                        (old(self).selected - 1) as usize
                    } else {
                        old(self).selected
                    },
                    ..*old(self)
                }) && action == Action::Nothing,
                Input::Down => *final(self) == (AppState {
                    selected: if old(self).selected + 1 < projects@.len() {
                        (old(self).selected + 1) as usize
                    } else {
                        old(self).selected
                    },
                    ..*old(self)
                }) && action == Action::Nothing,
                Input::ToggleSelection => action == Action::Nothing && final(self).total_freed_space
                    == selected_total(
                    projects@,
                    final(self).selected_projects@,
                    projects@.len() as int,
                ) && final(self).selected
                    == old(self).selected && final(self).mode == UIMode::Browse
                    && final(self).status == old(self).status && final(self).dry_run
                    == old(self).dry_run && final(self).freed_by_cleanup
                    == old(self).freed_by_cleanup && final(self).cleanup_progress
                    == old(self).cleanup_progress && (if projects@.len() > 0 {
                    final(self).selected_projects@ == old(self).selected_projects@.update(
                        old(self).selected as int,
                        !old(self).selected_projects@[old(self).selected as int],
                    )
                } else {
                    final(self).selected_projects@ == old(self).selected_projects@
                }),
                Input::Confirm => action == Action::Nothing && if count_true(
                    old(self).selected_projects@,
                ) > 0 {
                    *final(self) == (AppState {
                        mode: UIMode::Confirm,
                        status: Status::ConfirmPrompt(
                            count_true(old(self).selected_projects@) as usize,
                        ),
                        ..*old(self)
                    })
                } else {
                    *final(self) == (AppState { status: Status::NothingSelected, ..*old(self) })
                },
                Input::ForceExit => *final(self) == (AppState {
                    mode: UIMode::Complete,
                    ..*old(self)
                }) && action == Action::Exit,
                _ => *final(self) == *old(self) && action == Action::Nothing,
            },
            old(self).mode == UIMode::Confirm ==> match input {
                Input::Affirm => *final(self) == (AppState {
                    mode: UIMode::Cleaning,
                    status: Status::Cleaning,
                    ..*old(self)
                }) && action == Action::RunCleanup,
                Input::Decline => *final(self) == (AppState {
                    mode: UIMode::Browse,
                    status: Status::Cancelled,
                    ..*old(self)
                }) && action == Action::Nothing,
                _ => *final(self) == *old(self) && action == Action::Nothing,
            },
            old(self).mode == UIMode::Complete ==> match input {
                Input::ToggleDryRun => *final(self) == (AppState {
                    dry_run: !old(self).dry_run,
                    status: Status::SwitchedMode(!old(self).dry_run),
                    ..*old(self)
                }) && action == Action::Nothing,
                Input::Reset => *final(self) == (AppState {
                    mode: UIMode::Browse,
                    status: Status::BackToSelection,
                    ..*old(self)
                }) && action == Action::Nothing,
                Input::Exit => *final(self) == *old(self) && action == Action::Exit,
                _ => *final(self) == *old(self) && action == Action::Nothing,
            },
    {
        match self.mode {
            UIMode::Browse => match input {
                Input::Up => {
                    if self.selected > 0 {
                        self.selected = self.selected - 1;
                    }
                    Action::Nothing
                },
                Input::Down => {
                    let n = projects.len();
                    if self.selected + 1 < n {
                        self.selected = self.selected + 1;
                    }
                    Action::Nothing
                },
                Input::ToggleSelection => {
                    if projects.len() > 0 {
                        let i = self.selected;
                        let v = !self.selected_projects[i];
                        self.selected_projects.set(i, v);
                        self.total_freed_space = TargetCleaner::selected_size(
                            projects,
                            &self.selected_projects,
                        );
                    }
                    Action::Nothing
                },
                Input::Confirm => {
                    let count = self.selection_count();
                    if count > 0 {
                        self.mode = UIMode::Confirm;
                        self.status = Status::ConfirmPrompt(count);
                    } else {
                        self.status = Status::NothingSelected;
                    }
                    Action::Nothing
                },
                Input::ForceExit => {
                    self.mode = UIMode::Complete;
                    Action::Exit
                },
                _ => Action::Nothing,
            },
            UIMode::Confirm => match input {
                Input::Affirm => {
                    self.mode = UIMode::Cleaning;
                    self.status = Status::Cleaning;
                    Action::RunCleanup
                },
                Input::Decline => {
                    self.mode = UIMode::Browse;
                    self.status = Status::Cancelled;
                    Action::Nothing
                },
                _ => Action::Nothing,
            },
            UIMode::Cleaning => Action::Nothing,
            UIMode::Complete => match input {
                Input::ToggleDryRun => {
                    self.dry_run = !self.dry_run;
                    self.status = Status::SwitchedMode(self.dry_run);
                    Action::Nothing
                },
                Input::Reset => {
                    self.mode = UIMode::Browse;
                    self.status = Status::BackToSelection;
                    Action::Nothing
                },
                Input::Exit => Action::Exit,
                _ => Action::Nothing,
            },
        }
    }

    /// Records that `done` of the `total` removals of a running cleanup have
    /// been made: the progress becomes `done / total` in thousandths, rounded
    /// down; nothing else changes.
    pub fn record_progress(&mut self, projects: &Vec<RustProject>, done: usize, total: usize)
        requires
            old(self).wf(projects@),
            old(self).mode == UIMode::Cleaning,
            0 < total,
            done <= total,
        ensures
            final(self).wf(projects@),
            *final(self) == (AppState {
                cleanup_progress: ((done as int * 1000) / total as int) as u32,
                ..*old(self)
            }),
    {
        let d = done as u128;
        let t = total as u128;
        proof {
            assert((d as int * 1000) / (t as int) <= 1000) by (nonlinear_arith)
                requires
                    0 < t,
                    d <= t,
            ;
        }
        self.cleanup_progress = ((d * 1000) / t) as u32;
    }

    /// Records the end of a cleanup: the session moves to Complete whatever
    /// failed, with the freed bytes and the error count in its status.
    pub fn finish_cleanup(&mut self, projects: &Vec<RustProject>, result: &CleanupResult)
        requires
            old(self).wf(projects@),
            old(self).mode == UIMode::Cleaning,
        ensures
            final(self).wf(projects@),
            *final(self) == (AppState {
                mode: UIMode::Complete,
                status: if old(self).dry_run {
                    Status::DryRunDone(result.total_freed)
                } else {
                    Status::CleanupDone(result.total_freed, result.errors@.len() as usize)
                },
                freed_by_cleanup: result.total_freed,
                cleanup_progress: 1000,
                ..*old(self)
            }),
    {
        self.mode = UIMode::Complete;
        self.status = if self.dry_run {
            Status::DryRunDone(result.total_freed)
        } else {
            Status::CleanupDone(result.total_freed, result.errors.len())
        };
        self.freed_by_cleanup = result.total_freed;
        self.cleanup_progress = 1000;
    }
}

/// With nothing chosen, the selection implies freeing nothing.
proof fn lemma_nothing_selected(projects: Seq<RustProject>, sel: Seq<bool>, n: int)
    requires
        forall|j: int| 0 <= j < sel.len() ==> !#[trigger] sel[j],
    ensures
        selected_total(projects, sel, n) == 0,
    decreases n,
{
    if n > 0 {
        lemma_nothing_selected(projects, sel, n - 1);
    }
}

} // verus!
