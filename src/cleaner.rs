//! Removal of the selected build-output directories, and what it freed.
use vstd::prelude::*;

use crate::project::RustProject;
use crate::target::cap_u64;

verus! {

/// What became of one attempted removal.
#[derive(Clone, Debug)]
pub enum DeleteOutcome {
    /// No removal was attempted for this project.
    Skipped,
    /// The directory was removed.
    Removed,
    /// The directory was already gone: it counts as cleaned.
    AlreadyGone,
    /// The removal failed, for the reason held.
    Failed(String),
}

/// What a cleanup freed and the errors it met, in project order.
#[derive(Debug)]
pub struct CleanupResult {
    pub total_freed: u64,
    pub errors: Vec<String>,
}

/// Project `i` is selected and has a build-output directory. A selection
/// shorter than the project list leaves the rest unselected.
pub open spec fn picked(projects: Seq<RustProject>, selected: Seq<bool>, i: int) -> bool {
    0 <= i < projects.len() && i < selected.len() && selected[i] && projects[i].target_info is Some
}

/// The size recorded for project `i`'s build-output directory.
pub open spec fn size_of(projects: Seq<RustProject>, i: int) -> int {
    projects[i].target_info->0.size_bytes as int
}

/// The bytes that the selection among the first `n` projects implies
/// freeing, added up and held to `u64` at each step.
pub open spec fn selected_total(projects: Seq<RustProject>, selected: Seq<bool>, n: int) -> int
    decreases n,
{
    if n <= 0 {
        0
    } else {
        let prev = selected_total(projects, selected, n - 1);
        if picked(projects, selected, n - 1) {
            cap_u64(prev + size_of(projects, n - 1))
        } else {
            prev
        }
    }
}

/// Project `i`'s directory counts as freed: selected, and either the run is
/// dry or its directory was removed or was already gone.
pub open spec fn counts_freed(
    projects: Seq<RustProject>,
    selected: Seq<bool>,
    dry_run: bool,
    outcomes: Seq<DeleteOutcome>,
    i: int,
) -> bool {
    picked(projects, selected, i) && (dry_run || outcomes[i] is Removed || outcomes[i] is AlreadyGone)
}

/// The bytes freed among the first `n` projects, held to `u64` at each step.
pub open spec fn freed_total(
    projects: Seq<RustProject>,
    selected: Seq<bool>,
    dry_run: bool,
    outcomes: Seq<DeleteOutcome>,
    n: int,
) -> int
    decreases n,
{
    if n <= 0 {
        0
    } else {
        let prev = freed_total(projects, selected, dry_run, outcomes, n - 1);
        if counts_freed(projects, selected, dry_run, outcomes, n - 1) {
            cap_u64(prev + size_of(projects, n - 1))
        } else {
            prev
        }
    }
}

/// The message recorded for a failed removal of `path`.
pub open spec fn failure_message(path: Seq<char>, reason: Seq<char>) -> Seq<char> {
    "Failed to delete "@ + path + ": "@ + reason
}

/// The error messages among the first `n` projects, in order.
pub open spec fn cleanup_errors(
    projects: Seq<RustProject>,
    selected: Seq<bool>,
    dry_run: bool,
    outcomes: Seq<DeleteOutcome>,
    n: int,
) -> Seq<Seq<char>>
    decreases n,
{
    if n <= 0 {
        seq![]
    } else {
        let prev = cleanup_errors(projects, selected, dry_run, outcomes, n - 1);
        if picked(projects, selected, n - 1) && !dry_run && outcomes[n - 1] is Failed {
            prev.push(
                failure_message(
                    projects[n - 1].target_info->0.path@,
                    outcomes[n - 1]->Failed_0@,
                ),
            )
        } else {
            prev
        }
    }
}

/// The views of a list of strings.
pub open spec fn views(v: Seq<String>) -> Seq<Seq<char>> {
    v.map_values(|s: String| s@)
}

/// Decides and tallies the removal of build-output directories.
pub struct TargetCleaner;

impl TargetCleaner {
    /// The indices of the projects whose directories are to be removed: those
    /// selected that have one, and none in a dry run.
    pub fn pending_deletions(projects: &Vec<RustProject>, selected: &Vec<bool>, dry_run: bool) -> (r:
        Vec<usize>)
        ensures
            forall|k: int| 0 <= k < r@.len() ==> picked(projects@, selected@, #[trigger] r@[k] as int),
            forall|k: int, l: int| 0 <= k < l < r@.len() ==> r@[k] < r@[l],
            forall|i: int|
                #![trigger picked(projects@, selected@, i)]
                picked(projects@, selected@, i) && !dry_run ==> exists|k: int|
                    0 <= k < r@.len() && r@[k] == i,
            dry_run ==> r@.len() == 0,
    {
        let mut r: Vec<usize> = Vec::new();
        if dry_run {
            return r;
        }
        let mut i: usize = 0;
        while i < projects.len()
            invariant
                i <= projects@.len(),
                forall|k: int| 0 <= k < r@.len() ==> picked(projects@, selected@, #[trigger] r@[k] as int),
                forall|k: int| 0 <= k < r@.len() ==> #[trigger] r@[k] < i,
                forall|k: int, l: int| 0 <= k < l < r@.len() ==> r@[k] < r@[l],
                forall|j: int|
                    #![trigger picked(projects@, selected@, j)]
                    0 <= j < i && picked(projects@, selected@, j) ==> exists|k: int|
                        0 <= k < r@.len() && r@[k] == j,
            decreases projects@.len() - i,
        {
            let ghost before = r@;
            if i < selected.len() && selected[i] && projects[i].target_info.is_some() {
                r.push(i);
            }
            proof {
                assert forall|j: int|
                    0 <= j < i + 1 && #[trigger] picked(projects@, selected@, j) implies exists|k: int|
                    0 <= k < r@.len() && r@[k] == j by {
                    if j < i {
                        let k = choose|k: int| 0 <= k < before.len() && before[k] == j;
                        assert(r@[k] == j);
                    } else {
                        assert(r@[r@.len() - 1] == j);
                    }
                }
            }
            i = i + 1;
        }
        r
    }

    /// The bytes that the selection implies freeing, summed afresh.
    pub fn selected_size(projects: &Vec<RustProject>, selected: &Vec<bool>) -> (r: u64)
        ensures
            r == selected_total(projects@, selected@, projects@.len() as int),
    {
        let mut total: u64 = 0;
        let mut i: usize = 0;
        while i < projects.len()
            invariant
                i <= projects@.len(),
                total == selected_total(projects@, selected@, i as int),
            decreases projects@.len() - i,
        {
            if i < selected.len() && selected[i] {
                if let Some(t) = &projects[i].target_info {
                    total = total.saturating_add(t.size_bytes);
                }
            }
            i = i + 1;
        }
        total
    }

    /// The result of cleaning the selected projects, where `outcomes[i]` is
    /// what became of the removal of project `i`'s directory (read only for
    /// the projects that `pending_deletions` lists). In a dry run every
    /// selected directory counts as freed and nothing is removed. Otherwise a
    /// directory counts as freed when it was removed or was already gone; a
    /// failure is recorded and the rest go on; one not attempted counts for
    /// nothing.
    pub fn clean_selected_projects(
        projects: &Vec<RustProject>,
        selected: &Vec<bool>,
        dry_run: bool,
        outcomes: &Vec<DeleteOutcome>,
    ) -> (r: CleanupResult)
        requires
            outcomes@.len() == projects@.len(),
        ensures
            r.total_freed == freed_total(
                projects@,
                selected@,
                dry_run,
                outcomes@,
                projects@.len() as int,
            ),
            views(r.errors@) == cleanup_errors(
                projects@,
                selected@,
                dry_run,
                outcomes@,
                projects@.len() as int,
            ),
    {
        let mut total_freed: u64 = 0;
        let mut errors: Vec<String> = Vec::new();
        let prefix = "Failed to delete ";
        let sep = ": ";
        let mut i: usize = 0;
        while i < projects.len()
            invariant
                i <= projects@.len(),
                outcomes@.len() == projects@.len(),
                prefix@ == "Failed to delete "@,
                sep@ == ": "@,
                total_freed == freed_total(projects@, selected@, dry_run, outcomes@, i as int),
                views(errors@) == cleanup_errors(projects@, selected@, dry_run, outcomes@, i as int),
            decreases projects@.len() - i,
        {
            if i < selected.len() && selected[i] {
                if let Some(t) = &projects[i].target_info {
                    if dry_run {
                        total_freed = total_freed.saturating_add(t.size_bytes);
                    } else {
                        match &outcomes[i] {
                            DeleteOutcome::Failed(reason) => {
                                let msg = String::from_str(prefix).concat(t.path.as_str()).concat(
                                    sep,
                                ).concat(reason.as_str());
                                let ghost before = errors@;
                                assert(msg@ =~= failure_message(t.path@, reason@));
                                errors.push(msg);
                                assert(views(errors@) =~= views(before).push(msg@));
                            },
                            DeleteOutcome::Removed | DeleteOutcome::AlreadyGone => {
                                total_freed = total_freed.saturating_add(t.size_bytes);
                            },
                            DeleteOutcome::Skipped => {},
                        }
                    }
                }
            }
            i = i + 1;
        }
        CleanupResult { total_freed, errors }
    }
}

/// What a dry run frees is what the selection implies freeing, whatever the
/// outcomes handed in.
pub proof fn lemma_dry_run_frees_selection(
    projects: Seq<RustProject>,
    selected: Seq<bool>,
    outcomes: Seq<DeleteOutcome>,
    n: int,
)
    ensures
        freed_total(projects, selected, true, outcomes, n) == selected_total(projects, selected, n),
        cleanup_errors(projects, selected, true, outcomes, n).len() == 0,
    decreases n,
{
    if n > 0 {
        lemma_dry_run_frees_selection(projects, selected, outcomes, n - 1);
    }
}

} // verus!
