//! The summary of one cleanup pass.
use vstd::prelude::*;

verus! {

/// What one cleanup pass found and did.
#[derive(Debug)]
pub struct CleanResult {
    /// Matching files, counted before any action.
    pub files_found: usize,
    /// Files removed, or under a dry run, files that would have been removed.
    pub files_deleted: usize,
    /// Each file whose removal failed, with the reason.
    pub files_failed: Vec<(String, String)>,
    /// Whether the pass was a dry run.
    pub dry_run: bool,
}

/// The number of successful removals among `outcomes`.
pub open spec fn success_count(outcomes: Seq<Result<(), String>>) -> nat
    decreases outcomes.len(),
{
    if outcomes.len() == 0 {
        0
    } else {
        success_count(outcomes.drop_last()) + if outcomes.last() is Ok {
            1nat
        } else {
            0nat
        }
    }
}

/// The failed removals among `outcomes`, each with its path from `paths`,
/// in order.
pub open spec fn failures(paths: Seq<String>, outcomes: Seq<Result<(), String>>) -> Seq<(String, String)>
    decreases outcomes.len(),
{
    if outcomes.len() == 0 || paths.len() < outcomes.len() {
        seq![]
    } else {
        let earlier = failures(paths, outcomes.drop_last());
        match outcomes.last() {
            Ok(()) => earlier,
            Err(reason) => earlier.push((paths[outcomes.len() - 1], reason)),
        }
    }
}

/// `r` is the summary of a pass over the matches `found`: under a dry run
/// every match counts as deleted; otherwise `outcomes` holds what removing
/// each match returned.
pub open spec fn summarizes(
    r: CleanResult,
    found: Seq<String>,
    outcomes: Seq<Result<(), String>>,
    dry_run: bool,
) -> bool {
    &&& r.files_found == found.len()
    &&& r.dry_run == dry_run
    &&& if dry_run {
        r.files_deleted == found.len() && r.files_failed@.len() == 0
    } else {
        &&& outcomes.len() == found.len()
        &&& r.files_deleted == success_count(outcomes)
        &&& r.files_failed@ == failures(found, outcomes)
    }
}

/// Over matches at least as many as the outcomes, every outcome is either
/// a success or a listed failure.
pub proof fn lemma_failures_len(paths: Seq<String>, outcomes: Seq<Result<(), String>>)
    requires
        outcomes.len() <= paths.len(),
    ensures
        success_count(outcomes) + failures(paths, outcomes).len() == outcomes.len(),
    decreases outcomes.len(),
{
    if outcomes.len() > 0 {
        lemma_failures_len(paths, outcomes.drop_last());
    }
}

/// A finished pass never accounts for more files than it found, and a dry
/// run reports every match as deleted and none as failed.
pub proof fn lemma_summary_accounts(
    r: CleanResult,
    found: Seq<String>,
    outcomes: Seq<Result<(), String>>,
    dry_run: bool,
)
    requires
        summarizes(r, found, outcomes, dry_run),
    ensures
        r.files_deleted + r.files_failed@.len() <= r.files_found,
        dry_run ==> r.files_failed@.len() == 0 && r.files_deleted == r.files_found,
{
    if !dry_run {
        lemma_failures_len(found, outcomes);
    }
}

/// With exactly one of `n` removals failing, a pass reports `n` found,
/// `n - 1` deleted and one failure: that path with its reason.
pub proof fn lemma_single_failure(
    r: CleanResult,
    found: Seq<String>,
    outcomes: Seq<Result<(), String>>,
    j: int,
)
    requires
        summarizes(r, found, outcomes, false),
        0 <= j < outcomes.len(),
        outcomes[j] is Err,
        forall|k: int| 0 <= k < outcomes.len() && k != j ==> outcomes[k] is Ok,
    ensures
        r.files_found == found.len(),
        r.files_deleted == found.len() - 1,
        r.files_failed@ == seq![(found[j], outcomes[j]->Err_0)],
{
    lemma_one_err(found, outcomes, j);
}

proof fn lemma_one_err(paths: Seq<String>, outcomes: Seq<Result<(), String>>, j: int)
    requires
        outcomes.len() <= paths.len(),
        0 <= j < outcomes.len(),
        outcomes[j] is Err,
        forall|k: int| 0 <= k < outcomes.len() && k != j ==> outcomes[k] is Ok,
    ensures
        success_count(outcomes) == outcomes.len() - 1,
        failures(paths, outcomes) == seq![(paths[j], outcomes[j]->Err_0)],
    decreases outcomes.len(),
{
    let prefix = outcomes.drop_last();
    if j == outcomes.len() - 1 {
        lemma_all_ok(paths, prefix);
        assert(failures(paths, outcomes) =~= seq![(paths[j], outcomes[j]->Err_0)]);
    } else {
        lemma_one_err(paths, prefix, j);
        assert(prefix[j] == outcomes[j]);
        assert(outcomes.last() is Ok);
    }
}

proof fn lemma_all_ok(paths: Seq<String>, outcomes: Seq<Result<(), String>>)
    requires
        outcomes.len() <= paths.len(),
        forall|k: int| 0 <= k < outcomes.len() ==> outcomes[k] is Ok,
    ensures
        success_count(outcomes) == outcomes.len(),
        failures(paths, outcomes) == Seq::<(String, String)>::empty(),
    decreases outcomes.len(),
{
    if outcomes.len() > 0 {
        lemma_all_ok(paths, outcomes.drop_last());
        assert(outcomes.last() is Ok);
    }
}

/// Two dry runs over the same matches report the same counts.
pub proof fn lemma_dry_runs_agree(
    r1: CleanResult,
    r2: CleanResult,
    found: Seq<String>,
    outcomes1: Seq<Result<(), String>>,
    outcomes2: Seq<Result<(), String>>,
)
    requires
        summarizes(r1, found, outcomes1, true),
        summarizes(r2, found, outcomes2, true),
    ensures
        r1.files_found == r2.files_found,
        r1.files_deleted == r2.files_deleted,
        r1.files_failed@.len() == r2.files_failed@.len(),
{
}

impl CleanResult {
    /// An empty summary for a pass that found `files_found` matches.
    pub fn new(files_found: usize, dry_run: bool) -> (r: Self)
        ensures
            r.files_found == files_found,
            r.files_deleted == 0,
            r.files_failed@.len() == 0,
            r.dry_run == dry_run,
    {
        CleanResult { files_found, files_deleted: 0, files_failed: Vec::new(), dry_run }
    }

    /// Counts one match as deleted without touching it (dry run).
    pub fn record_would_delete(&mut self)
        requires
            old(self).files_deleted < usize::MAX,
        ensures
            final(self).files_deleted == old(self).files_deleted + 1,
            final(self).files_failed == old(self).files_failed,
            final(self).files_found == old(self).files_found,
            final(self).dry_run == old(self).dry_run,
    {
        self.files_deleted = self.files_deleted + 1;
    }

    /// Records what removing `path` returned: a success is counted, a
    /// failure is kept with its reason.
    pub fn record_removal(&mut self, path: String, outcome: Result<(), String>)
        requires
            old(self).files_deleted < usize::MAX,
        ensures
            final(self).files_found == old(self).files_found,
            final(self).dry_run == old(self).dry_run,
            outcome is Ok ==> final(self).files_deleted == old(self).files_deleted + 1
                && final(self).files_failed == old(self).files_failed,
            outcome matches Err(reason) ==> final(self).files_deleted == old(self).files_deleted
                && final(self).files_failed@ == old(self).files_failed@.push((path, reason)),
    {
        match outcome {
            Ok(()) => {
                self.files_deleted = self.files_deleted + 1;
            },
            Err(reason) => {
                self.files_failed.push((path, reason));
            },
        }
    }
}

} // verus!
