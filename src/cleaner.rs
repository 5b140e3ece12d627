//! One cleanup pass: walk, keep the matching files, remove them.
use vstd::prelude::*;
use vstd::string::to_string_from_display_ensures;
use crate::filesystem::{listed_files, permission_denied, FileSystem, MockFileSystem};
use crate::path::{file_name, file_name_of};
use crate::patterns::{any_glob_matches, glob_accepts, is_plain_pattern, texts, InvalidPattern, PatternMatcher};
use crate::result::{
    failures, lemma_dry_runs_agree, lemma_failures_len, lemma_single_failure, success_count, summarizes,
    CleanResult,
};

verus! {

/// Why a cleanup pass, or building a cleaner, failed as a whole.
#[derive(Debug)]
pub enum CleanError {
    /// A pattern did not compile.
    InvalidPattern(InvalidPattern),
    /// The root could not be walked.
    Walk(String),
}

impl CleanError {
    /// A readable description of the error.
    pub fn to_string(&self) -> (r: String)
        ensures
            match self {
                CleanError::InvalidPattern(e) => r@ == "invalid pattern '"@ + e.pattern@ + "': "@ + e.cause@,
                CleanError::Walk(cause) => r@ == "cannot walk the root: "@ + cause@,
            },
    {
        match self {
            CleanError::InvalidPattern(e) => e.to_string(),
            CleanError::Walk(cause) => {
                let mut text = String::from_str("cannot walk the root: ");
                text.append(cause.as_str());
                text
            },
        }
    }
}

/// Whether the final name of path `p` matches one of `patterns`; a path
/// without a final name matches nothing.
pub open spec fn path_matches(patterns: Seq<Seq<char>>, p: Seq<char>) -> bool {
    match file_name(p) {
        Some(name) => any_glob_matches(patterns, name),
        None => false,
    }
}

/// The paths of `paths`, in order, whose final name matches.
pub open spec fn matching_paths(paths: Seq<String>, patterns: Seq<Seq<char>>) -> Seq<String>
    decreases paths.len(),
{
    if paths.len() == 0 {
        seq![]
    } else {
        let earlier = matching_paths(paths.drop_last(), patterns);
        if path_matches(patterns, paths.last()@) {
            earlier.push(paths.last())
        } else {
            earlier
        }
    }
}

/// `states` runs from `start` through the removal of each of `paths`, in
/// order: removing `paths[i]` in `states[i]` returned `outcomes[i]` and left
/// `states[i + 1]`.
pub open spec fn removal_chain<F: FileSystem>(
    start: F,
    paths: Seq<String>,
    outcomes: Seq<Result<(), String>>,
    states: Seq<F>,
) -> bool {
    &&& outcomes.len() == paths.len()
    &&& states.len() == paths.len() + 1
    &&& states[0] == start
    &&& forall|i: int|
        0 <= i < paths.len() ==> #[trigger] states[i].remove_spec(paths[i]@, outcomes[i], states[i + 1])
}

/// `res` reports a pass in which walking `root` with `ignore` on `start`
/// returned `listing`, and the file system went from `start` to `end`:
/// unchanged under a dry run, otherwise by removing each match once, in
/// order, with the results `outcomes`.
pub open spec fn pass_of<F: FileSystem>(
    start: F,
    end: F,
    root: Seq<char>,
    ignore: Seq<String>,
    patterns: Seq<Seq<char>>,
    listing: Seq<String>,
    outcomes: Seq<Result<(), String>>,
    states: Seq<F>,
    res: CleanResult,
    dry_run: bool,
) -> bool {
    let found = matching_paths(listing, patterns);
    &&& start.walk_spec(root, ignore, Ok(listing))
    &&& summarizes(res, found, outcomes, dry_run)
    &&& if dry_run {
        end == start
    } else {
        removal_chain(start, found, outcomes, states) && end == states.last()
    }
}

/// Finds the files under a root whose names match a pattern set, and
/// removes them.
pub struct Cleaner<F: FileSystem> {
    fs: F,
    matcher: PatternMatcher,
    ignore_patterns: Vec<String>,
}

impl<F: FileSystem> Cleaner<F> {
    /// The pattern texts, in order.
    pub closed spec fn patterns(&self) -> Seq<Seq<char>> {
        self.matcher.sources()
    }

    /// The ignored directory names.
    pub closed spec fn ignored(&self) -> Seq<String> {
        self.ignore_patterns@
    }

    /// The file system the cleaner works on.
    pub closed spec fn file_system(&self) -> F {
        self.fs
    }

    /// A cleaner over `fs`; fails on the first pattern that does not compile.
    pub fn new(fs: F, patterns: &[String], ignore_patterns: Vec<String>) -> (r: Result<Self, CleanError>)
        ensures
            r is Ok <==> (forall|i: int| 0 <= i < patterns@.len() ==> glob_accepts(#[trigger] patterns@[i]@)),
            (forall|i: int| 0 <= i < patterns@.len() ==> is_plain_pattern(#[trigger] patterns@[i]@)) ==> r is Ok,
            r matches Ok(c) ==> c.patterns() == texts(patterns@) && c.ignored() == ignore_patterns@
                && c.file_system() == fs,
            r matches Err(e) ==> e matches CleanError::InvalidPattern(ip) && exists|i: int|
                0 <= i < patterns@.len() && !glob_accepts(#[trigger] patterns@[i]@) && ip.pattern@ == patterns@[i]@
                && forall|k: int| 0 <= k < i ==> glob_accepts(#[trigger] patterns@[k]@),
            r matches Err(e) ==> e matches CleanError::InvalidPattern(ip) && exists|pe: glob::PatternError|
                #[trigger] to_string_from_display_ensures::<glob::PatternError>(&pe, ip.cause),
    {
        match PatternMatcher::new(patterns) {
            Ok(matcher) => Ok(Cleaner { fs, matcher, ignore_patterns }),
            Err(e) => {
                let ghost pe = choose|pe: glob::PatternError|
                    #[trigger] to_string_from_display_ensures::<glob::PatternError>(&pe, e.cause);
                let r: Result<Self, CleanError> = Err(CleanError::InvalidPattern(e));
                assert(r matches Err(x) ==> x matches CleanError::InvalidPattern(ip) && ip == e);
                assert(to_string_from_display_ensures::<glob::PatternError>(&pe, e.cause));
                r
            },
        }
    }

    /// The file system the cleaner works on.
    pub fn fs(&self) -> (r: &F)
        ensures
            *r == self.file_system(),
    {
        &self.fs
    }

    /// The paths of `listing`, in order, whose final name matches a pattern.
    pub fn filter_matches(&self, listing: Vec<String>) -> (r: Vec<String>)
        ensures
            r@ == matching_paths(listing@, self.patterns()),
    {
        let mut out: Vec<String> = Vec::new();
        let mut i: usize = 0;
        while i < listing.len()
            invariant
                i <= listing@.len(),
                out@ == matching_paths(listing@.subrange(0, i as int), self.patterns()),
            decreases listing@.len() - i,
        {
            assert(listing@.subrange(0, i + 1).drop_last() =~= listing@.subrange(0, i as int));
            let hit = match file_name_of(listing[i].as_str()) {
                Some(name) => self.matcher.matches(name.as_str()),
                None => false,
            };
            if hit {
                out.push(listing[i].clone());
            }
            i = i + 1;
        }
        assert(listing@.subrange(0, listing@.len() as int) =~= listing@);
        out
    }

    /// The matching files under `root`, found by walking it with the ignore
    /// set; fails exactly when the walk fails, with the walk's error.
    pub fn scan(&self, root: &str) -> (r: Result<Vec<String>, CleanError>)
        ensures
            r matches Ok(v) ==> exists|listing: Seq<String>|
                #[trigger] self.file_system().walk_spec(root@, self.ignored(), Ok(listing))
                && v@ == matching_paths(listing, self.patterns()),
            r is Err ==> r->Err_0 is Walk && self.file_system().walk_spec(
                root@,
                self.ignored(),
                Err(r->Err_0->Walk_0),
            ),
    {
        match self.fs.walk_dir(root, self.ignore_patterns.as_slice()) {
            Ok(listing) => {
                let ghost l = listing@;
                let v = self.filter_matches(listing);
                assert(self.file_system().walk_spec(root@, self.ignored(), Ok(l)));
                Ok(v)
            },
            Err(cause) => Err(CleanError::Walk(cause)),
        }
    }

    /// One pass: scans `root`, then counts every match as deleted under a
    /// dry run, or else tries to remove each match once, in order, counting
    /// successes and keeping each failure with its reason. A failed removal
    /// never stops the pass; a failed walk fails the call and changes
    /// nothing. A dry run leaves the cleaner, and so its file system, as it
    /// was.
    pub fn clean(&mut self, root: &str, dry_run: bool) -> (r: Result<CleanResult, CleanError>)
        ensures
            final(self).patterns() == old(self).patterns(),
            final(self).ignored() == old(self).ignored(),
            dry_run ==> *final(self) == *old(self),
            r matches Ok(res) ==> exists|
                listing: Seq<String>,
                outcomes: Seq<Result<(), String>>,
                states: Seq<F>,
            |
                #[trigger] pass_of(
                    old(self).file_system(),
                    final(self).file_system(),
                    root@,
                    old(self).ignored(),
                    old(self).patterns(),
                    listing,
                    outcomes,
                    states,
                    res,
                    dry_run,
                ),
            r is Err ==> {
                &&& r->Err_0 is Walk
                &&& old(self).file_system().walk_spec(root@, old(self).ignored(), Err(r->Err_0->Walk_0))
                &&& *final(self) == *old(self)
            },
    {
        let files = match self.scan(root) {
            Ok(v) => v,
            Err(e) => return Err(e),
        };
        let ghost listing = choose|listing: Seq<String>|
            #[trigger] self.file_system().walk_spec(root@, self.ignored(), Ok(listing))
            && files@ == matching_paths(listing, self.patterns());
        let ghost start = self.fs;
        let n = files.len();
        let mut result = CleanResult::new(n, dry_run);
        let ghost mut outcomes: Seq<Result<(), String>> = seq![];
        let ghost mut states: Seq<F> = seq![start];
        let mut i: usize = 0;
        while i < n
            invariant
                n == files@.len(),
                i <= n,
                start == old(self).file_system(),
                files@ == matching_paths(listing, old(self).patterns()),
                self.patterns() == old(self).patterns(),
                self.ignored() == old(self).ignored(),
                dry_run ==> *self == *old(self),
                result.files_found == n,
                result.dry_run == dry_run,
                dry_run ==> result.files_deleted == i && result.files_failed@.len() == 0,
                !dry_run ==> outcomes.len() == i && result.files_deleted == success_count(outcomes)
                    && result.files_failed@ == failures(files@, outcomes),
                !dry_run ==> removal_chain(start, files@.subrange(0, i as int), outcomes, states)
                    && self.fs == states.last(),
            decreases n - i,
        {
            if dry_run {
                result.record_would_delete();
            } else {
                proof {
                    lemma_failures_len(files@, outcomes);
                }
                let path = files[i].clone();
                let ghost before = self.fs;
                let outcome = self.fs.remove_file(path.as_str());
                proof {
                    let next = outcomes.push(outcome);
                    assert(next.drop_last() =~= outcomes);
                    let next_states = states.push(self.fs);
                    let done = files@.subrange(0, i + 1);
                    assert forall|k: int| 0 <= k < done.len() implies #[trigger] next_states[k].remove_spec(
                        done[k]@,
                        next[k],
                        next_states[k + 1],
                    ) by {
                        if k < i {
                            assert(files@.subrange(0, i as int)[k] == done[k]);
                            assert(states[k].remove_spec(files@.subrange(0, i as int)[k]@, outcomes[k], states[k + 1]));
                        } else {
                            assert(next_states[k] == before);
                        }
                    }
                    outcomes = next;
                    states = next_states;
                }
                result.record_removal(path, outcome);
            }
            i = i + 1;
        }
        assert(files@.subrange(0, n as int) =~= files@);
        assert(pass_of(start, self.fs, root@, old(self).ignored(), old(self).patterns(), listing, outcomes, states, result, dry_run));
        let r: Result<CleanResult, CleanError> = Ok(result);
        assert(r matches Ok(res) ==> res == result);
        assert(pass_of(old(self).file_system(), self.file_system(), root@, old(self).ignored(), old(self).patterns(), listing, outcomes, states, result, dry_run));
        r
    }
}

proof fn lemma_chain_keeps_fail_on(
    start: MockFileSystem,
    paths: Seq<String>,
    outcomes: Seq<Result<(), String>>,
    states: Seq<MockFileSystem>,
    k: int,
)
    requires
        removal_chain(start, paths, outcomes, states),
        0 <= k <= paths.len(),
    ensures
        states[k].fail_on() == start.fail_on(),
    decreases k,
{
    if k > 0 {
        lemma_chain_keeps_fail_on(start, paths, outcomes, states, k - 1);
        let i = k - 1;
        assert(states[i].remove_spec(paths[i]@, outcomes[i], states[i + 1]));
        assert(i + 1 == k);
    }
}

/// On the in-memory file system, two dry passes in a row walk the same
/// files and report the same counts: as many found and deleted as there
/// are matching listed files, and no failure.
pub proof fn lemma_mock_dry_runs_agree(
    m: MockFileSystem,
    root: Seq<char>,
    ignore: Seq<String>,
    patterns: Seq<Seq<char>>,
    l1: Seq<String>,
    o1: Seq<Result<(), String>>,
    s1: Seq<MockFileSystem>,
    r1: CleanResult,
    l2: Seq<String>,
    o2: Seq<Result<(), String>>,
    s2: Seq<MockFileSystem>,
    r2: CleanResult,
)
    requires
        pass_of(m, m, root, ignore, patterns, l1, o1, s1, r1, true),
        pass_of(m, m, root, ignore, patterns, l2, o2, s2, r2, true),
    ensures
        r1.files_found == r2.files_found,
        r1.files_deleted == r2.files_deleted,
        r1.files_failed@.len() == r2.files_failed@.len(),
        r1.files_found == matching_paths(listed_files(m.files(), m.deleted(), ignore), patterns).len(),
        r1.files_deleted == r1.files_found,
        r1.files_failed@.len() == 0,
{
    lemma_dry_runs_agree(r1, r2, matching_paths(l1, patterns), o1, o2);
}

/// On the in-memory file system, when exactly one of the `n` matches is
/// the path whose removal is refused, a pass reports `n` found, `n - 1`
/// deleted, and one failure: that path, with "Permission denied".
pub proof fn lemma_mock_single_failure(
    m: MockFileSystem,
    end: MockFileSystem,
    root: Seq<char>,
    ignore: Seq<String>,
    patterns: Seq<Seq<char>>,
    listing: Seq<String>,
    outcomes: Seq<Result<(), String>>,
    states: Seq<MockFileSystem>,
    res: CleanResult,
    j: int,
)
    requires
        pass_of(m, end, root, ignore, patterns, listing, outcomes, states, res, false),
        0 <= j < matching_paths(listing, patterns).len(),
        m.refuses(matching_paths(listing, patterns)[j]@),
        forall|k: int|
            0 <= k < matching_paths(listing, patterns).len() && k != j ==> !m.refuses(
                #[trigger] matching_paths(listing, patterns)[k]@,
            ),
    ensures
        res.files_found == matching_paths(listing, patterns).len(),
        res.files_deleted == matching_paths(listing, patterns).len() - 1,
        res.files_failed@.len() == 1,
        res.files_failed@[0].0 == matching_paths(listing, patterns)[j],
        res.files_failed@[0].1@ == permission_denied(matching_paths(listing, patterns)[j]@),
{
    let found = matching_paths(listing, patterns);
    assert forall|k: int| 0 <= k < found.len() implies (#[trigger] outcomes[k] is Err) == (k == j) by {
        lemma_chain_keeps_fail_on(m, found, outcomes, states, k);
        assert(states[k].remove_spec(found[k]@, outcomes[k], states[k + 1]));
    }
    lemma_chain_keeps_fail_on(m, found, outcomes, states, j);
    assert(states[j].remove_spec(found[j]@, outcomes[j], states[j + 1]));
    lemma_single_failure(res, found, outcomes, j);
}

} // verus!
