//! The file system seen by the cleaner, and an in-memory stand-in for it.
use vstd::prelude::*;
use crate::path::{has_ignored_component, names_contain, path_contains_ignored_dir, contains_name};

verus! {

/// The two operations a cleanup pass needs from a file system.
pub trait FileSystem: Sized {
    /// `r` is a possible result of walking `root` with the ignore set
    /// `ignore`, in this state. An implementation that states nothing
    /// admits every result.
    open spec fn walk_spec(&self, root: Seq<char>, ignore: Seq<String>, r: Result<Seq<String>, String>) -> bool {
        true
    }

    /// Removing `path` in this state may return `r` and leave the state
    /// `after`. An implementation that states nothing admits every outcome.
    open spec fn remove_spec(&self, path: Seq<char>, r: Result<(), String>, after: Self) -> bool {
        true
    }

    /// Every regular file under `root`, without following links; a
    /// directory whose bare name is one of `ignore_patterns` is not entered.
    /// Fails when `root` cannot be walked at all.
    fn walk_dir(&self, root: &str, ignore_patterns: &[String]) -> (r: Result<Vec<String>, String>)
        ensures
            self.walk_spec(
                root@,
                ignore_patterns@,
                match r {
                    Ok(v) => Ok(v@),
                    Err(e) => Err(e),
                },
            ),
    ;

    /// Removes the one file at `path`, or says why it could not.
    fn remove_file(&mut self, path: &str) -> (r: Result<(), String>)
        ensures
            old(self).remove_spec(path@, r, *final(self)),
    ;
}

/// What a walk does with one entry it meets.
#[derive(Clone, Copy, Debug, PartialEq, Eq, Structural)]
pub enum EntryStep {
    /// List the entry.
    Include,
    /// Pass over the entry.
    Skip,
    /// Give up: the walk fails.
    Fail,
}

/// Decides one entry of a walk, met at `depth` below the root. The root
/// must be a readable directory, or the walk fails; below it a readable
/// regular file is listed, and anything else, unreadable entries included,
/// is passed over.
pub fn classify_entry(depth: usize, readable: bool, is_dir: bool, is_file: bool) -> (r: EntryStep)
    ensures
        depth == 0 && !(readable && is_dir) ==> r == EntryStep::Fail,
        depth == 0 && readable && is_dir ==> r == EntryStep::Skip,
        depth > 0 && readable && is_file ==> r == EntryStep::Include,
        depth > 0 && !(readable && is_file) ==> r == EntryStep::Skip,
{
    if depth == 0 {
        if readable && is_dir {
            EntryStep::Skip
        } else {
            EntryStep::Fail
        }
    } else if readable && is_file {
        EntryStep::Include
    } else {
        EntryStep::Skip
    }
}

/// `f` is listed by a walk: it has not been removed and no directory
/// it lies in is ignored.
pub open spec fn is_listed(f: String, deleted: Seq<String>, ignore: Seq<String>) -> bool {
    !names_contain(deleted, f@) && !has_ignored_component(f@, ignore)
}

/// The files of `files`, in order, that a walk lists.
pub open spec fn listed_files(files: Seq<String>, deleted: Seq<String>, ignore: Seq<String>) -> Seq<String>
    decreases files.len(),
{
    if files.len() == 0 {
        seq![]
    } else {
        let earlier = listed_files(files.drop_last(), deleted, ignore);
        if is_listed(files.last(), deleted, ignore) {
            earlier.push(files.last())
        } else {
            earlier
        }
    }
}

/// The reason a refused removal gives.
pub open spec fn permission_denied(path: Seq<char>) -> Seq<char> {
    "Permission denied: "@ + path
}

/// A file system held in memory: a fixed list of files, the removals made
/// so far, and at most one path whose removal is refused.
pub struct MockFileSystem {
    files: Vec<String>,
    deleted: Vec<String>,
    fail_on: Option<String>,
}

/// A walk lists exactly the files that are present, not removed, and have
/// no directory component equal to an ignored name; a name that only starts
/// with an ignored name does not hide a file.
pub proof fn lemma_listed_exactly(files: Seq<String>, deleted: Seq<String>, ignore: Seq<String>, f: String)
    ensures
        listed_files(files, deleted, ignore).contains(f) <==> (files.contains(f) && is_listed(f, deleted, ignore)),
    decreases files.len(),
{
    if files.len() > 0 {
        lemma_listed_exactly(files.drop_last(), deleted, ignore, f);
        let earlier = listed_files(files.drop_last(), deleted, ignore);
        if files.contains(f) && f != files.last() {
            let k = choose|k: int| 0 <= k < files.len() && files[k] == f;
            assert(files.drop_last()[k] == f);
        }
        if files.drop_last().contains(f) {
            let k = choose|k: int| 0 <= k < files.drop_last().len() && files.drop_last()[k] == f;
            assert(files[k] == f);
        }
        if is_listed(files.last(), deleted, ignore) {
            assert(earlier.push(files.last())[earlier.len() as int] == files.last());
            if earlier.push(files.last()).contains(f) && f != files.last() {
                let k = choose|k: int| 0 <= k < earlier.len() + 1 && earlier.push(files.last())[k] == f;
                assert(earlier[k] == f);
            }
            if earlier.contains(f) {
                let k = choose|k: int| 0 <= k < earlier.len() && earlier[k] == f;
                assert(earlier.push(files.last())[k] == f);
            }
        }
        assert(files[files.len() - 1] == files.last());
    }
}

impl MockFileSystem {
    pub closed spec fn files(&self) -> Seq<String> {
        self.files@
    }

    pub closed spec fn deleted(&self) -> Seq<String> {
        self.deleted@
    }

    pub closed spec fn fail_on(&self) -> Option<String> {
        self.fail_on
    }

    /// Whether a removal of `path` is refused.
    pub open spec fn refuses(&self, path: Seq<char>) -> bool {
        self.fail_on() is Some && self.fail_on()->Some_0@ == path
    }

    /// An empty file system.
    pub fn new() -> (r: Self)
        ensures
            r.files().len() == 0,
            r.deleted().len() == 0,
            r.fail_on() is None,
    {
        MockFileSystem { files: Vec::new(), deleted: Vec::new(), fail_on: None }
    }

    /// A file system holding `files`, none removed.
    pub fn with_files(files: Vec<String>) -> (r: Self)
        ensures
            r.files() == files@,
            r.deleted().len() == 0,
            r.fail_on() is None,
    {
        MockFileSystem { files, deleted: Vec::new(), fail_on: None }
    }

    /// Makes every later removal of `path` fail.
    pub fn set_fail_on(&mut self, path: String)
        ensures
            final(self).files() == old(self).files(),
            final(self).deleted() == old(self).deleted(),
            final(self).fail_on() == Some(path),
    {
        self.fail_on = Some(path);
    }

    /// Lets removals succeed again.
    pub fn clear_fail_on(&mut self)
        ensures
            final(self).files() == old(self).files(),
            final(self).deleted() == old(self).deleted(),
            final(self).fail_on() is None,
    {
        self.fail_on = None;
    }

    /// The paths removed so far, in order.
    pub fn get_deleted(&self) -> (r: Vec<String>)
        ensures
            r@ == self.deleted(),
    {
        let r = self.deleted.clone();
        assert(r@ =~= self.deleted@);
        r
    }

    /// The files the file system was given, removed ones included.
    pub fn get_files(&self) -> (r: Vec<String>)
        ensures
            r@ == self.files(),
    {
        let r = self.files.clone();
        assert(r@ =~= self.files@);
        r
    }

    /// Adds one file.
    pub fn add_file(&mut self, path: String)
        ensures
            final(self).files() == old(self).files().push(path),
            final(self).deleted() == old(self).deleted(),
            final(self).fail_on() == old(self).fail_on(),
    {
        self.files.push(path);
    }

    /// Whether `path` has been removed.
    pub fn was_deleted(&self, path: &str) -> (r: bool)
        ensures
            r == names_contain(self.deleted(), path@),
    {
        contains_name(path, self.deleted.as_slice())
    }
}

impl FileSystem for MockFileSystem {
    /// A walk of the mock always succeeds with the listed files.
    open spec fn walk_spec(&self, root: Seq<char>, ignore: Seq<String>, r: Result<Seq<String>, String>) -> bool {
        r == Ok::<Seq<String>, String>(listed_files(self.files(), self.deleted(), ignore))
    }

    /// A removal of the refused path fails with "Permission denied" and
    /// changes nothing; any other removal succeeds and records the path.
    open spec fn remove_spec(&self, path: Seq<char>, r: Result<(), String>, after: Self) -> bool {
        &&& after.files() == self.files()
        &&& after.fail_on() == self.fail_on()
        &&& if self.refuses(path) {
            &&& r is Err
            &&& r->Err_0@ == permission_denied(path)
            &&& after.deleted() == self.deleted()
        } else {
            &&& r is Ok
            &&& after.deleted().len() == self.deleted().len() + 1
            &&& after.deleted().last()@ == path
            &&& after.deleted().drop_last() == self.deleted()
        }
    }

    fn walk_dir(&self, root: &str, ignore_patterns: &[String]) -> (r: Result<Vec<String>, String>)
    {
        let mut out: Vec<String> = Vec::new();
        let mut i: usize = 0;
        while i < self.files.len()
            invariant
                i <= self.files@.len(),
                out@ == listed_files(self.files@.subrange(0, i as int), self.deleted@, ignore_patterns@),
            decreases self.files@.len() - i,
        {
            let f = &self.files[i];
            assert(self.files@.subrange(0, i + 1).drop_last() =~= self.files@.subrange(0, i as int));
            if !contains_name(f.as_str(), self.deleted.as_slice())
                && !path_contains_ignored_dir(f.as_str(), ignore_patterns) {
                out.push(f.clone());
            }
            i = i + 1;
        }
        assert(self.files@.subrange(0, self.files@.len() as int) =~= self.files@);
        Ok(out)
    }

    fn remove_file(&mut self, path: &str) -> (r: Result<(), String>)
    {
        let owned = String::from_str(path);
        let refused = match &self.fail_on {
            Some(p) => p.eq(&owned),
            None => false,
        };
        if refused {
            let mut reason = String::from_str("Permission denied: ");
            reason.append(path);
            return Err(reason);
        }
        self.deleted.push(owned);
        assert(self.deleted@.drop_last() =~= old(self).deleted@);
        Ok(())
    }
}

} // verus!
