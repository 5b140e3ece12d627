//! The settings of one cleanup invocation.
use vstd::prelude::*;

verus! {

/// The file name that is always a target.
pub open spec fn primary_target() -> Seq<char> {
    ".DS_Store"@
}

/// `c` is the configuration for `root_dir`, the primary target followed by
/// `additional`, the ignore set `ignore`, and `dry_run`.
pub open spec fn configured_as(
    c: CleanConfig,
    root_dir: String,
    additional: Seq<String>,
    ignore: Seq<String>,
    dry_run: bool,
) -> bool {
    &&& c.root_dir == root_dir
    &&& c.patterns@ == seq![c.patterns@[0]] + additional
    &&& c.patterns@[0]@ == primary_target()
    &&& c.ignore_patterns@ == ignore
    &&& c.dry_run == dry_run
}

/// Root, patterns, ignored directory names and the dry-run flag of a run.
pub struct CleanConfig {
    pub root_dir: String,
    /// The primary target first, then the additional patterns in order.
    pub patterns: Vec<String>,
    /// Bare directory names whose subtrees are skipped.
    pub ignore_patterns: Vec<String>,
    pub dry_run: bool,
}

impl CleanConfig {
    /// A configuration whose patterns are the primary target followed by
    /// `additional_patterns`, with nothing ignored.
    pub fn new(root_dir: String, additional_patterns: Vec<String>, dry_run: bool) -> (r: Self)
        ensures
            r.root_dir == root_dir,
            r.patterns@ == seq![r.patterns@[0]] + additional_patterns@,
            r.patterns@[0]@ == primary_target(),
            r.ignore_patterns@.len() == 0,
            r.dry_run == dry_run,
    {
        let mut patterns: Vec<String> = Vec::new();
        patterns.push(String::from_str(".DS_Store"));
        let mut i: usize = 0;
        while i < additional_patterns.len()
            invariant
                i <= additional_patterns@.len(),
                patterns@.len() == i + 1,
                patterns@[0]@ == primary_target(),
                forall|k: int| 0 <= k < i ==> patterns@[k + 1] == additional_patterns@[k],
            decreases additional_patterns@.len() - i,
        {
            patterns.push(additional_patterns[i].clone());
            i = i + 1;
        }
        assert(patterns@ =~= seq![patterns@[0]] + additional_patterns@);
        CleanConfig { root_dir, patterns, ignore_patterns: Vec::new(), dry_run }
    }

    /// The same configuration with `ignore_patterns` as its ignore set.
    pub fn with_ignore_patterns(self, ignore_patterns: Vec<String>) -> (r: Self)
        ensures
            r.root_dir == self.root_dir,
            r.patterns == self.patterns,
            r.ignore_patterns == ignore_patterns,
            r.dry_run == self.dry_run,
    {
        CleanConfig { ignore_patterns, ..self }
    }
}

} // verus!
