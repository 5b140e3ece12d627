//! File name patterns, compiled by the `glob` crate.
use vstd::prelude::*;
use vstd::string::to_string_from_display_ensures;

verus! {

/// `glob::Pattern`, a compiled pattern, carried as an opaque value.
#[verifier::external_type_specification]
#[verifier::external_body]
pub struct ExPattern(glob::Pattern);

/// `glob::PatternError`, why a pattern did not compile, carried as an
/// opaque value.
#[verifier::external_type_specification]
#[verifier::external_body]
pub struct ExPatternError(glob::PatternError);

/// Whether `glob::Pattern::new` accepts `pattern`.
pub uninterp spec fn glob_accepts(pattern: Seq<char>) -> bool;

/// Whether a pattern compiled from `pattern` matches `name`.
pub uninterp spec fn glob_matches(pattern: Seq<char>, name: Seq<char>) -> bool;

/// A pattern made of literal characters, `?` and single `*` only: no
/// bracket class, no `**`, and no path separator (slash or backslash).
pub open spec fn is_plain_pattern(p: Seq<char>) -> bool {
    &&& forall|i: int| 0 <= i < p.len() ==> p[i] != '[' && p[i] != '/' && p[i] != '\\'
    &&& forall|i: int| 0 <= i < p.len() - 1 ==> !(#[trigger] p[i] == '*' && p[i + 1] == '*')
}

/// Anchored, case-sensitive wildcard matching: `?` takes exactly one
/// character, `*` any run of characters (possibly empty), and every other
/// character stands for itself.
pub open spec fn wildcard_match(p: Seq<char>, s: Seq<char>) -> bool
    decreases p.len() + s.len(),
{
    if p.len() == 0 {
        s.len() == 0
    } else if p[0] == '*' {
        wildcard_match(p.drop_first(), s) || (s.len() > 0 && wildcard_match(p, s.drop_first()))
    } else if s.len() == 0 {
        false
    } else {
        (p[0] == '?' || p[0] == s[0]) && wildcard_match(p.drop_first(), s.drop_first())
    }
}

/// A compiled pattern together with the text it was compiled from. Only
/// `compile_glob` builds one, so `compiled` always comes from `source`.
pub struct Glob {
    source: String,
    compiled: glob::Pattern,
}

impl Glob {
    /// The text the pattern was compiled from.
    pub closed spec fn source_view(&self) -> Seq<char> {
        self.source@
    }
}

/// Relies on `glob::Pattern::new`: it fails exactly on the patterns it does
/// not accept; it rejects only `[` without a closing `]` and misplaced or
/// tripled `*`, so a plain pattern is always accepted.
#[verifier::external_body]
fn compile_glob(pattern: &String) -> (r: Result<Glob, glob::PatternError>)
    ensures
        r is Ok == glob_accepts(pattern@),
        is_plain_pattern(pattern@) ==> r is Ok,
        r matches Ok(g) ==> g.source_view() == pattern@,
{
    match glob::Pattern::new(pattern) {
        Ok(compiled) => Ok(Glob { source: pattern.clone(), compiled }),
        Err(e) => Err(e),
    }
}

/// Relies on `glob::Pattern::matches` with its default options (on Unix:
/// case sensitive, `*` and `?` also match `/` and a leading `.`): on a plain
/// pattern it is anchored wildcard matching.
#[verifier::external_body]
fn glob_is_match(g: &Glob, name: &str) -> (r: bool)
    ensures
        r == glob_matches(g.source_view(), name@),
        is_plain_pattern(g.source_view()) ==> r == wildcard_match(g.source_view(), name@),
{
    g.compiled.matches(name)
}

/// A pattern that failed to compile, and why.
#[derive(Debug)]
pub struct InvalidPattern {
    pub pattern: String,
    pub cause: String,
}

impl InvalidPattern {
    /// A readable description of the error.
    pub fn to_string(&self) -> (r: String)
        ensures
            r@ == "invalid pattern '"@ + self.pattern@ + "': "@ + self.cause@,
    {
        let mut text = String::from_str("invalid pattern '");
        text.append(self.pattern.as_str());
        text.append("': ");
        text.append(self.cause.as_str());
        text
    }
}

/// Whether one of `patterns` matches `name`.
pub open spec fn any_glob_matches(patterns: Seq<Seq<char>>, name: Seq<char>) -> bool {
    exists|i: int| 0 <= i < patterns.len() && glob_matches(#[trigger] patterns[i], name)
}

/// Whether one of `patterns` matches `name` as a wildcard pattern.
pub open spec fn any_wildcard_matches(patterns: Seq<Seq<char>>, name: Seq<char>) -> bool {
    exists|i: int| 0 <= i < patterns.len() && wildcard_match(#[trigger] patterns[i], name)
}

/// The texts of `patterns`, in order.
pub open spec fn texts(patterns: Seq<String>) -> Seq<Seq<char>> {
    patterns.map_values(|p: String| p@)
}

/// A set of compiled file name patterns.
pub struct PatternMatcher {
    patterns: Vec<Glob>,
}

impl PatternMatcher {
    /// The texts of the patterns, in the order given.
    pub closed spec fn sources(&self) -> Seq<Seq<char>> {
        self.patterns@.map_values(|g: Glob| g.source_view())
    }

    /// Compiles every pattern; fails on the first one that does not
    /// compile, with glob's description of the syntax error as the cause.
    pub fn new(patterns: &[String]) -> (r: Result<Self, InvalidPattern>)
        ensures
            r is Ok <==> (forall|i: int| 0 <= i < patterns@.len() ==> glob_accepts(#[trigger] patterns@[i]@)),
            (forall|i: int| 0 <= i < patterns@.len() ==> is_plain_pattern(#[trigger] patterns@[i]@)) ==> r is Ok,
            r matches Ok(m) ==> m.sources() == texts(patterns@),
            r matches Err(e) ==> exists|i: int|
                0 <= i < patterns@.len() && !glob_accepts(#[trigger] patterns@[i]@) && e.pattern@ == patterns@[i]@
                && forall|k: int| 0 <= k < i ==> glob_accepts(#[trigger] patterns@[k]@),
            r matches Err(e) ==> exists|pe: glob::PatternError|
                #[trigger] to_string_from_display_ensures::<glob::PatternError>(&pe, e.cause),
    {
        let mut compiled: Vec<Glob> = Vec::new();
        let mut i: usize = 0;
        while i < patterns.len()
            invariant
                i <= patterns@.len(),
                compiled@.len() == i,
                forall|k: int| 0 <= k < i ==> glob_accepts(#[trigger] patterns@[k]@),
                forall|k: int| 0 <= k < i ==> (#[trigger] compiled@[k]).source_view() == patterns@[k]@,
            decreases patterns@.len() - i,
        {
            match compile_glob(&patterns[i]) {
                Ok(g) => {
                    compiled.push(g);
                },
                Err(e) => {
                    let err = InvalidPattern { pattern: patterns[i].clone(), cause: e.to_string() };
                    assert(to_string_from_display_ensures::<glob::PatternError>(&e, err.cause));
                    let r: Result<Self, InvalidPattern> = Err(err);
                    assert(r matches Err(x) ==> x == err);
                    return r;
                },
            }
            i = i + 1;
        }
        let m = PatternMatcher { patterns: compiled };
        assert(m.sources() =~= texts(patterns@));
        Ok(m)
    }

    /// Whether `filename` matches at least one pattern. With no patterns,
    /// nothing matches.
    pub fn matches(&self, filename: &str) -> (r: bool)
        ensures
            r == any_glob_matches(self.sources(), filename@),
            (forall|i: int| 0 <= i < self.sources().len() ==> is_plain_pattern(#[trigger] self.sources()[i]))
                ==> r == any_wildcard_matches(self.sources(), filename@),
    {
        let mut i: usize = 0;
        while i < self.patterns.len()
            invariant
                i <= self.patterns@.len(),
                self.sources().len() == self.patterns@.len(),
                forall|k: int| 0 <= k < self.patterns@.len() ==> #[trigger] self.sources()[k] == self.patterns@[k].source_view(),
                forall|k: int| 0 <= k < i ==> !glob_matches(#[trigger] self.sources()[k], filename@),
                forall|k: int| 0 <= k < i && is_plain_pattern(self.sources()[k]) ==> !wildcard_match(#[trigger] self.sources()[k], filename@),
            decreases self.patterns@.len() - i,
        {
            let hit = glob_is_match(&self.patterns[i], filename);
            assert(self.sources()[i as int] == self.patterns@[i as int].source_view());
            if hit {
                assert(glob_matches(self.sources()[i as int], filename@));
                return true;
            }
            i = i + 1;
        }
        false
    }
}

} // verus!
