use vstd::prelude::*;

verus! {

#[verifier::external_type_specification]
#[verifier::external_body]
pub struct ExRegex(regex::Regex);

/// Whether `pattern` is accepted by the regular-expression compiler under its
/// default limits.
pub uninterp spec fn regex_compiles(pattern: Seq<char>) -> bool;

/// Whether the regular expression `pattern` matches somewhere in `haystack`
/// (a search, not a match of the whole text).
pub uninterp spec fn regex_finds(pattern: Seq<char>, haystack: Seq<char>) -> bool;

/// A compiled ignore pattern together with the text it was compiled from.
/// Only `compile_regex` builds one, from the text it compiles.
pub struct IgnorePattern {
    regex: regex::Regex,
    source: Ghost<Seq<char>>,
}

/// Relies on regex::Regex::new: it succeeds exactly on the patterns that
/// compile, which depends on the pattern text alone. The compiled value is
/// kept with that text.
#[verifier::external_body]
fn compile_regex(pattern: &str) -> (r: Option<IgnorePattern>)
    ensures
        r.is_some() == regex_compiles(pattern@),
        r matches Some(p) ==> p.source() == pattern@,
{
    regex::Regex::new(pattern).ok().map(|regex| IgnorePattern { regex, source: Ghost(pattern@) })
}

/// Relies on regex::Regex::is_match: true iff the expression the value was
/// compiled from matches anywhere in `haystack`.
#[verifier::external_body]
fn regex_is_match(pattern: &IgnorePattern, haystack: &str) -> (r: bool)
    ensures
        r == regex_finds(pattern.source@, haystack@),
{
    pattern.regex.is_match(haystack)
}

impl IgnorePattern {
    /// The text this pattern was compiled from.
    pub closed spec fn source(&self) -> Seq<char> {
        self.source@
    }

    /// Compiles `pattern`; `None` when it is not a valid expression.
    pub fn compile(pattern: &str) -> (r: Option<IgnorePattern>)
        ensures
            r.is_some() == regex_compiles(pattern@),
            r matches Some(p) ==> p.source() == pattern@,
    {
        compile_regex(pattern)
    }

    /// Whether this pattern matches somewhere in `path`.
    pub fn is_match(&self, path: &str) -> (r: bool)
        ensures
            r == regex_finds(self.source(), path@),
    {
        regex_is_match(self, path)
    }
}

/// Whether a path is left out of change handling under an optional ignore
/// pattern: never without a pattern or with one that does not compile,
/// otherwise exactly when the pattern matches somewhere in the path text.
pub open spec fn ignored(pattern: Option<Seq<char>>, path: Seq<char>) -> bool {
    match pattern {
        Some(p) => regex_compiles(p) && regex_finds(p, path),
        None => false,
    }
}

/// Decides whether a change to `path` is to be ignored under `ignore_pattern`.
/// A pattern that fails to compile filters nothing.
pub fn should_ignore_path(path: &str, ignore_pattern: Option<&str>) -> (r: bool)
    ensures
        r == ignored(
            match ignore_pattern {
                Some(p) => Some(p@),
                None => None,
            },
            path@,
        ),
{
    match ignore_pattern {
        Some(p) => match IgnorePattern::compile(p) {
            Some(re) => re.is_match(path),
            None => false,
        },
        None => false,
    }
}

/// A pattern that does not compile ignores no path at all.
pub proof fn malformed_pattern_ignores_nothing(pattern: Seq<char>, path: Seq<char>)
    requires
        !regex_compiles(pattern),
    ensures
        !ignored(Some(pattern), path),
{
}

/// Without a pattern no path is ignored.
pub proof fn no_pattern_ignores_nothing(path: Seq<char>)
    ensures
        !ignored(None, path),
{
}

} // verus!
