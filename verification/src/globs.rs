//! Ignore patterns: a compiled filesystem glob matched against a single path
//! component, and the test whether any pattern of a set matches a name.

use vstd::prelude::*;

verus! {

/// Whether `glob::Pattern::new` accepts `pat` as a well-formed glob.
/// Acceptance depends on the pattern text alone.
pub uninterp spec fn glob_wf(pat: Seq<char>) -> bool;

/// Whether the glob `pat` matches the string `name` under the crate's default
/// match options. The result depends on the two strings alone.
pub uninterp spec fn glob_match(pat: Seq<char>, name: Seq<char>) -> bool;

#[verifier::external_type_specification]
#[verifier::external_body]
pub struct ExPattern(glob::Pattern);

/// A glob pattern, kept together with the text it was compiled from. The
/// compiled form is built from `source` by the one constructor, so matching
/// against it is matching against `source`.
#[derive(Debug)]
pub struct GlobPattern {
    source: String,
    compiled: glob::Pattern,
}

impl View for GlobPattern {
    type V = Seq<char>;

    closed spec fn view(&self) -> Seq<char> {
        self.source@
    }
}

/// The pattern texts of a sequence of compiled globs.
pub open spec fn pat_views(pats: Seq<GlobPattern>) -> Seq<Seq<char>> {
    pats.map_values(|p: GlobPattern| p@)
}

impl GlobPattern {
    /// Relies on glob::Pattern::new: it compiles the pattern text, and
    /// accepts or rejects it on the text alone. A rejection is returned as
    /// the crate's rendering of its syntax error.
    #[verifier::external_body]
    pub fn new(pat: &str) -> (r: Result<GlobPattern, String>)
        ensures
            r is Ok <==> glob_wf(pat@),
            r matches Ok(p) ==> p@ == pat@,
    {
        match glob::Pattern::new(pat) {
            Ok(compiled) => Ok(GlobPattern { source: pat.to_owned(), compiled }),
            Err(e) => Err(e.to_string()),
        }
    }

    /// Relies on glob::Pattern::matches: the answer is a function of the
    /// pattern text and the candidate string alone.
    #[verifier::external_body]
    pub fn matches(&self, name: &str) -> (r: bool)
        ensures
            r == glob_match(self@, name@),
    {
        self.compiled.matches(name)
    }

    /// The pattern text this glob was compiled from.
    pub fn as_text(&self) -> (r: &str)
        ensures
            r@ == self@,
    {
        self.source.as_str()
    }
}

/// True when some pattern of `pats` matches `name`.
pub open spec fn ignored_by(pats: Seq<Seq<char>>, name: Seq<char>) -> bool {
    exists|i: int| 0 <= i < pats.len() && glob_match(pats[i], name)
}

/// Whether any pattern of the set matches the entry name. The name is a
/// single path component, never a full path.
pub fn is_ignored(name: &str, pats: &Vec<GlobPattern>) -> (r: bool)
    ensures
        r == ignored_by(pat_views(pats@), name@),
{
    let mut i: usize = 0;
    while i < pats.len()
        invariant
            0 <= i <= pats.len(),
            forall|j: int| 0 <= j < i ==> !glob_match(pat_views(pats@)[j], name@),
        decreases pats.len() - i,
    {
        if pats[i].matches(name) {
            assert(glob_match(pat_views(pats@)[i as int], name@));
            return true;
        }
        i += 1;
    }
    false
}

} // verus!
