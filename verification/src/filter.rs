//! The filter chain: an ordered, append-only sequence of glob patterns.
//! An event passes the chain only if every installed pattern matches every
//! path the event touches; the empty chain passes everything.

use vstd::prelude::*;

use crate::taxonomy::RawEvent;

verus! {

/// Whether a pattern string is a syntactically valid glob pattern,
/// as `glob::Pattern::new` decides it.
pub uninterp spec fn glob_valid(pattern: Seq<char>) -> bool;

/// Whether a valid glob pattern matches a path string, as
/// `glob::Pattern::matches` decides it.
pub uninterp spec fn glob_matches(pattern: Seq<char>, path: Seq<char>) -> bool;

/// Relies on `glob::Pattern::new`: whether a pattern string compiles is a
/// function of the string alone. On failure the syntax message is handed
/// back.
#[verifier::external_body]
fn glob_compile_error(pattern: &String) -> (r: Option<String>)
    ensures
        r is None <==> glob_valid(pattern@),
{
    match glob::Pattern::new(pattern.as_str()) {
        Ok(_) => None,
        Err(e) => Some(e.to_string()),
    }
}

/// Relies on `glob::Pattern::new` and `glob::Pattern::matches`: whether a
/// pattern matches a path is a function of the two strings alone. A
/// pattern that does not compile matches nothing here.
#[verifier::external_body]
fn glob_match(pattern: &String, path: &String) -> (r: bool)
    ensures
        glob_valid(pattern@) ==> r == glob_matches(pattern@, path@),
        !glob_valid(pattern@) ==> r == false,
{
    match glob::Pattern::new(pattern.as_str()) {
        Ok(p) => p.matches(path.as_str()),
        Err(_) => false,
    }
}

/// The error reported when a filter specification is not a valid glob
/// pattern. The chain is left unchanged when it is returned.
#[derive(Clone, Debug, PartialEq, Eq)]
pub struct FilterError {
    pub message: String,
}

/// Whether one installed pattern accepts an event with the given paths:
/// the pattern is valid and matches every path. An event touching several
/// paths is rejected as soon as one of them fails to match.
pub open spec fn pattern_accepts(pattern: Seq<char>, paths: Seq<Seq<char>>) -> bool {
    glob_valid(pattern) && forall|i: int|
        0 <= i < paths.len() ==> glob_matches(pattern, paths[i])
}

/// Whether the whole chain accepts an event with the given paths: the
/// conjunction of all installed patterns. The empty chain accepts
/// everything.
pub open spec fn chain_accepts(patterns: Seq<Seq<char>>, paths: Seq<Seq<char>>) -> bool {
    forall|i: int| 0 <= i < patterns.len() ==> pattern_accepts(patterns[i], paths)
}

/// An ordered chain of glob-pattern filters. Installation appends; there
/// is no removal. Every pattern held by the chain compiled successfully.
pub struct FilterChain {
    patterns: Vec<String>,
}

impl View for FilterChain {
    type V = Seq<Seq<char>>;

    closed spec fn view(&self) -> Seq<Seq<char>> {
        self.patterns.deep_view()
    }
}

impl FilterChain {
    /// A chain with no filters installed.
    pub fn new() -> (r: Self)
        ensures
            r@ == Seq::<Seq<char>>::empty(),
    {
        let chain = FilterChain { patterns: Vec::new() };
        proof {
            assert(chain@ =~= Seq::<Seq<char>>::empty());
        }
        chain
    }

    /// How many filters are installed.
    pub fn len(&self) -> (n: usize)
        ensures
            n == self@.len(),
    {
        self.patterns.len()
    }

    /// Compiles a glob filter specification and appends it to the chain.
    /// An invalid pattern is reported to the caller and the chain is left
    /// exactly as it was.
    pub fn install(&mut self, pattern: String) -> (r: Result<(), FilterError>)
        ensures
            glob_valid(pattern@) ==> r is Ok && final(self)@ == old(self)@.push(pattern@),
            !glob_valid(pattern@) ==> r is Err && final(self)@ == old(self)@,
    {
        match glob_compile_error(&pattern) {
            None => {
                let ghost previous = self@;
                let ghost installed = pattern@;
                self.patterns.push(pattern);
                proof {
                    assert(self@ =~= previous.push(installed));
                }
                Ok(())
            },
            Some(message) => Err(FilterError { message }),
        }
    }

    /// Whether every installed pattern matches every path of the event.
    #[verifier::loop_isolation(false)]
    pub fn accepts(&self, e: &RawEvent) -> (r: bool)
        ensures
            r == chain_accepts(self@, e@.paths),
    {
        let mut i: usize = 0;
        while i < self.patterns.len()
            invariant
                i <= self.patterns.len(),
                forall|k: int| 0 <= k < i ==> pattern_accepts(self@[k], e@.paths),
            decreases self.patterns.len() - i,
        {
            if !pattern_matches_all(&self.patterns[i], &e.paths) {
                proof {
                    assert(self@[i as int] == self.patterns@[i as int]@);
                    assert(!pattern_accepts(self@[i as int], e@.paths));
                }
                return false;
            }
            i = i + 1;
        }
        true
    }
}

/// Whether one pattern matches every path in the list, rejecting outright
/// when the pattern does not compile.
#[verifier::loop_isolation(false)]
fn pattern_matches_all(pattern: &String, paths: &Vec<String>) -> (r: bool)
    ensures
        r == pattern_accepts(pattern@, paths.deep_view()),
{
    if glob_compile_error(pattern).is_some() {
        return false;
    }
    let mut i: usize = 0;
    while i < paths.len()
        invariant
            i <= paths.len(),
            glob_valid(pattern@),
            forall|k: int| 0 <= k < i ==> glob_matches(pattern@, paths.deep_view()[k]),
        decreases paths.len() - i,
    {
        if !glob_match(pattern, &paths[i]) {
            proof {
                assert(paths.deep_view()[i as int] == paths@[i as int]@);
                assert(!glob_matches(pattern@, paths.deep_view()[i as int]));
            }
            return false;
        }
        i = i + 1;
    }
    true
}

/// The chain with no filters accepts every event.
pub proof fn lemma_empty_chain_accepts(paths: Seq<Seq<char>>)
    ensures
        chain_accepts(Seq::<Seq<char>>::empty(), paths),
{
}

/// One path that fails to match is enough for a pattern to reject an
/// event, however many of its other paths match.
pub proof fn lemma_one_failing_path_rejects(pattern: Seq<char>, paths: Seq<Seq<char>>, i: int)
    requires
        0 <= i < paths.len(),
        !glob_matches(pattern, paths[i]),
    ensures
        !pattern_accepts(pattern, paths),
{
}

/// Acceptance by a chain follows from acceptance by any chain holding the
/// same patterns, whatever their order.
proof fn lemma_chain_accepts_rearranged(
    c1: Seq<Seq<char>>,
    c2: Seq<Seq<char>>,
    paths: Seq<Seq<char>>,
)
    requires
        c1.to_multiset() == c2.to_multiset(),
        chain_accepts(c1, paths),
    ensures
        chain_accepts(c2, paths),
{
    broadcast use vstd::seq_lib::group_to_multiset_ensures;

    assert forall|i: int| 0 <= i < c2.len() implies pattern_accepts(c2[i], paths) by {
        assert(c2.contains(c2[i]));
        assert(c1.to_multiset().count(c2[i]) > 0);
        assert(c1.contains(c2[i]));
        let j = choose|j: int| 0 <= j < c1.len() && c1[j] == c2[i];
        assert(pattern_accepts(c1[j], paths));
    }
}

/// The chain is a pure conjunction: two chains holding the same patterns
/// in any order accept exactly the same events.
pub proof fn lemma_chain_order_irrelevant(
    c1: Seq<Seq<char>>,
    c2: Seq<Seq<char>>,
    paths: Seq<Seq<char>>,
)
    requires
        c1.to_multiset() == c2.to_multiset(),
    ensures
        chain_accepts(c1, paths) == chain_accepts(c2, paths),
{
    if chain_accepts(c1, paths) {
        lemma_chain_accepts_rearranged(c1, c2, paths);
    }
    if chain_accepts(c2, paths) {
        lemma_chain_accepts_rearranged(c2, c1, paths);
    }
}

} // verus!
