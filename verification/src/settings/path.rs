//! Which settings file is read.

use vstd::prelude::*;

verus! {

/// What the filesystem says of one of the paths where a settings file may
/// be: whether it is relative or absolute, whether it exists from the
/// current directory, the first existing file under that relative path in
/// the current directory or one of its ancestors, and whether it is a file.
#[derive(Clone, Debug)]
pub struct PathCandidate {
    pub path: String,
    pub is_relative: bool,
    pub is_absolute: bool,
    pub exists: bool,
    pub ancestor_match: Option<String>,
    pub is_file: bool,
}

/// The text `t`, if any, as plain characters.
pub open spec fn opt_chars(t: Option<String>) -> Option<Seq<char>> {
    match t {
        Some(s) => Some(s@),
        None => None,
    }
}

/// A relative path that does not exist from the current directory is
/// looked for in the current directory's ancestors.
pub open spec fn searched_in_ancestors(c: PathCandidate) -> bool {
    c.is_relative && !c.exists
}

/// The candidate settles which file is read: found in an ancestor, or an
/// absolute path to a file.
pub open spec fn settles(c: PathCandidate) -> bool {
    if searched_in_ancestors(c) {
        c.ancestor_match is Some
    } else {
        c.is_absolute && c.is_file
    }
}

/// The path that a settling candidate gives: the match in an ancestor, or
/// else the path already named (by `EDEN_SETTINGS`) if any, else its own.
pub open spec fn settled_path(named: Option<Seq<char>>, c: PathCandidate) -> Option<Seq<char>> {
    if searched_in_ancestors(c) {
        opt_chars(c.ancestor_match)
    } else if named is Some {
        named
    } else {
        Some(c.path@)
    }
}

/// The path given by the first candidate from `i` on that settles, or the
/// named one when none does.
pub open spec fn first_settled(named: Option<Seq<char>>, cs: Seq<PathCandidate>, i: int) -> Option<Seq<char>>
    decreases cs.len() - i,
{
    if i < 0 || i >= cs.len() {
        named
    } else if settles(cs[i]) {
        settled_path(named, cs[i])
    } else {
        first_settled(named, cs, i + 1)
    }
}

/// The settings file that is read: the one `EDEN_SETTINGS` names when it
/// exists; else the first candidate that settles; else what `EDEN_SETTINGS`
/// names, if anything.
pub open spec fn spec_resolve_path(named: Option<Seq<char>>, named_exists: bool, cs: Seq<PathCandidate>) -> Option<Seq<char>> {
    if named_exists {
        named
    } else {
        first_settled(named, cs, 0)
    }
}

/// Decides which settings file is read, from what `EDEN_SETTINGS` names
/// (and whether that exists) and what the filesystem says of each
/// candidate path, in order.
pub fn resolve_path(named: Option<String>, named_exists: bool, candidates: &Vec<PathCandidate>) -> (r: Option<String>)
    ensures
        opt_chars(r) == spec_resolve_path(opt_chars(named), named_exists, candidates@),
{
    if named_exists {
        return named;
    }
    let ghost named_view = opt_chars(named);
    let mut i: usize = 0;
    while i < candidates.len()
        invariant
            i <= candidates@.len(),
            !named_exists,
            opt_chars(named) == named_view,
            first_settled(named_view, candidates@, 0) == first_settled(named_view, candidates@, i as int),
        decreases candidates.len() - i,
    {
        let c = &candidates[i];
        if c.is_relative && !c.exists {
            if let Some(found) = &c.ancestor_match {
                return Some(found.clone());
            }
        } else if c.is_absolute && c.is_file {
            return match named {
                Some(n) => Some(n),
                None => Some(c.path.clone()),
            };
        }
        i = i + 1;
    }
    named
}

/// What `EDEN_SETTINGS` names is read when it exists, whatever the
/// candidates; with no candidate, it is what is read anyway.
pub proof fn law_existing_named_file_wins(named: Option<Seq<char>>, cs: Seq<PathCandidate>)
    ensures
        spec_resolve_path(named, true, cs) == named,
        spec_resolve_path(named, false, Seq::<PathCandidate>::empty()) == named,
{
}

/// The first candidate decides when it can: a relative path missing from
/// the current directory but found in an ancestor gives that match; an
/// absolute path to a file gives the named path if any, else itself. Any
/// other first candidate is passed over.
pub proof fn law_first_candidate_decides(named: Option<Seq<char>>, c: PathCandidate, cs: Seq<PathCandidate>)
    ensures
        c.is_relative && !c.exists && c.ancestor_match is Some
            ==> spec_resolve_path(named, false, seq![c] + cs) == Some(c.ancestor_match->0@),
        !(c.is_relative && !c.exists) && c.is_absolute && c.is_file
            ==> spec_resolve_path(named, false, seq![c] + cs) == (if named is Some { named } else { Some(c.path@) }),
        (c.is_relative && !c.exists && c.ancestor_match is None) || (!(c.is_relative && !c.exists) && !(c.is_absolute && c.is_file))
            ==> spec_resolve_path(named, false, seq![c] + cs) == spec_resolve_path(named, false, cs),
{
    let s = seq![c] + cs;
    assert(s[0] == c);
    if !settles(c) {
        lemma_first_settled_shift(named, c, cs, 0);
    }
}

proof fn lemma_first_settled_shift(named: Option<Seq<char>>, c: PathCandidate, cs: Seq<PathCandidate>, i: int)
    requires
        0 <= i <= cs.len(),
    ensures
        first_settled(named, seq![c] + cs, i + 1) == first_settled(named, cs, i),
    decreases cs.len() - i,
{
    let s = seq![c] + cs;
    if i < cs.len() {
        assert(s[i + 1] == cs[i]);
        lemma_first_settled_shift(named, c, cs, i + 1);
    }
}

} // verus!
