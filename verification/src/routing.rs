//! Routing of asset paths by file suffix.
//!
//! A loader is configured with an ordered list of suffixes such as `"plist"`
//! or `"level.plist"`. A path falls to the loader when it ends with one of
//! them. Suffixes are compared character by character and as a whole: one of
//! several segments, like `"level.plist"`, is not split at its dots, so a
//! loader can be scoped to `*.level.plist` alone or to every `*.plist`.

use vstd::prelude::*;
use vstd::slice::slice_to_vec;
use vstd::string::StrSliceExecFns;

verus! {

/// The suffixes that a list of extension strings stands for, in its order.
pub open spec fn suffixes<'a>(extensions: Seq<&'a str>) -> Seq<Seq<char>> {
    extensions.map_values(|extension: &'a str| extension@)
}

/// `path` ends with `suffix`.
pub open spec fn ends_with(path: Seq<char>, suffix: Seq<char>) -> bool {
    suffix.is_suffix_of(path)
}

/// `path` ends with at least one of `suffixes`.
pub open spec fn routes(suffixes: Seq<Seq<char>>, path: Seq<char>) -> bool {
    exists|i: int| 0 <= i < suffixes.len() && ends_with(path, #[trigger] suffixes[i])
}

/// Tells whether `path` ends with `suffix`.
pub fn has_suffix(path: &str, suffix: &str) -> (b: bool)
    ensures
        b == ends_with(path@, suffix@),
{
    let n: usize = path.unicode_len();
    let m: usize = suffix.unicode_len();
    if m > n {
        return false;
    }
    let start: usize = n - m;
    let mut i: usize = 0;
    while i < m
        invariant
            i <= m,
            m <= n,
            start == n - m,
            n == path@.len(),
            m == suffix@.len(),
            forall|j: int| 0 <= j < i ==> path@[start + j] == suffix@[j],
        decreases m - i,
    {
        if path.get_char(start + i) != suffix.get_char(i) {
            assert(path@.subrange(start as int, n as int)[i as int] != suffix@[i as int]);
            return false;
        }
        i += 1;
    }
    assert(suffix@ =~= path@.subrange(start as int, n as int));
    true
}

/// The suffixes a loader answers for: an ordered list, fixed once it is made.
///
/// The list may be empty, and may hold a suffix twice; neither is rejected.
pub struct ExtensionSet {
    extensions: Vec<&'static str>,
}

impl View for ExtensionSet {
    type V = Seq<Seq<char>>;

    closed spec fn view(&self) -> Seq<Seq<char>> {
        suffixes(self.extensions@)
    }
}

impl ExtensionSet {
    /// Makes a set that holds a copy of `extensions`, in the same order.
    pub fn new(extensions: &[&'static str]) -> (set: Self)
        ensures
            set@ == suffixes(extensions@),
    {
        ExtensionSet { extensions: slice_to_vec(extensions) }
    }

    /// The extension strings of the set, in the order they were given.
    pub fn as_slice(&self) -> (extensions: &[&'static str])
        ensures
            suffixes(extensions@) == self@,
    {
        self.extensions.as_slice()
    }

    /// Tells whether `path` falls to this set: whether it ends with one of
    /// the set's suffixes.
    pub fn claims(&self, path: &str) -> (b: bool)
        ensures
            b == routes(self@, path@),
    {
        let mut i: usize = 0;
        while i < self.extensions.len()
            invariant
                i <= self.extensions.len(),
                forall|j: int| 0 <= j < i ==> !ends_with(path@, #[trigger] self@[j]),
            decreases self.extensions.len() - i,
        {
            if has_suffix(path, self.extensions[i]) {
                assert(ends_with(path@, self@[i as int]));
                return true;
            }
            i += 1;
        }
        false
    }
}

/// A path is routed by the configured extension strings themselves: it
/// ends with one of the suffixes of a list exactly when it ends with the
/// characters of one of the list's strings.
pub proof fn lemma_routes_by_configured_extension<'a>(extensions: Seq<&'a str>, path: Seq<char>)
    ensures
        routes(suffixes(extensions), path) <==> exists|i: int|
            0 <= i < extensions.len() && ends_with(path, (#[trigger] extensions[i])@),
{
    if routes(suffixes(extensions), path) {
        let i = choose|i: int|
            0 <= i < suffixes(extensions).len() && ends_with(
                path,
                #[trigger] suffixes(extensions)[i],
            );
        assert(ends_with(path, extensions[i]@));
    }
    if exists|i: int| 0 <= i < extensions.len() && ends_with(path, (#[trigger] extensions[i])@) {
        let i = choose|i: int|
            0 <= i < extensions.len() && ends_with(path, (#[trigger] extensions[i])@);
        assert(ends_with(path, suffixes(extensions)[i]));
    }
}

/// A set without suffixes claims no path.
pub proof fn lemma_empty_set_claims_nothing(path: Seq<char>)
    ensures
        !routes(Seq::<Seq<char>>::empty(), path),
{
}

/// A suffix narrows the suffixes it ends with: a path that ends with
/// `narrow` also ends with every `broad` that `narrow` itself ends with. So
/// whatever a loader for `"level.plist"` claims, a loader for `"plist"`
/// claims too.
pub proof fn lemma_narrow_suffix_implies_broad(
    path: Seq<char>,
    narrow: Seq<char>,
    broad: Seq<char>,
)
    requires
        ends_with(path, narrow),
        ends_with(narrow, broad),
    ensures
        ends_with(path, broad),
{
    let from_narrow = path.len() - narrow.len();
    let from_broad = narrow.len() - broad.len();
    assert forall|k: int| 0 <= k < broad.len() implies broad[k] == path[from_narrow + from_broad
        + k] by {
        assert(broad[k] == narrow.subrange(from_broad, narrow.len() as int)[k]);
        assert(narrow[from_broad + k] == path.subrange(from_narrow, path.len() as int)[from_broad
            + k]);
    }
}

} // verus!
