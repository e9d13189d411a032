//! The set of git repositories to synchronize, deduplicated by canonical
//! root.
//!
//! Resolving a candidate path against the filesystem (following symlinks,
//! walking up to the repository's top-level directory) is the surrounding
//! program's job; a candidate that fails to resolve is handed in as `None`
//! and silently dropped. This module owns the remaining, purely lexical
//! part of canonicalization — trailing separators are stripped, so two
//! spellings of the same directory compare equal — and the idempotence of
//! insertion.

use vstd::prelude::*;

verus! {

/// How many leading characters remain once trailing `/` separators are
/// stripped; a lone `/` (or the empty path) is kept as it is.
pub open spec fn norm_len(s: Seq<char>) -> int
    decreases s.len(),
{
    if s.len() <= 1 {
        s.len() as int
    } else if s[s.len() - 1] == '/' {
        norm_len(s.drop_last())
    } else {
        s.len() as int
    }
}

/// Canonical spelling of a root: the path without trailing separators.
pub open spec fn canonical(s: Seq<char>) -> Seq<char> {
    s.take(norm_len(s))
}

pub proof fn lemma_norm_len_bounds(s: Seq<char>)
    ensures
        0 <= norm_len(s) <= s.len(),
    decreases s.len(),
{
    if s.len() <= 1 {
    } else if s[s.len() - 1] == '/' {
        lemma_norm_len_bounds(s.drop_last());
    }
}

/// A stripped path does not end in a separator (unless it is a lone `/`
/// or empty), so stripping again changes nothing.
pub proof fn lemma_norm_len_no_trailing_sep(s: Seq<char>)
    ensures
        norm_len(s) > 1 ==> s[norm_len(s) - 1] != '/',
    decreases s.len(),
{
    if s.len() <= 1 {
    } else if s[s.len() - 1] == '/' {
        lemma_norm_len_no_trailing_sep(s.drop_last());
        lemma_norm_len_bounds(s.drop_last());
        if norm_len(s) > 1 {
            assert(s.drop_last()[norm_len(s) - 1] == s[norm_len(s) - 1]);
        }
    }
}

/// Canonicalization is idempotent.
pub proof fn lemma_canonical_idempotent(s: Seq<char>)
    ensures
        canonical(canonical(s)) == canonical(s),
{
    lemma_norm_len_bounds(s);
    lemma_norm_len_no_trailing_sep(s);
    let c = canonical(s);
    if norm_len(s) <= 1 {
        assert(norm_len(c) == c.len());
    } else {
        assert(c[c.len() - 1] == s[norm_len(s) - 1]);
        assert(norm_len(c) == c.len());
    }
    assert(canonical(c) =~= c);
}

/// Strips trailing `/` separators from a candidate root.
pub fn normalize_root(s: &str) -> (r: String)
    ensures
        r@ == canonical(s@),
{
    let n: usize = s.unicode_len();
    let mut k: usize = n;
    proof {
        assert(s@.take(n as int) =~= s@);
    }
    while k > 1 && s.get_char(k - 1) == '/'
        invariant
            k <= n,
            n == s@.len(),
            norm_len(s@) == norm_len(s@.take(k as int)),
        decreases k,
    {
        proof {
            assert(s@.take(k as int).len() == k as int);
            assert(s@.take(k as int).last() == s@[k - 1]);
            assert(s@.take(k as int).drop_last() =~= s@.take(k as int - 1));
        }
        k = k - 1;
    }
    proof {
        assert(s@.take(k as int).len() == k as int);
        if k > 1 {
            assert(s@.take(k as int).last() == s@[k - 1]);
        }
        assert(norm_len(s@.take(k as int)) == k as int);
    }
    let r = s.substring_char(0, k);
    proof {
        assert(r@ == canonical(s@));
    }
    r.to_owned()
}

/// Collected repository roots: unordered as a set, but stored and yielded
/// in first-insertion order so a run over them is reproducible. No two
/// entries share a canonical root, and every entry is canonical.
pub struct RepositorySet {
    repos: Vec<String>,
}

impl View for RepositorySet {
    type V = Seq<Seq<char>>;

    closed spec fn view(&self) -> Seq<Seq<char>> {
        self.repos@.map_values(|p: String| p@)
    }
}

impl RepositorySet {
    /// No entry repeats, and each is its own canonical form.
    pub open spec fn wf(&self) -> bool {
        &&& forall|i: int, j: int| 0 <= i < j < self@.len() ==> self@[i] != self@[j]
        &&& forall|i: int| 0 <= i < self@.len() ==> self@[i] == canonical(#[trigger] self@[i])
    }

    /// An empty set.
    pub fn new() -> (r: RepositorySet)
        ensures
            r@ == Seq::<Seq<char>>::empty(),
            r.wf(),
    {
        let r = RepositorySet { repos: Vec::new() };
        proof {
            assert(r@ =~= Seq::<Seq<char>>::empty());
        }
        r
    }

    /// Offers a resolved candidate. `None` — the candidate did not exist
    /// or was not inside a git working tree — is a silent no-op. A root
    /// whose canonical form is already present is also a no-op, so
    /// insertion is idempotent.
    pub fn insert(&mut self, resolved_root: Option<String>)
        requires
            old(self).wf(),
        ensures
            final(self).wf(),
            match resolved_root {
                Option::None => final(self)@ == old(self)@,
                Option::Some(root) => ({
                    if old(self)@.contains(canonical(root@)) {
                        final(self)@ == old(self)@
                    } else {
                        final(self)@ == old(self)@.push(canonical(root@))
                    }
                }),
            },
    {
        match resolved_root {
            Option::None => {},
            Option::Some(root) => {
                let c = normalize_root(root.as_str());
                let n = self.repos.len();
                let mut found = false;
                let mut i: usize = 0;
                while i < n
                    invariant
                        i <= n,
                        n == self.repos.len(),
                        c@ == canonical(root@),
                        found ==> self@.contains(c@),
                        !found ==> forall|j: int| 0 <= j < i ==> self@[j] != c@,
                    decreases n - i,
                {
                    if !found && c.eq(&self.repos[i]) {
                        proof {
                            assert(self@[i as int] == c@);
                        }
                        found = true;
                    }
                    i = i + 1;
                }
                if !found {
                    proof {
                        assert(forall|j: int|
                            0 <= j < self@.len() ==> self@[j] != canonical(root@));
                        assert(!self@.contains(canonical(root@)));
                        lemma_canonical_idempotent(root@);
                    }
                    self.repos.push(c);
                    proof {
                        assert(self@ =~= old(self)@.push(canonical(root@)));
                    }
                }
            },
        }
    }

    /// The stored roots, in first-insertion order.
    pub fn repositories(&self) -> (r: &Vec<String>)
        ensures
            r@.map_values(|p: String| p@) == self@,
            r@.len() == self@.len(),
    {
        &self.repos
    }

    /// How many distinct roots are stored.
    pub fn len(&self) -> (n: usize)
        ensures
            n == self@.len(),
    {
        self.repos.len()
    }
}

} // verus!
