//! The admission policy: the permitted event kinds and the permitted authors,
//! the latter by canonical identifier.

use vstd::prelude::*;

verus! {

/// A snapshot of the admission policy. It offers no way to change it: a new
/// policy replaces the old one as a whole.
pub struct PolicyConfig {
    pub allowed_kinds: Vec<u64>,
    pub allowed_authors: Vec<String>,
}

impl PolicyConfig {
    /// The permitted kinds.
    pub open spec fn kinds(&self) -> Set<u64> {
        self.allowed_kinds@.to_set()
    }

    /// The permitted canonical author identifiers.
    pub open spec fn authors(&self) -> Set<Seq<char>> {
        self.allowed_authors@.map_values(|s: String| s@).to_set()
    }

    pub fn new(allowed_kinds: Vec<u64>, allowed_authors: Vec<String>) -> (r: PolicyConfig)
        ensures
            r.allowed_kinds@ == allowed_kinds@,
            r.allowed_authors@ == allowed_authors@,
    {
        PolicyConfig { allowed_kinds, allowed_authors }
    }

    /// Whether events of `kind` may pass.
    pub fn kind_allowed(&self, kind: u64) -> (r: bool)
        ensures
            r == self.kinds().contains(kind),
    {
        let mut i: usize = 0;
        while i < self.allowed_kinds.len()
            invariant
                i <= self.allowed_kinds@.len(),
                forall|k: int| 0 <= k < i ==> self.allowed_kinds@[k] != kind,
            decreases self.allowed_kinds@.len() - i,
        {
            if self.allowed_kinds[i] == kind {
                assert(self.allowed_kinds@.contains(kind));
                return true;
            }
            i = i + 1;
        }
        proof {
            if self.allowed_kinds@.to_set().contains(kind) {
                let k = choose|k: int| 0 <= k < self.allowed_kinds@.len() && self.allowed_kinds@[k] == kind;
                assert(self.allowed_kinds@[k] != kind);
            }
        }
        false
    }

    /// Whether the author with canonical identifier `id` may publish.
    pub fn author_allowed(&self, id: &String) -> (r: bool)
        ensures
            r == self.authors().contains(id@),
    {
        let ghost ids = self.allowed_authors@.map_values(|s: String| s@);
        let mut i: usize = 0;
        while i < self.allowed_authors.len()
            invariant
                i <= self.allowed_authors@.len(),
                ids == self.allowed_authors@.map_values(|s: String| s@),
                forall|k: int| 0 <= k < i ==> ids[k] != id@,
            decreases self.allowed_authors@.len() - i,
        {
            if self.allowed_authors[i] == *id {
                assert(ids[i as int] == id@);
                assert(ids.contains(id@));
                return true;
            }
            i = i + 1;
        }
        proof {
            if ids.to_set().contains(id@) {
                let k = choose|k: int| 0 <= k < ids.len() && ids[k] == id@;
                assert(ids[k] != id@);
            }
        }
        false
    }
}

} // verus!
