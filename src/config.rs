//! Service settings: where to listen and which rules to apply, each value
//! taken from a configuration source where it gives one and from the
//! defaults otherwise.

use vstd::prelude::*;
use crate::policy::PolicyConfig;

verus! {

#[derive(Debug, Clone)]
pub struct Network {
    pub port: u16,
    pub address: String,
}

#[derive(Debug, Clone)]
pub struct Rules {
    pub allowed_kinds: Vec<u64>,
    pub allowed_authors: Vec<String>,
}

#[derive(Debug, Clone)]
pub struct Settings {
    pub network: Network,
    pub rules: Rules,
}

/// The port listened on by default.
pub const DEFAULT_PORT: u16 = 50051;

/// The kinds permitted by default.
pub open spec fn default_kinds() -> Seq<u64> {
    seq![0, 1, 2, 3, 30023]
}

/// The loopback address "[::1]", listened on by default.
pub open spec fn default_address() -> Seq<char> {
    seq!['[', ':', ':', '1', ']']
}

fn default_kinds_vec() -> (r: Vec<u64>)
    ensures
        r@ == default_kinds(),
{
    let mut v: Vec<u64> = Vec::new();
    v.push(0);
    v.push(1);
    v.push(2);
    v.push(3);
    v.push(30023);
    assert(v@ =~= default_kinds());
    v
}

fn default_address_string() -> (r: String)
    ensures
        r@ == default_address(),
{
    proof {
        reveal_strlit("[::1]");
    }
    "[::1]".to_owned()
}

impl Settings {
    /// Settings built from the values that a configuration source set; each
    /// value it left out is the default one. No author is permitted by
    /// default.
    pub fn new(
        port: Option<u16>,
        address: Option<String>,
        allowed_kinds: Option<Vec<u64>>,
        allowed_authors: Option<Vec<String>>,
    ) -> (r: Settings)
        ensures
            r.network.port == (match port {
                Some(p) => p,
                None => DEFAULT_PORT,
            }),
            r.network.address@ == (match address {
                Some(a) => a@,
                None => default_address(),
            }),
            r.rules.allowed_kinds@ == (match allowed_kinds {
                Some(k) => k@,
                None => default_kinds(),
            }),
            r.rules.allowed_authors@ == (match allowed_authors {
                Some(a) => a@,
                None => Seq::<String>::empty(),
            }),
    {
        let defaults = Settings::default();
        let port = match port {
            Some(p) => p,
            None => defaults.network.port,
        };
        let address = match address {
            Some(a) => a,
            None => defaults.network.address,
        };
        let allowed_kinds = match allowed_kinds {
            Some(k) => k,
            None => defaults.rules.allowed_kinds,
        };
        let allowed_authors = match allowed_authors {
            Some(a) => a,
            None => defaults.rules.allowed_authors,
        };
        Settings {
            network: Network { port, address },
            rules: Rules { allowed_kinds, allowed_authors },
        }
    }

    /// The admission policy that these settings' rules describe.
    pub fn policy(&self) -> (r: PolicyConfig)
        ensures
            r.allowed_kinds@ == self.rules.allowed_kinds@,
            r.allowed_authors@ == self.rules.allowed_authors@,
    {
        let kinds = self.rules.allowed_kinds.clone();
        let mut authors: Vec<String> = Vec::new();
        let mut i: usize = 0;
        while i < self.rules.allowed_authors.len()
            invariant
                i <= self.rules.allowed_authors@.len(),
                authors@ == self.rules.allowed_authors@.subrange(0, i as int),
            decreases self.rules.allowed_authors@.len() - i,
        {
            authors.push(self.rules.allowed_authors[i].clone());
            i = i + 1;
        }
        assert(authors@ =~= self.rules.allowed_authors@);
        PolicyConfig::new(kinds, authors)
    }
}

impl Default for Settings {
    fn default() -> (r: Settings)
        ensures
            r.network.port == DEFAULT_PORT,
            r.network.address@ == default_address(),
            r.rules.allowed_kinds@ == default_kinds(),
            r.rules.allowed_authors@.len() == 0,
    {
        Settings {
            network: Network { port: DEFAULT_PORT, address: default_address_string() },
            rules: Rules { allowed_kinds: default_kinds_vec(), allowed_authors: Vec::new() },
        }
    }
}

} // verus!
