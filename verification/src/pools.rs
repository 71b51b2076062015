//! The registry of known cold-staking pools and the resolution of a
//! validated public key against it.

use vstd::prelude::*;
use crate::text::same_text;

verus! {

/// A registry entry: a pool known by name.
#[derive(Debug, Copy, Clone)]
pub struct PrivatePool {
    pub pubkey: &'static str,
    pub url: &'static str,
    pub is_active: bool,
}

/// The pool that a block's stake reward is attributed to.
#[derive(Debug, PartialEq, Eq)]
pub struct Pool {
    pub pubkey: String,
    pub url: Option<String>,
    pub pool_is_active: Option<bool>,
}

/// What a `Pool` says: its texts as character sequences.
pub struct PoolView {
    pub pubkey: Seq<char>,
    pub url: Option<Seq<char>>,
    pub pool_is_active: Option<bool>,
}

impl View for Pool {
    type V = PoolView;

    open spec fn view(&self) -> PoolView {
        PoolView {
            pubkey: self.pubkey@,
            url: match self.url {
                Some(u) => Some(u@),
                None => None,
            },
            pool_is_active: self.pool_is_active,
        }
    }
}

impl Default for Pool {
    fn default() -> (pool: Self)
        ensures
            pool@ == (PoolView { pubkey: Seq::empty(), url: None, pool_is_active: None }),
    {
        Pool { pubkey: String::new(), url: None, pool_is_active: None }
    }
}

impl Clone for Pool {
    fn clone(&self) -> (copy: Self)
        ensures
            copy@ == self@,
    {
        Pool {
            pubkey: self.pubkey.clone(),
            url: match &self.url {
                Some(u) => Some(u.clone()),
                None => None,
            },
            pool_is_active: self.pool_is_active,
        }
    }
}

impl PrivatePool {
    /// The pool record that this registry entry stands for.
    pub open spec fn pool_view(self) -> PoolView {
        PoolView {
            pubkey: self.pubkey@,
            url: Some(self.url@),
            pool_is_active: Some(self.is_active),
        }
    }

    /// The full pool record of a registry entry.
    pub fn getpool(self) -> (pool: Pool)
        ensures
            pool@ == self.pool_view(),
    {
        Pool {
            pubkey: self.pubkey.to_owned(),
            url: Some(self.url.to_owned()),
            pool_is_active: Some(self.is_active),
        }
    }
}

/// The public key of the pool of Crymel.
pub const CRYMEL_PUBKEY: &'static str = "pcs137vfy28eytanejvp5ku4grgk3q8cfd5wuknrcp";

/// The address of the pool of Crymel.
pub const CRYMEL_URL: &'static str = "https://particl1.crymel.icu/";

/// The public key of the pool coldstakingpool.com.
pub const COLDSTAKINGPOOL_PUBKEY: &'static str = "pcs19453kf98kz47yktqv7x36j39xa07mtvqx8evse";

/// The address of the pool coldstakingpool.com.
pub const COLDSTAKINGPOOL_URL: &'static str = "https://coldstakingpool.com/";

/// The built-in registry, in lookup order.
pub open spec fn known_pools() -> Seq<PrivatePool> {
    seq![
        PrivatePool { pubkey: CRYMEL_PUBKEY, url: CRYMEL_URL, is_active: true },
        PrivatePool { pubkey: COLDSTAKINGPOOL_PUBKEY, url: COLDSTAKINGPOOL_URL, is_active: true },
    ]
}

/// The built-in registry, in lookup order.
pub fn pools() -> (registry: Vec<PrivatePool>)
    ensures
        registry@ == known_pools(),
{
    let mut registry: Vec<PrivatePool> = Vec::new();
    registry.push(PrivatePool { pubkey: CRYMEL_PUBKEY, url: CRYMEL_URL, is_active: true });
    registry.push(
        PrivatePool { pubkey: COLDSTAKINGPOOL_PUBKEY, url: COLDSTAKINGPOOL_URL, is_active: true },
    );
    registry
}

/// The first entry of `registry` whose public key is `pubkey`.
pub open spec fn find_pool(registry: Seq<PrivatePool>, pubkey: Seq<char>) -> Option<PrivatePool>
    decreases registry.len(),
{
    if registry.len() == 0 {
        None
    } else if registry.first().pubkey@ == pubkey {
        Some(registry.first())
    } else {
        find_pool(registry.drop_first(), pubkey)
    }
}

/// The pool that a validated public key resolves to: the registry entry
/// with that key, or a pool known by its key alone.
pub open spec fn resolved_pool(registry: Seq<PrivatePool>, pubkey: Seq<char>) -> PoolView {
    match find_pool(registry, pubkey) {
        Some(known) => known.pool_view(),
        None => PoolView { pubkey: pubkey, url: None, pool_is_active: None },
    }
}

/// Resolves a validated public key against the registry.
pub fn resolve_pool(registry: &Vec<PrivatePool>, pubkey: &str) -> (pool: Pool)
    ensures
        pool@ == resolved_pool(registry@, pubkey@),
{
    let mut i: usize = 0;
    assert(registry@.skip(0) == registry@);
    while i < registry.len()
        invariant
            i <= registry.len(),
            find_pool(registry@, pubkey@) == find_pool(registry@.skip(i as int), pubkey@),
        decreases registry.len() - i,
    {
        let known = registry[i];
        assert(registry@.skip(i as int).first() == known);
        assert(registry@.skip(i as int).drop_first() == registry@.skip(i + 1));
        if same_text(known.pubkey, pubkey) {
            return known.getpool();
        }
        i += 1;
    }
    Pool { pubkey: pubkey.to_owned(), url: None, pool_is_active: None }
}

/// A key of the registry resolves to the full record of the first entry
/// that has it.
pub proof fn lemma_known_key_resolves_to_its_entry(
    registry: Seq<PrivatePool>,
    at: int,
    pubkey: Seq<char>,
)
    requires
        0 <= at < registry.len(),
        registry[at].pubkey@ == pubkey,
        forall|j: int| 0 <= j < at ==> (#[trigger] registry[j]).pubkey@ != pubkey,
    ensures
        resolved_pool(registry, pubkey) == (PoolView {
            pubkey: pubkey,
            url: Some(registry[at].url@),
            pool_is_active: Some(registry[at].is_active),
        }),
    decreases registry.len(),
{
    if at > 0 {
        assert(registry[0].pubkey@ != pubkey);
        let rest = registry.drop_first();
        assert forall|j: int| 0 <= j < at - 1 implies (#[trigger] rest[j]).pubkey@ != pubkey by {
            assert(rest[j] == registry[j + 1]);
        }
        lemma_known_key_resolves_to_its_entry(rest, at - 1, pubkey);
    }
}

/// A key that no entry of the registry has resolves to a pool of which the
/// key alone is known.
pub proof fn lemma_unknown_key_resolves_to_a_bare_pool(registry: Seq<PrivatePool>, pubkey: Seq<char>)
    requires
        forall|i: int| 0 <= i < registry.len() ==> (#[trigger] registry[i]).pubkey@ != pubkey,
    ensures
        resolved_pool(registry, pubkey) == (PoolView {
            pubkey: pubkey,
            url: None,
            pool_is_active: None,
        }),
    decreases registry.len(),
{
    if registry.len() > 0 {
        assert(registry[0].pubkey@ != pubkey);
        let rest = registry.drop_first();
        assert forall|i: int| 0 <= i < rest.len() implies (#[trigger] rest[i]).pubkey@ != pubkey by {
            assert(rest[i] == registry[i + 1]);
        }
        lemma_unknown_key_resolves_to_a_bare_pool(rest, pubkey);
    }
}

} // verus!
