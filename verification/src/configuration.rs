//! The merchant's configuration: a quantity limit per product variant.

use vstd::hash_map::StringHashMap;
use vstd::prelude::*;

verus! {

/// The limit that applies to the variant `id` under `limits`: the configured
/// one, or, where none is configured, the largest quantity there is.
pub open spec fn limit_of(limits: Map<Seq<char>, i32>, id: Seq<char>) -> i32 {
    if limits.contains_key(id) {
        limits[id]
    } else {
        i32::MAX
    }
}

/// Quantity limits keyed by product-variant identifier.
///
/// Its model is the map from identifier to limit. A variant without an entry
/// is unlimited, which is not the same as a limit of zero.
pub struct Configuration {
    limits: StringHashMap<i32>,
}

impl View for Configuration {
    type V = Map<Seq<char>, i32>;

    closed spec fn view(&self) -> Map<Seq<char>, i32> {
        self.limits@
    }
}

impl Configuration {
    /// A configuration that limits nothing.
    pub fn new() -> (configuration: Configuration)
        ensures
            configuration@ == Map::<Seq<char>, i32>::empty(),
    {
        Configuration { limits: StringHashMap::new() }
    }

    /// Sets the limit of the variant `id`, replacing an earlier one.
    pub fn set_limit(&mut self, id: String, limit: i32)
        ensures
            final(self)@ == old(self)@.insert(id@, limit),
    {
        self.limits.insert(id, limit);
    }

    /// The limit configured for the variant `id`, if there is one.
    pub fn configured_limit(&self, id: &str) -> (limit: Option<i32>)
        ensures
            limit == (if self@.contains_key(id@) {
                Some(self@[id@])
            } else {
                None
            }),
    {
        match self.limits.get(id) {
            Some(limit) => Some(*limit),
            None => None,
        }
    }

    /// The limit that applies to the variant `id`.
    pub fn limit_for(&self, id: &str) -> (limit: i32)
        ensures
            limit == limit_of(self@, id@),
    {
        match self.limits.get(id) {
            Some(limit) => *limit,
            None => i32::MAX,
        }
    }
}

impl Default for Configuration {
    fn default() -> (configuration: Configuration)
        ensures
            configuration@ == Map::<Seq<char>, i32>::empty(),
    {
        Configuration::new()
    }
}

} // verus!
