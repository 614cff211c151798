use vstd::prelude::*;
use crate::entity_type::EntityType;

verus! {

/// What one connection subscribed to: chat messages or not, and either every
/// entity type (`None`) or the listed ones.
#[derive(Debug, Clone)]
pub struct SubscriptionFilter {
    pub chat_enabled: bool,
    pub entity_types: Option<Vec<EntityType>>,
}

/// Whether updates of type `t` reach the connection.
pub open spec fn passes_spec(f: SubscriptionFilter, t: EntityType) -> bool {
    match f.entity_types {
        None => true,
        Some(ts) => ts@.contains(t),
    }
}

/// A filter without a type list lets every entity type through.
pub proof fn lemma_no_type_list_passes_all(f: SubscriptionFilter, t: EntityType)
    requires
        f.entity_types is None,
    ensures
        passes_spec(f, t),
{
}

/// A filter listing the single type `only` lets that type through and no other.
pub proof fn lemma_single_type_passes_only_it(f: SubscriptionFilter, only: EntityType, t: EntityType)
    requires
        f.entity_types matches Some(ts) && ts@ == seq![only],
    ensures
        passes_spec(f, t) <==> t == only,
{
    let ts = f.entity_types.unwrap();
    if t == only {
        assert(ts@[0] == t);
    }
}

impl SubscriptionFilter {
    pub fn new(chat_enabled: bool, entity_types: Option<Vec<EntityType>>) -> (r: SubscriptionFilter)
        ensures
            r.chat_enabled == chat_enabled,
            r.entity_types == entity_types,
    {
        SubscriptionFilter { chat_enabled, entity_types }
    }

    /// Whether updates of type `t` pass the filter.
    pub fn passes(&self, t: EntityType) -> (r: bool)
        ensures
            r == passes_spec(*self, t),
    {
        match self.entity_types {
            None => true,
            Some(ref ts) => {
                let mut i: usize = 0;
                while i < ts.len()
                    invariant
                        self.entity_types == Some(*ts),
                        i <= ts@.len(),
                        forall|j: int| 0 <= j < i ==> ts@[j] != t,
                    decreases ts@.len() - i,
                {
                    if ts[i] == t {
                        assert(ts@[i as int] == t);
                        return true;
                    }
                    i += 1;
                }
                false
            },
        }
    }

    /// Whether chat messages pass the filter.
    pub fn chat_passes(&self) -> (r: bool)
        ensures
            r == self.chat_enabled,
    {
        self.chat_enabled
    }
}

} // verus!
