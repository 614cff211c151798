use vstd::prelude::*;
use crate::entity_type::{EntityType, ENTITY_TYPE_COUNT, type_at, type_index};

verus! {

/// Index of the first entry of `s`, at or after `i`, that equals `h`.
pub open spec fn find_from(s: Seq<u64>, h: u64, i: int) -> Option<int>
    decreases s.len() - i,
{
    if i < 0 || i >= s.len() {
        None
    } else if s[i] == h {
        Some(i)
    } else {
        find_from(s, h, i + 1)
    }
}

/// The type that a schema hash stands for under the table `s`: the type of
/// the first entry equal to the hash, or none.
pub open spec fn classify_spec(s: Seq<u64>, h: u64) -> Option<EntityType> {
    match find_from(s, h, 0) {
        Some(i) => type_at(i),
        None => None,
    }
}

/// No two entries of the table are equal.
pub open spec fn distinct_hashes(s: Seq<u64>) -> bool {
    forall|i: int, j: int| 0 <= i < s.len() && 0 <= j < s.len() && i != j ==> s[i] != s[j]
}

/// The schema hash of every recognized entity type, in enumeration order.
///
/// Entry `i` is the hash of the schema name of the type at position `i`; the
/// table is fixed once built, so classification depends on the hash alone.
pub struct SchemaHashes {
    hashes: Vec<u64>,
}

impl View for SchemaHashes {
    type V = Seq<u64>;

    closed spec fn view(&self) -> Seq<u64> {
        self.hashes@
    }
}

impl SchemaHashes {
    /// One entry per entity type, no two of them equal.
    pub open spec fn wf(&self) -> bool {
        &&& self@.len() == ENTITY_TYPE_COUNT
        &&& distinct_hashes(self@)
    }

    /// Builds the table from one hash per type, in enumeration order; fails
    /// unless there is exactly one hash for each type and no hash repeats.
    pub fn new(hashes: Vec<u64>) -> (r: Option<SchemaHashes>)
        ensures
            (hashes@.len() == ENTITY_TYPE_COUNT && distinct_hashes(hashes@)) <==> r is Some,
            r matches Some(t) ==> t@ == hashes@ && t.wf(),
    {
        if hashes.len() != ENTITY_TYPE_COUNT {
            return None;
        }
        let mut i: usize = 0;
        while i < hashes.len()
            invariant
                i <= hashes@.len(),
                forall|a: int, b: int| 0 <= a < i && 0 <= b < i && a != b ==> hashes@[a] != hashes@[b],
            decreases hashes@.len() - i,
        {
            let mut j: usize = 0;
            while j < i
                invariant
                    i < hashes@.len(),
                    j <= i,
                    forall|b: int| 0 <= b < j ==> hashes@[b] != hashes@[i as int],
                decreases i - j,
            {
                if hashes[j] == hashes[i] {
                    return None;
                }
                j += 1;
            }
            i += 1;
        }
        Some(SchemaHashes { hashes })
    }

    /// The schema hash recorded for `t`.
    pub fn hash_of(&self, t: EntityType) -> (r: u64)
        requires
            self.wf(),
        ensures
            r == self@[type_index(t) as int],
    {
        self.hashes[t.index()]
    }

    /// Classifies an entity by its schema hash; unrecognized hashes give none.
    pub fn classify(&self, schema_hash: u64) -> (r: Option<EntityType>)
        ensures
            r == classify_spec(self@, schema_hash),
    {
        let mut i: usize = 0;
        while i < self.hashes.len()
            invariant
                i <= self@.len(),
                find_from(self@, schema_hash, 0) == find_from(self@, schema_hash, i as int),
            decreases self@.len() - i,
        {
            if self.hashes[i] == schema_hash {
                return EntityType::from_index(i);
            }
            i += 1;
        }
        None
    }
}

proof fn lemma_find_from_first(s: Seq<u64>, h: u64, i: int, k: int)
    requires
        0 <= i <= k < s.len(),
        s[k] == h,
        forall|j: int| i <= j < k ==> s[j] != h,
    ensures
        find_from(s, h, i) == Some(k),
    decreases k - i,
{
    if i < k {
        lemma_find_from_first(s, h, i + 1, k);
    }
}

proof fn lemma_find_from_none(s: Seq<u64>, h: u64, i: int)
    requires
        0 <= i,
        forall|j: int| i <= j < s.len() ==> s[j] != h,
    ensures
        find_from(s, h, i) is None,
    decreases s.len() - i,
{
    if i < s.len() {
        lemma_find_from_none(s, h, i + 1);
    }
}

/// In a well-formed table every recognized schema hash classifies as its own
/// type.
pub proof fn lemma_classify_recognized(table: SchemaHashes, t: EntityType)
    requires
        table.wf(),
    ensures
        classify_spec(table@, table@[type_index(t) as int]) == Some(t),
{
    let k = type_index(t) as int;
    crate::entity_type::lemma_type_index_round_trip(t);
    lemma_find_from_first(table@, table@[k], 0, k);
}

/// A hash that no entry of the table holds classifies as no type.
pub proof fn lemma_classify_unrecognized(table: SchemaHashes, h: u64)
    requires
        forall|i: int| 0 <= i < table@.len() ==> table@[i] != h,
    ensures
        classify_spec(table@, h) is None,
{
    lemma_find_from_none(table@, h, 0);
}

} // verus!
