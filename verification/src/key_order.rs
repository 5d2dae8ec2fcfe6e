//! Order facts about the keys that a map iterator yields.

use vstd::prelude::*;
use vstd::std_specs::cmp::OrdSpec;

verus! {

/// Keys that a map iterator yields come in strictly ascending order.
pub proof fn lemma_increasing_keys(keys: Seq<u64>, i: int, j: int)
    requires
        vstd::std_specs::btree::increasing_seq(keys),
        0 <= i < j < keys.len(),
    ensures
        keys[i] < keys[j],
{
    assert(vstd::laws_cmp::obeys_cmp::<u64>());
    assert(keys[i].cmp_spec(&keys[j]) is Less);
}

} // verus!
