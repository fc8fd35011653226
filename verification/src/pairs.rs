//! Canonical ordering of undirected account pairs.

use vstd::prelude::*;

verus! {

/// The smaller of two ids.
pub open spec fn lower_id(a: int, b: int) -> int {
    if a <= b { a } else { b }
}

/// The larger of two ids.
pub open spec fn higher_id(a: int, b: int) -> int {
    if a <= b { b } else { a }
}

/// Orders two account ids so that the lower one comes first.
pub fn canonical_pair(id_1: i64, id_2: i64) -> (pair: (i64, i64))
    ensures
        pair.0 == lower_id(id_1 as int, id_2 as int),
        pair.1 == higher_id(id_1 as int, id_2 as int),
{
    if id_1 <= id_2 {
        (id_1, id_2)
    } else {
        (id_2, id_1)
    }
}

} // verus!
