use std::collections::HashMap;

use vstd::prelude::*;

verus! {

broadcast use vstd::std_specs::hash::group_hash_axioms;

/// The statistics of `entries` that belong to a single attribute, keyed by that
/// attribute; where an attribute occurs more than once, its first entry counts.
pub open spec fn single_attr_stats_spec<S>(entries: Seq<(Seq<u64>, S)>) -> Map<u64, S>
    decreases entries.len(),
{
    if entries.len() == 0 {
        Map::empty()
    } else {
        let rest = single_attr_stats_spec(entries.drop_first());
        if entries[0].0.len() == 1 {
            rest.insert(entries[0].0[0], entries[0].1)
        } else {
            rest
        }
    }
}

/// Keeps the statistics of single attributes out of statistics per combination of
/// attributes: an entry counts where its combination has exactly one attribute.
pub fn get_single_attr_stats<S>(column_comb_stats: Vec<(Vec<u64>, S)>) -> (res: HashMap<u64, S>)
    ensures
        res@ == single_attr_stats_spec(
            column_comb_stats@.map_values(|e: (Vec<u64>, S)| (e.0@, e.1)),
        ),
{
    let ghost entries = column_comb_stats@.map_values(|e: (Vec<u64>, S)| (e.0@, e.1));
    let ghost n = entries.len();
    let mut remaining = column_comb_stats;
    let mut single_attr_stats: HashMap<u64, S> = HashMap::new();
    assert(entries.subrange(n as int, n as int) =~= Seq::<(Seq<u64>, S)>::empty());
    while remaining.len() > 0
        invariant
            remaining@.map_values(|e: (Vec<u64>, S)| (e.0@, e.1)) == entries.subrange(
                0,
                remaining@.len() as int,
            ),
            remaining@.len() <= n,
            n == entries.len(),
            single_attr_stats@ == single_attr_stats_spec(
                entries.subrange(remaining@.len() as int, n as int),
            ),
        decreases remaining@.len(),
    {
        let ghost k = remaining@.len() - 1;
        let ghost before = remaining@;
        assert(before.map_values(|e: (Vec<u64>, S)| (e.0@, e.1))[k] == entries.subrange(
            0,
            before.len() as int,
        )[k]);
        let (column_comb, comb_stats) = remaining.pop().unwrap();
        assert(entries[k] == (column_comb@, comb_stats));
        let ghost tail = entries.subrange(k, n as int);
        assert(tail.drop_first() =~= entries.subrange(k + 1, n as int));
        assert(tail[0] == entries[k]);
        if column_comb.len() == 1 {
            single_attr_stats.insert(column_comb[0], comb_stats);
        }
        assert(remaining@.map_values(|e: (Vec<u64>, S)| (e.0@, e.1)) =~= entries.subrange(
            0,
            k,
        ));
    }
    assert(entries.subrange(0, n as int) =~= entries);
    single_attr_stats
}

} // verus!
