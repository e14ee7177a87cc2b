//! Mappings from host to a value, kept as a listing in which no host
//! occurs twice.

use vstd::prelude::*;

verus! {

broadcast use vstd::set::group_set_axioms, vstd::map::group_map_axioms;

/// The mapping that a sequence of entries builds when each is inserted in
/// turn: of two entries for one host the later one stays.
pub open spec fn pairs_map<V>(pairs: Seq<(Seq<char>, V)>) -> Map<Seq<char>, V>
    decreases pairs.len(),
{
    if pairs.len() == 0 {
        Map::empty()
    } else {
        pairs_map(pairs.drop_last()).insert(pairs.last().0, pairs.last().1)
    }
}

/// No host occurs twice among the entries.
pub open spec fn distinct_hosts<V>(pairs: Seq<(Seq<char>, V)>) -> bool {
    forall|i: int, j: int| 0 <= i < j < pairs.len() ==> pairs[i].0 != pairs[j].0
}

/// `host` occurs among the entries.
pub open spec fn has_host<V>(pairs: Seq<(Seq<char>, V)>, host: Seq<char>) -> bool {
    exists|i: int| 0 <= i < pairs.len() && (#[trigger] pairs[i]).0 == host
}

/// The hosts of `pairs_map(pairs)` are those that occur among the entries,
/// and there are finitely many.
pub proof fn lemma_pairs_map_dom<V>(pairs: Seq<(Seq<char>, V)>)
    ensures
        pairs_map(pairs).dom().finite(),
        forall|h: Seq<char>| #[trigger] pairs_map(pairs).contains_key(h) <==> has_host(pairs, h),
    decreases pairs.len(),
{
    if pairs.len() > 0 {
        let front = pairs.drop_last();
        lemma_pairs_map_dom(front);
        assert forall|h: Seq<char>| #[trigger]
            pairs_map(pairs).contains_key(h) <==> has_host(pairs, h) by {
            if has_host(pairs, h) {
                let i = choose|i: int| 0 <= i < pairs.len() && (#[trigger] pairs[i]).0 == h;
                if i < pairs.len() - 1 {
                    assert(front[i].0 == h);
                    assert(has_host(front, h));
                }
            }
            if pairs_map(pairs).contains_key(h) {
                if h == pairs.last().0 {
                    assert(pairs[pairs.len() - 1].0 == h);
                } else {
                    assert(has_host(front, h));
                    let i = choose|i: int| 0 <= i < front.len() && (#[trigger] front[i]).0 == h;
                    assert(pairs[i].0 == h);
                }
            }
        }
    }
}

/// With distinct hosts, each entry's host maps to that entry's outcome.
pub proof fn lemma_pairs_map_value<V>(pairs: Seq<(Seq<char>, V)>, i: int)
    requires
        distinct_hosts(pairs),
        0 <= i < pairs.len(),
    ensures
        pairs_map(pairs).contains_key(pairs[i].0),
        pairs_map(pairs)[pairs[i].0] == pairs[i].1,
    decreases pairs.len(),
{
    let front = pairs.drop_last();
    if i < pairs.len() - 1 {
        assert(distinct_hosts(front)) by {
            assert forall|a: int, b: int| 0 <= a < b < front.len() implies front[a].0
                != front[b].0 by {
                assert(pairs[a].0 != pairs[b].0);
            }
        }
        lemma_pairs_map_value(front, i);
        assert(pairs[i].0 != pairs[pairs.len() - 1].0);
    }
}

/// With distinct hosts, the mapping has as many hosts as there are entries.
pub proof fn lemma_pairs_map_len<V>(pairs: Seq<(Seq<char>, V)>)
    requires
        distinct_hosts(pairs),
    ensures
        pairs_map(pairs).dom().finite(),
        pairs_map(pairs).len() == pairs.len(),
    decreases pairs.len(),
{
    lemma_pairs_map_dom(pairs);
    if pairs.len() > 0 {
        let front = pairs.drop_last();
        assert(distinct_hosts(front)) by {
            assert forall|a: int, b: int| 0 <= a < b < front.len() implies front[a].0
                != front[b].0 by {
                assert(pairs[a].0 != pairs[b].0);
            }
        }
        lemma_pairs_map_len(front);
        lemma_pairs_map_dom(front);
        assert(!pairs_map(front).contains_key(pairs.last().0)) by {
            if has_host(front, pairs.last().0) {
                let i = choose|i: int|
                    0 <= i < front.len() && (#[trigger] front[i]).0 == pairs.last().0;
                assert(pairs[i].0 != pairs[pairs.len() - 1].0);
            }
        }
        assert(pairs_map(pairs).dom() =~= pairs_map(front).dom().insert(pairs.last().0));
    } else {
        assert(pairs_map(pairs).dom() =~= Set::empty());
    }
}

/// Replacing the outcome of one entry is an insertion under its host.
pub proof fn lemma_pairs_map_update<V>(pairs: Seq<(Seq<char>, V)>, i: int, outcome: V)
    requires
        distinct_hosts(pairs),
        0 <= i < pairs.len(),
    ensures
        distinct_hosts(pairs.update(i, (pairs[i].0, outcome))),
        pairs_map(pairs.update(i, (pairs[i].0, outcome))) == pairs_map(pairs).insert(
            pairs[i].0,
            outcome,
        ),
    decreases pairs.len(),
{
    let host = pairs[i].0;
    let changed = pairs.update(i, (host, outcome));
    let front = pairs.drop_last();
    assert(distinct_hosts(changed)) by {
        assert forall|a: int, b: int| 0 <= a < b < changed.len() implies changed[a].0
            != changed[b].0 by {
            assert(pairs[a].0 != pairs[b].0);
        }
    }
    if i == pairs.len() - 1 {
        assert(changed.drop_last() =~= front);
        assert(pairs_map(changed) =~= pairs_map(pairs).insert(host, outcome));
    } else {
        assert(distinct_hosts(front)) by {
            assert forall|a: int, b: int| 0 <= a < b < front.len() implies front[a].0
                != front[b].0 by {
                assert(pairs[a].0 != pairs[b].0);
            }
        }
        lemma_pairs_map_update(front, i, outcome);
        assert(changed.drop_last() =~= front.update(i, (host, outcome)));
        assert(pairs[i].0 != pairs[pairs.len() - 1].0);
        assert(pairs_map(changed) =~= pairs_map(pairs).insert(host, outcome));
    }
}

/// With distinct hosts the listing and the mapping agree: each listed host
/// is a key with the listed outcome, each key is listed, and the counts match.
pub proof fn lemma_listing<V>(pairs: Seq<(Seq<char>, V)>)
    requires
        distinct_hosts(pairs),
    ensures
        pairs_map(pairs).dom().finite(),
        pairs_map(pairs).len() == pairs.len(),
        forall|h: Seq<char>| #[trigger] pairs_map(pairs).contains_key(h) <==> has_host(pairs, h),
        forall|i: int|
            0 <= i < pairs.len() ==> pairs_map(pairs).contains_key((#[trigger] pairs[i]).0)
                && pairs_map(pairs)[pairs[i].0] == pairs[i].1,
{
    lemma_pairs_map_len(pairs);
    lemma_pairs_map_dom(pairs);
    assert forall|i: int| 0 <= i < pairs.len() implies pairs_map(pairs).contains_key(
        (#[trigger] pairs[i]).0,
    ) && pairs_map(pairs)[pairs[i].0] == pairs[i].1 by {
        lemma_pairs_map_value(pairs, i);
    }
}

} // verus!
