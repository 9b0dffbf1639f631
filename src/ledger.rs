//! A ledger of bids: one entry per bidder, kept in a vector whose view is
//! a map from bidder to amount.
use vstd::prelude::*;

verus! {

/// What one bidder has contributed.
#[derive(Clone, Debug)]
pub struct BidEntry {
    pub bidder: String,
    pub amount: u128,
}

/// No bidder has two entries.
pub open spec fn unique_bidders(es: Seq<BidEntry>) -> bool {
    forall|i: int, j: int|
        0 <= i < es.len() && 0 <= j < es.len() && i != j ==> #[trigger] es[i].bidder@
            != #[trigger] es[j].bidder@
}

/// Some entry belongs to bidder `b`.
pub open spec fn has_bidder(es: Seq<BidEntry>, b: Seq<char>) -> bool {
    exists|i: int| 0 <= i < es.len() && #[trigger] es[i].bidder@ == b
}

/// The ledger that the entries hold: each bidder's amount.
pub open spec fn ledger_of(es: Seq<BidEntry>) -> Map<Seq<char>, u128> {
    Map::new(
        |b: Seq<char>| has_bidder(es, b),
        |b: Seq<char>| es[choose|i: int| 0 <= i < es.len() && #[trigger] es[i].bidder@ == b].amount,
    )
}

/// The entry at `i` gives its bidder's amount in the ledger.
pub proof fn lemma_ledger_at(es: Seq<BidEntry>, i: int)
    requires
        unique_bidders(es),
        0 <= i < es.len(),
    ensures
        ledger_of(es).contains_key(es[i].bidder@),
        ledger_of(es)[es[i].bidder@] == es[i].amount,
{
    let b = es[i].bidder@;
    assert(has_bidder(es, b));
    let j = choose|j: int| 0 <= j < es.len() && #[trigger] es[j].bidder@ == b;
    assert(j == i);
}

/// Replacing the amount of the entry at `i` updates that bidder alone.
pub proof fn lemma_ledger_update(es: Seq<BidEntry>, i: int, e: BidEntry)
    requires
        unique_bidders(es),
        0 <= i < es.len(),
        e.bidder@ == es[i].bidder@,
    ensures
        unique_bidders(es.update(i, e)),
        ledger_of(es.update(i, e)) =~= ledger_of(es).insert(e.bidder@, e.amount),
{
    let es2 = es.update(i, e);
    assert(unique_bidders(es2)) by {
        assert forall|a: int, c: int|
            0 <= a < es2.len() && 0 <= c < es2.len() && a != c implies #[trigger] es2[a].bidder@
            != #[trigger] es2[c].bidder@ by {
            assert(es2[a].bidder@ == es[a].bidder@);
            assert(es2[c].bidder@ == es[c].bidder@);
        }
    }
    let m = ledger_of(es).insert(e.bidder@, e.amount);
    assert forall|b: Seq<char>| #[trigger] ledger_of(es2).contains_key(b) <==> m.contains_key(b) by {
        if has_bidder(es2, b) {
            let k = choose|k: int| 0 <= k < es2.len() && #[trigger] es2[k].bidder@ == b;
            assert(es[k].bidder@ == b);
        }
        if has_bidder(es, b) {
            let k = choose|k: int| 0 <= k < es.len() && #[trigger] es[k].bidder@ == b;
            assert(es2[k].bidder@ == b);
        }
    }
    assert forall|b: Seq<char>| #[trigger] ledger_of(es2).contains_key(b) implies ledger_of(es2)[b]
        == m[b] by {
        let k = choose|k: int| 0 <= k < es2.len() && #[trigger] es2[k].bidder@ == b;
        lemma_ledger_at(es2, k);
        if k != i {
            assert(es2[k] == es[k]);
            lemma_ledger_at(es, k);
        }
    }
}

/// Appending an entry for a new bidder adds that bidder alone.
pub proof fn lemma_ledger_push(es: Seq<BidEntry>, e: BidEntry)
    requires
        unique_bidders(es),
        !has_bidder(es, e.bidder@),
    ensures
        unique_bidders(es.push(e)),
        ledger_of(es.push(e)) =~= ledger_of(es).insert(e.bidder@, e.amount),
{
    let es2 = es.push(e);
    assert(unique_bidders(es2)) by {
        assert forall|a: int, c: int|
            0 <= a < es2.len() && 0 <= c < es2.len() && a != c implies #[trigger] es2[a].bidder@
            != #[trigger] es2[c].bidder@ by {
            if a < es.len() {
                assert(es2[a] == es[a]);
            }
            if c < es.len() {
                assert(es2[c] == es[c]);
            }
        }
    }
    let m = ledger_of(es).insert(e.bidder@, e.amount);
    assert forall|b: Seq<char>| #[trigger] ledger_of(es2).contains_key(b) <==> m.contains_key(b) by {
        if has_bidder(es2, b) {
            let k = choose|k: int| 0 <= k < es2.len() && #[trigger] es2[k].bidder@ == b;
            if k < es.len() {
                assert(es[k].bidder@ == b);
            }
        }
        if has_bidder(es, b) {
            let k = choose|k: int| 0 <= k < es.len() && #[trigger] es[k].bidder@ == b;
            assert(es2[k].bidder@ == b);
        }
        if b == e.bidder@ {
            assert(es2[es.len() as int].bidder@ == b);
        }
    }
    assert forall|b: Seq<char>| #[trigger] ledger_of(es2).contains_key(b) implies ledger_of(es2)[b]
        == m[b] by {
        let k = choose|k: int| 0 <= k < es2.len() && #[trigger] es2[k].bidder@ == b;
        lemma_ledger_at(es2, k);
        if k < es.len() {
            assert(es2[k] == es[k]);
            lemma_ledger_at(es, k);
        }
    }
}

/// Removing the entry at `i` removes that bidder alone.
pub proof fn lemma_ledger_remove(es: Seq<BidEntry>, i: int)
    requires
        unique_bidders(es),
        0 <= i < es.len(),
    ensures
        unique_bidders(es.remove(i)),
        ledger_of(es.remove(i)) =~= ledger_of(es).remove(es[i].bidder@),
{
    let es2 = es.remove(i);
    let gone = es[i].bidder@;
    assert forall|k: int| 0 <= k < es2.len() implies #[trigger] es2[k] == es[if k < i {
        k
    } else {
        k + 1
    }] by {}
    assert(unique_bidders(es2)) by {
        assert forall|a: int, c: int|
            0 <= a < es2.len() && 0 <= c < es2.len() && a != c implies #[trigger] es2[a].bidder@
            != #[trigger] es2[c].bidder@ by {
            let a1 = if a < i {
                a
            } else {
                a + 1
            };
            let c1 = if c < i {
                c
            } else {
                c + 1
            };
            assert(es2[a] == es[a1]);
            assert(es2[c] == es[c1]);
        }
    }
    let m = ledger_of(es).remove(gone);
    assert forall|b: Seq<char>| #[trigger] ledger_of(es2).contains_key(b) <==> m.contains_key(b) by {
        if has_bidder(es2, b) {
            let k = choose|k: int| 0 <= k < es2.len() && #[trigger] es2[k].bidder@ == b;
            let k1 = if k < i {
                k
            } else {
                k + 1
            };
            assert(es2[k] == es[k1]);
            assert(es[k1].bidder@ == b);
            assert(b != gone);
        }
        if has_bidder(es, b) && b != gone {
            let k = choose|k: int| 0 <= k < es.len() && #[trigger] es[k].bidder@ == b;
            assert(k != i);
            let k2 = if k < i {
                k
            } else {
                k - 1
            };
            assert(es2[k2] == es[k]);
            assert(es2[k2].bidder@ == b);
        }
    }
    assert forall|b: Seq<char>| #[trigger] ledger_of(es2).contains_key(b) implies ledger_of(es2)[b]
        == m[b] by {
        let k = choose|k: int| 0 <= k < es2.len() && #[trigger] es2[k].bidder@ == b;
        let k1 = if k < i {
            k
        } else {
            k + 1
        };
        assert(es2[k] == es[k1]);
        lemma_ledger_at(es2, k);
        lemma_ledger_at(es, k1);
    }
}

/// Where bidder `b`'s entry stands, if anywhere.
pub fn find_bidder(es: &Vec<BidEntry>, b: &String) -> (r: Option<usize>)
    ensures
        r matches Some(i) ==> i < es.len() && es@[i as int].bidder@ == b@,
        r is None ==> !has_bidder(es@, b@),
{
    let mut i: usize = 0;
    while i < es.len()
        invariant
            i <= es.len(),
            forall|k: int| 0 <= k < i ==> #[trigger] es@[k].bidder@ != b@,
        decreases es.len() - i,
    {
        if es[i].bidder == *b {
            return Some(i);
        }
        i = i + 1;
    }
    None
}

} // verus!
