//! What holds of the detector's output: each emitted record traces back to a
//! triple of batch positions that satisfies the sandwich predicate — from that
//! witness the guarantees on senders, gas prices, targets and paths follow —
//! and, conversely, every triple that satisfies the predicate is emitted.

use vstd::prelude::*;

use crate::detector::{
    attack_view_of, backrun_scan, backruns, detected_attacks, frontrun_scan, frontruns,
    router_bound, sandwich_triple, victim_scan,
};
use crate::paths::paths_reverse;
use crate::types::{Address, Transaction};

verus! {

/// No two transactions of the batch carry the same hash. Detection
/// correctness assumes this; it is not enforced on input.
pub open spec fn hashes_unique(txs: Seq<Transaction>) -> bool {
    forall|a: int, b: int|
        #![trigger txs[a], txs[b]]
        0 <= a < txs.len() && 0 <= b < txs.len() && a != b ==> txs[a].hash@ != txs[b].hash@
}

/// Positions `i`, `j`, `k` of the batch hold a victim, front-run and back-run
/// that form a sandwich.
pub open spec fn triple_at(
    txs: Seq<Transaction>,
    router: Address,
    i: int,
    j: int,
    k: int,
) -> bool {
    &&& 0 <= i < txs.len()
    &&& 0 <= j < txs.len()
    &&& 0 <= k < txs.len()
    &&& sandwich_triple(txs[i], txs[j], txs[k], router)
}

/// Position `kk` holds a back-run for victim `v` and front-run `f` whose
/// call-data tail reverses `f`'s.
spec fn back_match_at(
    v: Transaction,
    f: Transaction,
    txs: Seq<Transaction>,
    kk: int,
) -> bool {
    &&& 0 <= kk < txs.len()
    &&& backruns(v, f, txs[kk])
    &&& paths_reverse(f.data@, txs[kk].data@)
}

/// Positions `jj`, `kk` hold a front-run and back-run for victim `v`.
spec fn pair_match_at(
    v: Transaction,
    txs: Seq<Transaction>,
    router: Address,
    jj: int,
    kk: int,
) -> bool {
    &&& 0 <= jj < txs.len()
    &&& frontruns(v, txs[jj], router)
    &&& back_match_at(v, txs[jj], txs, kk)
}

/// Every record of a back-run scan names a back-run position that produced it.
proof fn lemma_backrun_scan_witness(
    v: Transaction,
    f: Transaction,
    txs: Seq<Transaction>,
    router: Address,
    k: int,
    n: int,
)
    requires
        0 <= k <= txs.len(),
        0 <= n < backrun_scan(v, f, txs, router, k).len(),
    ensures
        exists|kk: int|
            #[trigger] back_match_at(v, f, txs, kk) && kk < k && backrun_scan(
                v,
                f,
                txs,
                router,
                k,
            )[n] == attack_view_of(v, f, txs[kk]),
    decreases k,
{
    let prev = backrun_scan(v, f, txs, router, k - 1);
    if n < prev.len() {
        lemma_backrun_scan_witness(v, f, txs, router, k - 1, n);
        let kk = choose|kk: int|
            #[trigger] back_match_at(v, f, txs, kk) && kk < k - 1 && prev[n] == attack_view_of(
                v,
                f,
                txs[kk],
            );
        assert(back_match_at(v, f, txs, kk) && kk < k && backrun_scan(v, f, txs, router, k)[n]
            == attack_view_of(v, f, txs[kk]));
    } else {
        assert(back_match_at(v, f, txs, k - 1) && k - 1 < k && backrun_scan(v, f, txs, router, k)[n]
            == attack_view_of(v, f, txs[k - 1]));
    }
}

/// Every record of a front-run scan names the front-run and back-run positions
/// that produced it.
proof fn lemma_frontrun_scan_witness(
    v: Transaction,
    txs: Seq<Transaction>,
    router: Address,
    j: int,
    n: int,
)
    requires
        0 <= j <= txs.len(),
        0 <= n < frontrun_scan(v, txs, router, j).len(),
    ensures
        exists|jj: int, kk: int|
            #[trigger] pair_match_at(v, txs, router, jj, kk) && jj < j && frontrun_scan(
                v,
                txs,
                router,
                j,
            )[n] == attack_view_of(v, txs[jj], txs[kk]),
    decreases j,
{
    let prev = frontrun_scan(v, txs, router, j - 1);
    if n < prev.len() {
        lemma_frontrun_scan_witness(v, txs, router, j - 1, n);
        let (jj, kk) = choose|jj: int, kk: int|
            #[trigger] pair_match_at(v, txs, router, jj, kk) && jj < j - 1 && prev[n]
                == attack_view_of(v, txs[jj], txs[kk]);
        assert(pair_match_at(v, txs, router, jj, kk) && jj < j && frontrun_scan(
            v,
            txs,
            router,
            j,
        )[n] == attack_view_of(v, txs[jj], txs[kk]));
    } else {
        let f = txs[j - 1];
        let tail = backrun_scan(v, f, txs, router, txs.len() as int);
        lemma_backrun_scan_witness(v, f, txs, router, txs.len() as int, n - prev.len());
        let kk = choose|kk: int|
            #[trigger] back_match_at(v, f, txs, kk) && kk < txs.len() && tail[n - prev.len()]
                == attack_view_of(v, f, txs[kk]);
        assert(pair_match_at(v, txs, router, j - 1, kk) && j - 1 < j && frontrun_scan(
            v,
            txs,
            router,
            j,
        )[n] == attack_view_of(v, txs[j - 1], txs[kk]));
    }
}

/// Every record of a victim scan names the full triple that produced it.
proof fn lemma_victim_scan_witness(txs: Seq<Transaction>, router: Address, i: int, n: int)
    requires
        0 <= i <= txs.len(),
        0 <= n < victim_scan(txs, router, i).len(),
    ensures
        exists|ii: int, jj: int, kk: int|
            #[trigger] triple_at(txs, router, ii, jj, kk) && ii < i && victim_scan(
                txs,
                router,
                i,
            )[n] == attack_view_of(txs[ii], txs[jj], txs[kk]),
    decreases i,
{
    let prev = victim_scan(txs, router, i - 1);
    if n < prev.len() {
        lemma_victim_scan_witness(txs, router, i - 1, n);
        let (ii, jj, kk) = choose|ii: int, jj: int, kk: int|
            #[trigger] triple_at(txs, router, ii, jj, kk) && ii < i - 1 && prev[n]
                == attack_view_of(txs[ii], txs[jj], txs[kk]);
        assert(triple_at(txs, router, ii, jj, kk) && ii < i && victim_scan(txs, router, i)[n]
            == attack_view_of(txs[ii], txs[jj], txs[kk]));
    } else {
        let v = txs[i - 1];
        let tail = frontrun_scan(v, txs, router, txs.len() as int);
        lemma_frontrun_scan_witness(v, txs, router, txs.len() as int, n - prev.len());
        let (jj, kk) = choose|jj: int, kk: int|
            #[trigger] pair_match_at(v, txs, router, jj, kk) && jj < txs.len() && tail[n
                - prev.len()] == attack_view_of(v, txs[jj], txs[kk]);
        assert(triple_at(txs, router, i - 1, jj, kk) && i - 1 < i && victim_scan(
            txs,
            router,
            i,
        )[n] == attack_view_of(txs[i - 1], txs[jj], txs[kk]));
    }
}

/// Every emitted attack record is the image of some triple of batch positions
/// that satisfies the sandwich predicate.
pub proof fn lemma_attack_has_witness(txs: Seq<Transaction>, router: Address, n: int)
    requires
        0 <= n < detected_attacks(txs, router).len(),
    ensures
        exists|i: int, j: int, k: int|
            #[trigger] triple_at(txs, router, i, j, k) && detected_attacks(txs, router)[n]
                == attack_view_of(txs[i], txs[j], txs[k]),
{
    lemma_victim_scan_witness(txs, router, txs.len() as int, n);
}

/// A back-run scan that has passed position `kk` has emitted `kk`'s record.
proof fn lemma_backrun_scan_contains(
    v: Transaction,
    f: Transaction,
    txs: Seq<Transaction>,
    router: Address,
    k: int,
    kk: int,
)
    requires
        0 <= kk < k <= txs.len(),
        backruns(v, f, txs[kk]),
        paths_reverse(f.data@, txs[kk].data@),
    ensures
        backrun_scan(v, f, txs, router, k).contains(attack_view_of(v, f, txs[kk])),
    decreases k,
{
    let attack = attack_view_of(v, f, txs[kk]);
    let prev = backrun_scan(v, f, txs, router, k - 1);
    if kk == k - 1 {
        assert(backrun_scan(v, f, txs, router, k)[prev.len() as int] == attack);
    } else {
        lemma_backrun_scan_contains(v, f, txs, router, k - 1, kk);
        let n = choose|n: int| 0 <= n < prev.len() && prev[n] == attack;
        assert(backrun_scan(v, f, txs, router, k)[n] == attack);
    }
}

/// A front-run scan that has passed position `jj` has emitted every record of
/// `jj`'s back-run scan.
proof fn lemma_frontrun_scan_contains(
    v: Transaction,
    txs: Seq<Transaction>,
    router: Address,
    j: int,
    jj: int,
    kk: int,
)
    requires
        0 <= jj < j <= txs.len(),
        0 <= kk < txs.len(),
        frontruns(v, txs[jj], router),
        backruns(v, txs[jj], txs[kk]),
        paths_reverse(txs[jj].data@, txs[kk].data@),
    ensures
        frontrun_scan(v, txs, router, j).contains(attack_view_of(v, txs[jj], txs[kk])),
    decreases j,
{
    let attack = attack_view_of(v, txs[jj], txs[kk]);
    let prev = frontrun_scan(v, txs, router, j - 1);
    if jj == j - 1 {
        lemma_backrun_scan_contains(v, txs[jj], txs, router, txs.len() as int, kk);
        let tail = backrun_scan(v, txs[jj], txs, router, txs.len() as int);
        let n = choose|n: int| 0 <= n < tail.len() && tail[n] == attack;
        assert(frontrun_scan(v, txs, router, j)[prev.len() + n] == attack);
    } else {
        lemma_frontrun_scan_contains(v, txs, router, j - 1, jj, kk);
        let n = choose|n: int| 0 <= n < prev.len() && prev[n] == attack;
        assert(frontrun_scan(v, txs, router, j)[n] == attack);
    }
}

/// A victim scan that has passed position `ii` has emitted every record of
/// `ii`'s front-run scan.
proof fn lemma_victim_scan_contains(
    txs: Seq<Transaction>,
    router: Address,
    i: int,
    ii: int,
    jj: int,
    kk: int,
)
    requires
        0 <= ii < i <= txs.len(),
        triple_at(txs, router, ii, jj, kk),
    ensures
        victim_scan(txs, router, i).contains(attack_view_of(txs[ii], txs[jj], txs[kk])),
    decreases i,
{
    let attack = attack_view_of(txs[ii], txs[jj], txs[kk]);
    let prev = victim_scan(txs, router, i - 1);
    if ii == i - 1 {
        lemma_frontrun_scan_contains(txs[ii], txs, router, txs.len() as int, jj, kk);
        let tail = frontrun_scan(txs[ii], txs, router, txs.len() as int);
        let n = choose|n: int| 0 <= n < tail.len() && tail[n] == attack;
        assert(victim_scan(txs, router, i)[prev.len() + n] == attack);
    } else {
        lemma_victim_scan_contains(txs, router, i - 1, ii, jj, kk);
        let n = choose|n: int| 0 <= n < prev.len() && prev[n] == attack;
        assert(victim_scan(txs, router, i)[n] == attack);
    }
}

/// Completeness: every triple of batch positions that satisfies the sandwich
/// predicate has its record among the detected attacks.
pub proof fn lemma_triple_is_detected(
    txs: Seq<Transaction>,
    router: Address,
    i: int,
    j: int,
    k: int,
)
    requires
        triple_at(txs, router, i, j, k),
    ensures
        detected_attacks(txs, router).contains(attack_view_of(txs[i], txs[j], txs[k])),
{
    lemma_victim_scan_contains(txs, router, txs.len() as int, i, j, k);
}

/// Two positions carrying the same hash are the same position, once hashes
/// are unique.
proof fn lemma_hash_identifies(txs: Seq<Transaction>, a: int, b: int)
    requires
        hashes_unique(txs),
        0 <= a < txs.len(),
        0 <= b < txs.len(),
        txs[a].hash@ == txs[b].hash@,
    ensures
        a == b,
{
}

/// No self-match: within a batch of distinct hashes, no emitted attack names
/// the victim's own transaction as its front-run or its back-run.
pub proof fn lemma_no_self_match(txs: Seq<Transaction>, router: Address, n: int)
    requires
        hashes_unique(txs),
        0 <= n < detected_attacks(txs, router).len(),
    ensures
        detected_attacks(txs, router)[n].frontrun_tx_hash != detected_attacks(
            txs,
            router,
        )[n].victim_tx_hash,
        detected_attacks(txs, router)[n].backrun_tx_hash != detected_attacks(
            txs,
            router,
        )[n].victim_tx_hash,
{
    lemma_attack_has_witness(txs, router, n);
    let (i, j, k) = choose|i: int, j: int, k: int|
        #[trigger] triple_at(txs, router, i, j, k) && detected_attacks(txs, router)[n]
            == attack_view_of(txs[i], txs[j], txs[k]);
    if txs[j].hash@ == txs[i].hash@ {
        lemma_hash_identifies(txs, j, i);
        assert(txs[j].gas_price.as_int() > txs[i].gas_price.as_int());
        assert(false);
    }
    if txs[k].hash@ == txs[i].hash@ {
        lemma_hash_identifies(txs, k, i);
        assert(txs[k].gas_price.as_int() < txs[i].gas_price.as_int());
        assert(false);
    }
}

/// Same attacker: within a batch of distinct hashes, the batch entries carrying
/// the hashes an attack names as front-run and back-run were both sent by the
/// attacker the record names.
pub proof fn lemma_same_attacker(
    txs: Seq<Transaction>,
    router: Address,
    n: int,
    jf: int,
    kb: int,
)
    requires
        hashes_unique(txs),
        0 <= n < detected_attacks(txs, router).len(),
        0 <= jf < txs.len(),
        0 <= kb < txs.len(),
        txs[jf].hash@ == detected_attacks(txs, router)[n].frontrun_tx_hash,
        txs[kb].hash@ == detected_attacks(txs, router)[n].backrun_tx_hash,
    ensures
        txs[jf].sender == detected_attacks(txs, router)[n].attacker,
        txs[kb].sender == detected_attacks(txs, router)[n].attacker,
{
    lemma_attack_has_witness(txs, router, n);
    let (i, j, k) = choose|i: int, j: int, k: int|
        #[trigger] triple_at(txs, router, i, j, k) && detected_attacks(txs, router)[n]
            == attack_view_of(txs[i], txs[j], txs[k]);
    lemma_hash_identifies(txs, jf, j);
    lemma_hash_identifies(txs, kb, k);
}

/// Gas ordering: within a batch of distinct hashes, the entries an attack
/// names satisfy front-run gas price > victim gas price > back-run gas price,
/// strictly.
pub proof fn lemma_gas_ordering(
    txs: Seq<Transaction>,
    router: Address,
    n: int,
    iv: int,
    jf: int,
    kb: int,
)
    requires
        hashes_unique(txs),
        0 <= n < detected_attacks(txs, router).len(),
        0 <= iv < txs.len(),
        0 <= jf < txs.len(),
        0 <= kb < txs.len(),
        txs[iv].hash@ == detected_attacks(txs, router)[n].victim_tx_hash,
        txs[jf].hash@ == detected_attacks(txs, router)[n].frontrun_tx_hash,
        txs[kb].hash@ == detected_attacks(txs, router)[n].backrun_tx_hash,
    ensures
        txs[jf].gas_price.as_int() > txs[iv].gas_price.as_int(),
        txs[iv].gas_price.as_int() > txs[kb].gas_price.as_int(),
{
    lemma_attack_has_witness(txs, router, n);
    let (i, j, k) = choose|i: int, j: int, k: int|
        #[trigger] triple_at(txs, router, i, j, k) && detected_attacks(txs, router)[n]
            == attack_view_of(txs[i], txs[j], txs[k]);
    lemma_hash_identifies(txs, iv, i);
    lemma_hash_identifies(txs, jf, j);
    lemma_hash_identifies(txs, kb, k);
}

/// Router-bound roles: within a batch of distinct hashes, the entries an
/// attack names as victim and front-run both target the router. Nothing is
/// claimed of the back-run's target.
pub proof fn lemma_router_bound_roles(
    txs: Seq<Transaction>,
    router: Address,
    n: int,
    iv: int,
    jf: int,
)
    requires
        hashes_unique(txs),
        0 <= n < detected_attacks(txs, router).len(),
        0 <= iv < txs.len(),
        0 <= jf < txs.len(),
        txs[iv].hash@ == detected_attacks(txs, router)[n].victim_tx_hash,
        txs[jf].hash@ == detected_attacks(txs, router)[n].frontrun_tx_hash,
    ensures
        router_bound(txs[iv], router),
        router_bound(txs[jf], router),
{
    lemma_attack_has_witness(txs, router, n);
    let (i, j, k) = choose|i: int, j: int, k: int|
        #[trigger] triple_at(txs, router, i, j, k) && detected_attacks(txs, router)[n]
            == attack_view_of(txs[i], txs[j], txs[k]);
    lemma_hash_identifies(txs, iv, i);
    lemma_hash_identifies(txs, jf, j);
}

/// No false accept on path mismatch: if no two batch entries with a common
/// sender have call-data tails in reversed order, nothing at all is emitted —
/// in particular nothing for any victim.
pub proof fn lemma_path_mismatch_empty(txs: Seq<Transaction>, router: Address)
    requires
        forall|j: int, k: int|
            #![trigger txs[j], txs[k]]
            0 <= j < txs.len() && 0 <= k < txs.len() && txs[j].sender == txs[k].sender
                ==> !paths_reverse(txs[j].data@, txs[k].data@),
    ensures
        detected_attacks(txs, router).len() == 0,
{
    if detected_attacks(txs, router).len() > 0 {
        lemma_attack_has_witness(txs, router, 0);
        let (i, j, k) = choose|i: int, j: int, k: int|
            #[trigger] triple_at(txs, router, i, j, k) && detected_attacks(txs, router)[0]
                == attack_view_of(txs[i], txs[j], txs[k]);
        assert(txs[k].sender == txs[j].sender);
        assert(paths_reverse(txs[j].data@, txs[k].data@));
        assert(false);
    }
}

} // verus!
