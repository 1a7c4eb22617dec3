//! The sandwich detector: which (victim, front-run, back-run) triples of a
//! batch form an attack, and every attack a batch contains, in the order the
//! nested enumeration reaches them.

use vstd::prelude::*;

use crate::paths::{a_b_a_path_matches, paths_reverse};
use crate::types::{Address, AttackView, SandwichAttack, Transaction};

verus! {

/// Whether a transaction calls the configured router contract. Only
/// router-bound transactions can act as victim or front-run.
pub open spec fn router_bound(t: Transaction, router: Address) -> bool {
    t.to == Some(router)
}

/// Whether `f` can front-run victim `v`: also router-bound, from a different
/// sender, and paying a strictly higher gas price to jump ahead.
pub open spec fn frontruns(v: Transaction, f: Transaction, router: Address) -> bool {
    &&& router_bound(f, router)
    &&& f.sender != v.sender
    &&& f.gas_price.as_int() > v.gas_price.as_int()
}

/// Whether `b` can back-run victim `v` behind front-run `f`: sent by the same
/// attacker as `f`, and content to execute after `v` at a strictly lower gas
/// price. A back-run need not itself be router-bound.
pub open spec fn backruns(v: Transaction, f: Transaction, b: Transaction) -> bool {
    &&& b.sender == f.sender
    &&& b.gas_price.as_int() < v.gas_price.as_int()
}

/// The full sandwich predicate on a (victim, front-run, back-run) triple.
pub open spec fn sandwich_triple(
    v: Transaction,
    f: Transaction,
    b: Transaction,
    router: Address,
) -> bool {
    &&& router_bound(v, router)
    &&& frontruns(v, f, router)
    &&& backruns(v, f, b)
    &&& paths_reverse(f.data@, b.data@)
}

/// The attack record a matching triple yields.
pub open spec fn attack_view_of(v: Transaction, f: Transaction, b: Transaction) -> AttackView {
    AttackView {
        victim_tx_hash: v.hash@,
        attacker: f.sender,
        frontrun_tx_hash: f.hash@,
        backrun_tx_hash: b.hash@,
    }
}

/// The attacks contributed by back-run candidates `txs[0..k)` for a fixed
/// victim `v` and front-run `f`, in batch order.
pub open spec fn backrun_scan(
    v: Transaction,
    f: Transaction,
    txs: Seq<Transaction>,
    router: Address,
    k: int,
) -> Seq<AttackView>
    decreases k,
{
    if k <= 0 {
        Seq::empty()
    } else {
        backrun_scan(v, f, txs, router, k - 1) + (if backruns(v, f, txs[k - 1]) && paths_reverse(
            f.data@,
            txs[k - 1].data@,
        ) {
            seq![attack_view_of(v, f, txs[k - 1])]
        } else {
            Seq::empty()
        })
    }
}

/// The attacks contributed by front-run candidates `txs[0..j)` for a fixed
/// victim `v`, in batch order.
pub open spec fn frontrun_scan(
    v: Transaction,
    txs: Seq<Transaction>,
    router: Address,
    j: int,
) -> Seq<AttackView>
    decreases j,
{
    if j <= 0 {
        Seq::empty()
    } else {
        frontrun_scan(v, txs, router, j - 1) + (if frontruns(v, txs[j - 1], router) {
            backrun_scan(v, txs[j - 1], txs, router, txs.len() as int)
        } else {
            Seq::empty()
        })
    }
}

/// The attacks contributed by victim candidates `txs[0..i)`, in batch order.
pub open spec fn victim_scan(txs: Seq<Transaction>, router: Address, i: int) -> Seq<AttackView>
    decreases i,
{
    if i <= 0 {
        Seq::empty()
    } else {
        victim_scan(txs, router, i - 1) + (if router_bound(txs[i - 1], router) {
            frontrun_scan(txs[i - 1], txs, router, txs.len() as int)
        } else {
            Seq::empty()
        })
    }
}

/// Every attack the batch contains, in nested enumeration order: victims
/// outermost, then front-runs, then back-runs, each ranging over the whole
/// batch in its given order.
pub open spec fn detected_attacks(txs: Seq<Transaction>, router: Address) -> Seq<AttackView> {
    victim_scan(txs, router, txs.len() as int)
}

/// The records of `s`, viewed.
pub open spec fn attack_views(s: Seq<SandwichAttack>) -> Seq<AttackView> {
    s.map_values(|a: SandwichAttack| a@)
}

/// Whether a transaction calls the router, decided in executable code.
fn is_router_bound(t: &Transaction, router: &Address) -> (r: bool)
    ensures
        r == router_bound(*t, *router),
{
    match t.to {
        Some(a) => a.eq_addr(router),
        None => false,
    }
}

/// Finds every sandwich attack in `txs`: all triples of a router-bound victim,
/// a router-bound front-run from a different sender at a higher gas price, and
/// a back-run from the front-run's sender at a gas price below the victim's,
/// whose call-data tails trade the same pair in reversed order. Records come
/// out in nested enumeration order over the batch.
#[verifier::loop_isolation(false)]
pub fn detect(txs: &Vec<Transaction>, router: &Address) -> (attacks: Vec<SandwichAttack>)
    ensures
        attack_views(attacks@) == detected_attacks(txs@, *router),
        attacks@.len() == detected_attacks(txs@, *router).len(),
        forall|n: int| 0 <= n < attacks@.len() ==> #[trigger] attacks@[n]@ == detected_attacks(
            txs@,
            *router,
        )[n],
{
    let mut attacks: Vec<SandwichAttack> = Vec::new();
    let mut i: usize = 0;
    while i < txs.len()
        invariant
            i <= txs@.len(),
            attack_views(attacks@) == victim_scan(txs@, *router, i as int),
        decreases txs@.len() - i,
    {
        let victim = &txs[i];
        if is_router_bound(victim, router) {
            let mut j: usize = 0;
            while j < txs.len()
                invariant
                    j <= txs@.len(),
                    attack_views(attacks@) == victim_scan(txs@, *router, i as int) + frontrun_scan(
                        txs@[i as int],
                        txs@,
                        *router,
                        j as int,
                    ),
                decreases txs@.len() - j,
            {
                let front = &txs[j];
                let front_ok = is_router_bound(front, router) && !front.sender.eq_addr(
                    &victim.sender,
                ) && victim.gas_price.lt(&front.gas_price);
                if front_ok {
                    let mut k: usize = 0;
                    while k < txs.len()
                        invariant
                            k <= txs@.len(),
                            frontruns(txs@[i as int], txs@[j as int], *router),
                            attack_views(attacks@) == victim_scan(txs@, *router, i as int)
                                + frontrun_scan(txs@[i as int], txs@, *router, j as int)
                                + backrun_scan(
                                txs@[i as int],
                                txs@[j as int],
                                txs@,
                                *router,
                                k as int,
                            ),
                        decreases txs@.len() - k,
                    {
                        let back = &txs[k];
                        let back_ok = back.sender.eq_addr(&front.sender) && back.gas_price.lt(
                            &victim.gas_price,
                        );
                        if back_ok && a_b_a_path_matches(&front.data, &back.data) {
                            let record = SandwichAttack {
                                victim_tx_hash: victim.hash.clone(),
                                attacker: front.sender,
                                frontrun_tx_hash: front.hash.clone(),
                                backrun_tx_hash: back.hash.clone(),
                            };
                            proof {
                                assert(record@ =~= attack_view_of(
                                    txs@[i as int],
                                    txs@[j as int],
                                    txs@[k as int],
                                ));
                            }
                            let ghost before = attacks@;
                            attacks.push(record);
                            proof {
                                assert(attack_views(attacks@) =~= attack_views(before).push(
                                    record@,
                                ));
                                assert(attack_views(attacks@) =~= victim_scan(
                                    txs@,
                                    *router,
                                    i as int,
                                ) + frontrun_scan(txs@[i as int], txs@, *router, j as int)
                                    + backrun_scan(
                                    txs@[i as int],
                                    txs@[j as int],
                                    txs@,
                                    *router,
                                    k + 1,
                                ));
                            }
                        } else {
                            proof {
                                assert(backrun_scan(
                                    txs@[i as int],
                                    txs@[j as int],
                                    txs@,
                                    *router,
                                    k + 1,
                                ) =~= backrun_scan(
                                    txs@[i as int],
                                    txs@[j as int],
                                    txs@,
                                    *router,
                                    k as int,
                                ));
                            }
                        }
                        k += 1;
                    }
                    proof {
                        assert(attack_views(attacks@) =~= victim_scan(txs@, *router, i as int)
                            + frontrun_scan(txs@[i as int], txs@, *router, j + 1));
                    }
                } else {
                    proof {
                        assert(frontrun_scan(txs@[i as int], txs@, *router, j + 1) =~= frontrun_scan(
                            txs@[i as int],
                            txs@,
                            *router,
                            j as int,
                        ));
                    }
                }
                j += 1;
            }
            proof {
                assert(attack_views(attacks@) =~= victim_scan(txs@, *router, i + 1));
            }
        } else {
            proof {
                assert(victim_scan(txs@, *router, i + 1) =~= victim_scan(txs@, *router, i as int));
            }
        }
        i += 1;
    }
    attacks
}

/// The well-known Uniswap V2 router address, the default swap entry point the
/// detector watches (big-endian bytes 7a 25 09 56 80 8f 5c 3d 7c 48 53 74 0a
/// 6d 7e 44 4e 9a ce d8).
pub open spec fn spec_uniswap_v2_router() -> Address {
    Address { hi: 0x7a250956, lo: 0x808f5c3d7c4853740a6d7e444e9aced8 }
}

/// The well-known Uniswap V2 router address, in executable form.
pub fn uniswap_v2_router() -> (a: Address)
    ensures
        a == spec_uniswap_v2_router(),
{
    Address { hi: 0x7a250956, lo: 0x808f5c3d7c4853740a6d7e444e9aced8 }
}

/// What one run over an input batch concluded. The boundary collapses both
/// variants of an empty report to the same visible output, but the layer below
/// keeps "the input never decoded" apart from "the batch held no attacks".
pub enum DetectionOutcome {
    /// The input could not be decoded into a batch of transactions.
    MalformedInput,
    /// The batch decoded; these are the attacks found, possibly none.
    Attacks(Vec<SandwichAttack>),
}

impl DetectionOutcome {
    /// The records to report: a malformed input degrades to an empty report
    /// rather than an error.
    pub fn into_attacks(self) -> (r: Vec<SandwichAttack>)
        ensures
            match self {
                DetectionOutcome::MalformedInput => r@.len() == 0,
                DetectionOutcome::Attacks(a) => r == a,
            },
    {
        match self {
            DetectionOutcome::MalformedInput => Vec::new(),
            DetectionOutcome::Attacks(a) => a,
        }
    }
}

/// Runs the detector over a decoded batch, or records that decoding failed.
/// `None` stands for input that did not decode into a well-formed batch; it
/// never yields an attack.
pub fn analyze_batch(decoded: Option<Vec<Transaction>>, router: &Address) -> (out:
    DetectionOutcome)
    ensures
        match decoded {
            None => out == DetectionOutcome::MalformedInput,
            Some(txs) => match out {
                DetectionOutcome::Attacks(a) => attack_views(a@) == detected_attacks(
                    txs@,
                    *router,
                ),
                DetectionOutcome::MalformedInput => false,
            },
        },
{
    match decoded {
        None => DetectionOutcome::MalformedInput,
        Some(txs) => DetectionOutcome::Attacks(detect(&txs, router)),
    }
}

} // verus!
