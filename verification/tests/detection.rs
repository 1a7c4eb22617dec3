use sandwich_detector::detector::{analyze_batch, detect, uniswap_v2_router, DetectionOutcome};
use sandwich_detector::types::{Address, Amount, Transaction};

fn addr(tag: u128) -> Address {
    Address { hi: 0, lo: tag }
}

fn tx(hash: &str, sender: Address, to: Option<Address>, gas: u128, data: &str) -> Transaction {
    Transaction {
        hash: hash.to_string(),
        sender,
        to,
        value: Amount::from_u128(0),
        data: data.as_bytes().to_vec(),
        gas_price: Amount::from_u128(gas),
    }
}

/// Call-data whose two tail slots are `first` and `second`, each one hex
/// character repeated to a full 64-character slot, behind a 10-character head.
fn swap_data(first: char, second: char) -> String {
    let head = "0".repeat(10);
    let a = first.to_string().repeat(64);
    let b = second.to_string().repeat(64);
    format!("{}{}{}", head, a, b)
}

fn scenario_a_batch() -> (Vec<Transaction>, Address) {
    let router = uniswap_v2_router();
    let victim_sender = addr(1);
    let attacker = addr(2);
    let other_contract = addr(3);
    let v = tx("v", victim_sender, Some(router), 10, &swap_data('c', 'd'));
    let f = tx("f", attacker, Some(router), 20, &swap_data('a', 'b'));
    let b = tx("b", attacker, Some(other_contract), 5, &swap_data('b', 'a'));
    (vec![v, f, b], router)
}

#[test]
fn scenario_a_single_sandwich() {
    let (batch, router) = scenario_a_batch();
    let attacks = detect(&batch, &router);
    assert_eq!(attacks.len(), 1);
    assert_eq!(attacks[0].victim_tx_hash, "v");
    assert_eq!(attacks[0].attacker, addr(2));
    assert_eq!(attacks[0].frontrun_tx_hash, "f");
    assert_eq!(attacks[0].backrun_tx_hash, "b");
}

#[test]
fn scenario_b_different_backrun_sender() {
    let (mut batch, router) = scenario_a_batch();
    batch[2].sender = addr(9);
    let attacks = detect(&batch, &router);
    assert_eq!(attacks.len(), 0);
}

#[test]
fn scenario_c_path_not_reversed() {
    let (mut batch, router) = scenario_a_batch();
    batch[2].data = swap_data('a', 'b').as_bytes().to_vec();
    let attacks = detect(&batch, &router);
    assert_eq!(attacks.len(), 0);
}

#[test]
fn scenario_d_short_frontrun_data() {
    let (mut batch, router) = scenario_a_batch();
    batch[1].data = "ab".repeat(36).as_bytes().to_vec(); // 72 characters < 74
    let attacks = detect(&batch, &router);
    assert_eq!(attacks.len(), 0);
}

#[test]
fn scenario_d_short_backrun_data() {
    let (mut batch, router) = scenario_a_batch();
    batch[2].data = "ab".repeat(36).as_bytes().to_vec();
    let attacks = detect(&batch, &router);
    assert_eq!(attacks.len(), 0);
}

#[test]
fn scenario_e_malformed_input_is_empty() {
    let router = uniswap_v2_router();
    let out = analyze_batch(None, &router);
    assert!(matches!(out, DetectionOutcome::MalformedInput));
    let attacks = out.into_attacks();
    assert_eq!(attacks.len(), 0);
}

#[test]
fn well_formed_batch_outcome_carries_attacks() {
    let (batch, router) = scenario_a_batch();
    let out = analyze_batch(Some(batch), &router);
    let attacks = match out {
        DetectionOutcome::Attacks(a) => a,
        DetectionOutcome::MalformedInput => panic!("a decoded batch is never malformed"),
    };
    assert_eq!(attacks.len(), 1);
    assert_eq!(attacks[0].victim_tx_hash, "v");
}

#[test]
fn empty_batch_no_attacks() {
    let router = uniswap_v2_router();
    let attacks = detect(&vec![], &router);
    assert_eq!(attacks.len(), 0);
}

#[test]
fn victim_not_router_bound_no_attacks() {
    let (mut batch, router) = scenario_a_batch();
    batch[0].to = None;
    let attacks = detect(&batch, &router);
    assert_eq!(attacks.len(), 0);
}

#[test]
fn frontrun_not_router_bound_no_attacks() {
    let (mut batch, router) = scenario_a_batch();
    batch[1].to = Some(addr(3));
    let attacks = detect(&batch, &router);
    assert_eq!(attacks.len(), 0);
}

#[test]
fn equal_gas_prices_never_match() {
    let (mut batch, router) = scenario_a_batch();
    batch[1].gas_price = Amount::from_u128(10); // front-run gas == victim gas
    assert_eq!(detect(&batch, &router).len(), 0);
    let (mut batch2, router2) = scenario_a_batch();
    batch2[2].gas_price = Amount::from_u128(10); // back-run gas == victim gas
    assert_eq!(detect(&batch2, &router2).len(), 0);
}

#[test]
fn frontrun_same_sender_as_victim_no_attacks() {
    let (mut batch, router) = scenario_a_batch();
    batch[1].sender = addr(1);
    batch[2].sender = addr(1);
    assert_eq!(detect(&batch, &router).len(), 0);
}

#[test]
fn two_backruns_emit_in_batch_order() {
    let (mut batch, router) = scenario_a_batch();
    let mut second = tx("b2", addr(2), None, 4, &swap_data('b', 'a'));
    second.value = Amount::from_u128(7);
    batch.push(second);
    let attacks = detect(&batch, &router);
    assert_eq!(attacks.len(), 2);
    assert_eq!(attacks[0].backrun_tx_hash, "b");
    assert_eq!(attacks[1].backrun_tx_hash, "b2");
}

#[test]
fn two_victims_emit_victims_outermost() {
    let router = uniswap_v2_router();
    let v1 = tx("v1", addr(1), Some(router), 10, &swap_data('c', 'd'));
    let v2 = tx("v2", addr(4), Some(router), 12, &swap_data('c', 'd'));
    let f = tx("f", addr(2), Some(router), 20, &swap_data('a', 'b'));
    let b = tx("b", addr(2), None, 5, &swap_data('b', 'a'));
    let batch = vec![v1, v2, f, b];
    let attacks = detect(&batch, &router);
    assert_eq!(attacks.len(), 2);
    assert_eq!(attacks[0].victim_tx_hash, "v1");
    assert_eq!(attacks[1].victim_tx_hash, "v2");
}

#[test]
fn gas_ordering_of_emitted_attack() {
    // The emitted attack names transactions whose gas prices are strictly
    // ordered: front-run above the victim, back-run below.
    let (batch, router) = scenario_a_batch();
    let attacks = detect(&batch, &router);
    assert_eq!(attacks.len(), 1);
    let victim = batch.iter().find(|t| t.hash == attacks[0].victim_tx_hash).unwrap();
    let front = batch.iter().find(|t| t.hash == attacks[0].frontrun_tx_hash).unwrap();
    let back = batch.iter().find(|t| t.hash == attacks[0].backrun_tx_hash).unwrap();
    assert!(victim.gas_price.lt(&front.gas_price));
    assert!(back.gas_price.lt(&victim.gas_price));
    assert_eq!(front.sender, back.sender);
    assert_eq!(front.sender, attacks[0].attacker);
    assert_ne!(attacks[0].frontrun_tx_hash, attacks[0].victim_tx_hash);
    assert_ne!(attacks[0].backrun_tx_hash, attacks[0].victim_tx_hash);
    assert_eq!(front.to, Some(router));
    assert_eq!(victim.to, Some(router));
    assert_ne!(back.to, Some(router));
}
