use arc_node::config::{
    Erc20FnWeights, Erc20Function, GuzzlerFnWeights, GuzzlerFunction, TxType, TxTypeMix,
};
use arc_node::generator::{
    select_erc20_function, select_guzzler_function, select_tx_type, Erc20Recipient,
    GeneratorError, GeneratorSnapshot, TxGenerator, SINGLE_ACCOUNT_ERC20_RECIPIENT,
};
use arc_node::tx::{TxEip1559, TxLegacy, GAS_CACHE_BUFFER};
use alloy_consensus::SignableTransaction;
use alloy_primitives::{Address, B256};
use alloy_signer::SignerSync;
use alloy_signer_local::PrivateKeySigner;
use serde_json::Value;
use std::collections::HashMap;

enum Built {
    Eip1559(TxEip1559),
    Legacy(TxLegacy),
}

impl Built {
    fn nonce(&self) -> u64 {
        match self {
            Built::Eip1559(tx) => tx.nonce,
            Built::Legacy(tx) => tx.nonce,
        }
    }
}

fn make_generator(start: usize, end: usize, max_txs_per_account: u64) -> TxGenerator<()> {
    TxGenerator::new(
        0,
        start..end,
        max_txs_per_account,
        false,
        0,
        GuzzlerFnWeights::default(),
        Erc20FnWeights {
            transfer: 100,
            ..Default::default()
        },
        TxTypeMix {
            transfer: 100,
            ..Default::default()
        },
    )
}

/// The decisions of one `next_tx` round without a node: plan, nonce, build,
/// and remember the nonce so that a retry without ack reuses it.
fn next_tx(g: &mut TxGenerator<()>) -> Option<(Built, usize)> {
    let plan = g.plan_next_tx().expect("weights are valid")?;
    let i = plan.account_index;
    let nonce = g.starting_nonce(i, None);
    let tx = match plan.tx_type {
        TxType::Legacy => Built::Legacy(g.make_legacy_tx(nonce)),
        TxType::Transfer => Built::Eip1559(g.make_eip1559_tx(nonce)),
        other => panic!("unexpected kind {:?}", other),
    };
    g.set_nonce(i, nonce);
    Some((tx, i))
}

#[test]
fn next_tx_without_ack_retries_same_nonce() {
    let mut generator = make_generator(0, 1, 0);

    let (tx1, idx1) = next_tx(&mut generator).expect("first tx");
    // Do NOT ack: the next call should produce the same nonce
    let (tx2, idx2) = next_tx(&mut generator).expect("retry tx");

    assert_eq!(idx1, 0);
    assert_eq!(idx2, 0);
    assert_eq!(tx1.nonce(), tx2.nonce(), "nonce should be unchanged without ack");
}

#[test]
fn ack_nonce_increments() {
    let mut generator = make_generator(0, 1, 0);

    let (tx1, idx) = next_tx(&mut generator).expect("first tx");
    generator.ack_nonce(idx);
    let (tx2, _) = next_tx(&mut generator).expect("second tx");

    assert_eq!(tx2.nonce(), tx1.nonce() + 1, "nonce should increment after ack");
}

#[test]
fn next_tx_legacy_produces_legacy_envelope() {
    let mut generator: TxGenerator<()> = TxGenerator::new(
        0,
        0..1,
        0,
        false,
        0,
        GuzzlerFnWeights::default(),
        Erc20FnWeights::default(),
        TxTypeMix {
            legacy: 100,
            ..Default::default()
        },
    );

    let (envelope, _) = next_tx(&mut generator).expect("legacy tx");
    assert!(matches!(envelope, Built::Legacy(_)), "expected Legacy envelope");
}

#[test]
fn next_tx_respects_max_txs_per_account() {
    let max_txs = 3;
    let mut generator = make_generator(0, 2, max_txs);

    // Generate and ack max_txs for each account = 2 * 3 = 6 total
    let mut count = 0u64;
    while let Some((_, idx)) = next_tx(&mut generator) {
        generator.ack_nonce(idx);
        count += 1;
        if count > 100 {
            panic!("too many txs generated");
        }
    }

    assert_eq!(count, 2 * max_txs, "should produce max_txs_per_account for each account");
}

#[test]
fn next_tx_round_robin_distribution() {
    let num_accounts = 5;
    let num_txs = 15u64;
    let mut generator = make_generator(0, num_accounts, 0);

    let mut per_account: HashMap<usize, u64> = HashMap::new();
    for _ in 0..num_txs {
        let (_, idx) = next_tx(&mut generator).expect("tx");
        *per_account.entry(idx).or_default() += 1;
        generator.ack_nonce(idx);
    }

    // Each account should get exactly num_txs / num_accounts = 3
    for i in 0..num_accounts {
        assert_eq!(
            per_account.get(&i).copied().unwrap_or(0),
            num_txs / num_accounts as u64,
            "account {i} should get equal share"
        );
    }
}

fn key_for(index: usize) -> PrivateKeySigner {
    let mut bytes = [0u8; 32];
    bytes[24..].copy_from_slice(&(index as u64 + 1).to_be_bytes());
    PrivateKeySigner::from_bytes(&B256::from(bytes)).expect("valid key")
}

/// Plans, builds and signs the next transfer; returns the address that the
/// signature recovers to.
fn next_signed_sender(g: &mut TxGenerator<PrivateKeySigner>) -> Address {
    let plan = g.plan_next_tx().expect("weights are valid").expect("an account");
    let i = plan.account_index;
    let nonce = g.starting_nonce(i, None);
    let tx = g.make_eip1559_tx(nonce);
    let alloy_tx = alloy_consensus::TxEip1559 {
        chain_id: tx.chain_id,
        nonce: tx.nonce,
        max_priority_fee_per_gas: tx.max_priority_fee_per_gas,
        max_fee_per_gas: tx.max_fee_per_gas,
        gas_limit: tx.gas_limit,
        to: alloy_primitives::TxKind::Call(Address::from(tx.to)),
        value: alloy_primitives::U256::from(tx.value),
        input: alloy_primitives::Bytes::from(tx.input),
        access_list: Default::default(),
    };
    let hash = alloy_tx.signature_hash();
    let sig = g.signer(i).expect("signer installed").sign_hash_sync(&hash).expect("sign");
    g.set_nonce(i, nonce);
    g.ack_nonce(i);
    sig.recover_address_from_prehash(&hash).expect("recover signer")
}

#[test]
fn tx_generator_distributes_across_signers() {
    let test_cases = vec![
        (0, 10, 10),
        (10, 15, 10),
        (10, 11, 10),
        (10, 20, 40),
        (0, 100, 50),
        (900, 1000, 1000),
    ];
    for (start, end, channel_capacity) in test_cases {
        let mut generator: TxGenerator<PrivateKeySigner> = TxGenerator::new(
            0,
            start..end,
            0,
            false,
            0,
            GuzzlerFnWeights::default(),
            Erc20FnWeights {
                transfer: 100,
                ..Default::default()
            },
            TxTypeMix {
                transfer: 100,
                ..Default::default()
            },
        );
        let signers: Vec<PrivateKeySigner> = (start..end).map(key_for).collect();
        generator.install_signers(signers.iter().cloned().map(Some).collect());

        // fill the channel: generate, sign and optimistically ack each tx
        let mut per_sender_counts: HashMap<Address, usize> = HashMap::new();
        let mut counter = 0usize;
        while counter < channel_capacity {
            let sender = next_signed_sender(&mut generator);
            *per_sender_counts.entry(sender).or_default() += 1;
            counter += 1;
        }
        assert!(counter <= channel_capacity);

        let signer_addresses: Vec<Address> = signers.iter().map(|s| s.address()).collect();
        let num_signers = end - start;
        let mut expected: HashMap<Address, usize> = HashMap::new();
        for i in 0..counter {
            *expected.entry(signer_addresses[i % num_signers]).or_default() += 1;
        }
        assert_eq!(
            per_sender_counts, expected,
            "per-signer counts should match round-robin distribution"
        );
    }
}

fn opt_to_json(v: Option<u64>) -> Value {
    match v {
        Some(x) => Value::from(x),
        None => Value::Null,
    }
}

fn opt_from_json(v: &Value) -> Option<u64> {
    v.as_u64()
}

fn snapshot_to_json(s: &GeneratorSnapshot) -> Value {
    let mut m = serde_json::Map::new();
    m.insert("id".to_string(), Value::from(s.id));
    m.insert("signers_start".to_string(), Value::from(s.signers_start));
    m.insert("signers_end".to_string(), Value::from(s.signers_end));
    m.insert(
        "next_nonces".to_string(),
        Value::Array(s.next_nonces.iter().map(|n| opt_to_json(*n)).collect()),
    );
    m.insert("max_txs_per_account".to_string(), Value::from(s.max_txs_per_account));
    m.insert("query_latest_nonce".to_string(), Value::from(s.query_latest_nonce));
    m.insert("tx_input_size".to_string(), Value::from(s.tx_input_size));
    let g = &s.guzzler_fn_weights;
    m.insert(
        "guzzler_fn_weights".to_string(),
        Value::Array(
            [
                g.hash_loop as u64,
                g.storage_write as u64,
                g.storage_read as u64,
                g.guzzle as u64,
                g.guzzle2 as u64,
                g.hash_loop_arg,
                g.storage_write_arg,
                g.storage_read_arg,
                g.guzzle_arg,
                g.guzzle2_arg,
            ]
            .iter()
            .map(|x| Value::from(*x))
            .collect(),
        ),
    );
    let e = &s.erc20_fn_weights;
    m.insert(
        "erc20_fn_weights".to_string(),
        Value::Array(vec![e.transfer.into(), e.approve.into(), e.transfer_from.into()]),
    );
    let t = &s.tx_type_mix;
    m.insert(
        "tx_type_mix".to_string(),
        Value::Array(vec![t.transfer.into(), t.erc20.into(), t.guzzler.into(), t.legacy.into()]),
    );
    m.insert("guzzler_verified".to_string(), Value::from(s.guzzler_verified));
    m.insert("test_token_verified".to_string(), Value::from(s.test_token_verified));
    m.insert(
        "tx_counts".to_string(),
        Value::Array(s.tx_counts.iter().map(|c| Value::from(*c)).collect()),
    );
    m.insert("next_account_index".to_string(), Value::from(s.next_account_index));
    m.insert("query_nonces_on_init".to_string(), Value::from(s.query_nonces_on_init));
    m.insert(
        "skipped_accounts".to_string(),
        Value::Array(s.skipped_accounts.iter().map(|c| Value::from(*c)).collect()),
    );
    m.insert(
        "erc20_gas_cache".to_string(),
        Value::Array(s.erc20_gas_cache.iter().map(|c| opt_to_json(*c)).collect()),
    );
    m.insert(
        "guzzler_gas_cache".to_string(),
        Value::Array(s.guzzler_gas_cache.iter().map(|c| opt_to_json(*c)).collect()),
    );
    Value::Object(m)
}

fn u64s(v: &Value) -> Vec<u64> {
    v.as_array().unwrap().iter().map(|x| x.as_u64().unwrap()).collect()
}

fn snapshot_from_json(v: &Value) -> GeneratorSnapshot {
    let g = u64s(&v["guzzler_fn_weights"]);
    let e = u64s(&v["erc20_fn_weights"]);
    let t = u64s(&v["tx_type_mix"]);
    let erc20: Vec<Option<u64>> =
        v["erc20_gas_cache"].as_array().unwrap().iter().map(opt_from_json).collect();
    let guzzler: Vec<Option<u64>> =
        v["guzzler_gas_cache"].as_array().unwrap().iter().map(opt_from_json).collect();
    GeneratorSnapshot {
        id: v["id"].as_u64().unwrap() as usize,
        signers_start: v["signers_start"].as_u64().unwrap() as usize,
        signers_end: v["signers_end"].as_u64().unwrap() as usize,
        next_nonces: v["next_nonces"].as_array().unwrap().iter().map(opt_from_json).collect(),
        max_txs_per_account: v["max_txs_per_account"].as_u64().unwrap(),
        query_latest_nonce: v["query_latest_nonce"].as_bool().unwrap(),
        tx_input_size: v["tx_input_size"].as_u64().unwrap() as usize,
        guzzler_fn_weights: GuzzlerFnWeights {
            hash_loop: g[0] as u32,
            storage_write: g[1] as u32,
            storage_read: g[2] as u32,
            guzzle: g[3] as u32,
            guzzle2: g[4] as u32,
            hash_loop_arg: g[5],
            storage_write_arg: g[6],
            storage_read_arg: g[7],
            guzzle_arg: g[8],
            guzzle2_arg: g[9],
        },
        erc20_fn_weights: Erc20FnWeights {
            transfer: e[0] as u32,
            approve: e[1] as u32,
            transfer_from: e[2] as u32,
        },
        tx_type_mix: TxTypeMix {
            transfer: t[0] as u32,
            erc20: t[1] as u32,
            guzzler: t[2] as u32,
            legacy: t[3] as u32,
        },
        guzzler_verified: v["guzzler_verified"].as_bool().unwrap(),
        test_token_verified: v["test_token_verified"].as_bool().unwrap(),
        tx_counts: u64s(&v["tx_counts"]),
        next_account_index: v["next_account_index"].as_u64().unwrap() as usize,
        query_nonces_on_init: v["query_nonces_on_init"].as_bool().unwrap(),
        skipped_accounts: u64s(&v["skipped_accounts"]).into_iter().map(|x| x as usize).collect(),
        erc20_gas_cache: [erc20[0], erc20[1], erc20[2]],
        guzzler_gas_cache: [guzzler[0], guzzler[1], guzzler[2], guzzler[3], guzzler[4]],
    }
}

#[test]
fn tx_generator_round_trips_through_json() {
    let mut tg = make_generator(5, 10, 0);
    for i in 0..5 {
        tg.set_nonce(i, i as u64 + 42);
    }
    for i in 0..5 {
        for _ in 0..(i as u64 + 1) * 7 {
            tg.ack_nonce(i);
        }
        tg.set_nonce(i, i as u64 + 42);
    }
    for _ in 0..3 {
        tg.plan_next_tx().unwrap();
    }
    tg.skip_account(2);
    tg.record_guzzler_check(true).unwrap();
    tg.record_test_token_check(true).unwrap();
    tg.record_erc20_gas_estimate(Erc20Function::Transfer, 21_000 / GAS_CACHE_BUFFER);
    tg.record_guzzler_gas_estimate(GuzzlerFunction::HashLoop, 100_000 / GAS_CACHE_BUFFER);
    let mut signers = Vec::new();
    for _ in 0..5 {
        signers.push(Some(()));
    }
    tg.install_signers(signers);

    let json = serde_json::to_string(&snapshot_to_json(&tg.to_snapshot())).expect("serialise");
    let value: Value = serde_json::from_str(&json).expect("deserialise");
    let mut restored: TxGenerator<()> =
        TxGenerator::from_snapshot(snapshot_from_json(&value)).expect("consistent snapshot");

    assert_eq!(restored.id(), tg.id());
    assert_eq!(restored.signers_range(), tg.signers_range());
    for i in 0..5 {
        assert_eq!(restored.cached_nonce(i), Some(i as u64 + 42));
        assert_eq!(restored.cached_nonce(i), tg.cached_nonce(i));
        assert_eq!(restored.tx_count(i), (i as u64 + 1) * 7);
        assert_eq!(restored.tx_count(i), tg.tx_count(i));
        assert_eq!(restored.is_account_skipped(i), i == 2);
    }
    assert_eq!(restored.next_account_index(), 3);
    assert_eq!(restored.next_account_index(), tg.next_account_index());
    assert!(!restored.needs_guzzler_check());
    assert!(!restored.needs_test_token_check());
    assert_eq!(restored.erc20_cached_gas(Erc20Function::Transfer), Some(21_000));
    assert_eq!(restored.erc20_cached_gas(Erc20Function::Approve), None);
    assert_eq!(restored.guzzler_cached_gas(GuzzlerFunction::HashLoop), Some(100_000));
    assert_eq!(restored.guzzler_cached_gas(GuzzlerFunction::Guzzle), None);
    // Keys are not persisted.
    assert_eq!(restored.num_accounts(), 0);

    // ensure_signers_capacity resizes to one empty slot per account in range
    restored.ensure_signers_capacity();
    assert_eq!(restored.num_accounts(), restored.range_len());
    for i in 0..restored.num_accounts() {
        assert!(restored.signer(i).is_none());
    }
    assert!(!restored.signers_populated());
}

#[test]
fn inconsistent_snapshot_is_refused() {
    let tg = make_generator(0, 3, 0);
    let mut s = tg.to_snapshot();
    s.tx_counts.pop();
    assert!(TxGenerator::<()>::from_snapshot(s).is_none());
    let mut s = tg.to_snapshot();
    s.next_account_index = 3;
    assert!(TxGenerator::<()>::from_snapshot(s).is_none());
    let mut s = tg.to_snapshot();
    s.tx_input_size = usize::MAX;
    assert!(TxGenerator::<()>::from_snapshot(s).is_none());
    let mut s = tg.to_snapshot();
    s.skipped_accounts = vec![1, 1, 2];
    let g = TxGenerator::<()>::from_snapshot(s).expect("duplicates are fine");
    assert!(g.is_account_skipped(1) && g.is_account_skipped(2) && !g.is_account_skipped(0));
}

#[test]
fn skipped_accounts_are_never_selected() {
    let mut g = make_generator(0, 4, 0);
    g.skip_account(1);
    g.skip_account(3);
    let mut seen = Vec::new();
    for _ in 0..6 {
        seen.push(g.next_account().unwrap());
    }
    assert_eq!(seen, vec![0, 2, 0, 2, 0, 2]);
    g.skip_account(0);
    g.skip_account(2);
    assert_eq!(g.next_account(), None);
}

#[test]
fn cursor_wraps_and_skips_capped_accounts() {
    let mut g = make_generator(0, 3, 1);
    assert_eq!(g.next_account(), Some(0));
    g.ack_nonce(0);
    assert_eq!(g.next_account_index(), 1);
    assert_eq!(g.next_account(), Some(1));
    assert_eq!(g.next_account(), Some(2));
    assert_eq!(g.next_account_index(), 0);
    // account 0 is at its cap now
    assert_eq!(g.next_account(), Some(1));
    g.ack_nonce(1);
    g.ack_nonce(2);
    assert_eq!(g.next_account(), None);
}

#[test]
fn empty_slice_plans_nothing() {
    let mut g = make_generator(5, 5, 0);
    assert_eq!(g.num_accounts(), 0);
    assert!(g.plan_next_tx().unwrap().is_none());
    let mut g = make_generator(7, 3, 0);
    assert_eq!(g.range_len(), 0);
    assert!(g.plan_next_tx().unwrap().is_none());
}

#[test]
fn erc20_plans_go_to_the_next_account_or_fixed_address() {
    let mix = TxTypeMix {
        erc20: 1,
        ..Default::default()
    };
    let erc20 = Erc20FnWeights {
        approve: 1,
        ..Default::default()
    };
    let mut g: TxGenerator<()> =
        TxGenerator::new(0, 0..3, 0, false, 0, GuzzlerFnWeights::default(), erc20, mix);
    for expected in [1usize, 2, 0] {
        let plan = g.plan_next_tx().unwrap().unwrap();
        assert_eq!(plan.tx_type, TxType::Erc20);
        assert_eq!(plan.erc20_function, Some(Erc20Function::Approve));
        assert!(plan.guzzler.is_none());
        match plan.erc20_recipient {
            Some(Erc20Recipient::Account(r)) => assert_eq!(r, expected),
            other => panic!("unexpected recipient {:?}", other),
        }
    }
    let mut g: TxGenerator<()> =
        TxGenerator::new(0, 0..1, 0, false, 0, GuzzlerFnWeights::default(), erc20, mix);
    let plan = g.plan_next_tx().unwrap().unwrap();
    match plan.erc20_recipient {
        Some(Erc20Recipient::Fixed(a)) => assert_eq!(a, SINGLE_ACCOUNT_ERC20_RECIPIENT),
        other => panic!("unexpected recipient {:?}", other),
    }
    assert_eq!(&SINGLE_ACCOUNT_ERC20_RECIPIENT[18..], &[0xEC, 0x20]);
}

#[test]
fn guzzler_plans_carry_the_configured_argument() {
    let mix = TxTypeMix {
        guzzler: 3,
        ..Default::default()
    };
    let guzzler = GuzzlerFnWeights {
        storage_read: 2,
        storage_read_arg: 77,
        hash_loop_arg: 5,
        ..Default::default()
    };
    let mut g: TxGenerator<()> =
        TxGenerator::new(0, 0..2, 0, false, 0, guzzler, Erc20FnWeights::default(), mix);
    let plan = g.plan_next_tx().unwrap().unwrap();
    assert_eq!(plan.tx_type, TxType::Guzzler);
    assert_eq!(plan.guzzler, Some((GuzzlerFunction::StorageRead, 77)));
    assert!(plan.erc20_function.is_none() && plan.erc20_recipient.is_none());
}

#[test]
fn weight_errors() {
    let mut g: TxGenerator<()> = TxGenerator::new(
        0,
        0..2,
        0,
        false,
        0,
        GuzzlerFnWeights::default(),
        Erc20FnWeights::default(),
        TxTypeMix::default(),
    );
    assert_eq!(g.plan_next_tx().unwrap_err(), GeneratorError::TxMixEmpty);
    // the cursor already moved past the chosen account
    assert_eq!(g.next_account_index(), 1);

    let overflow = TxTypeMix {
        transfer: u32::MAX,
        legacy: 1,
        ..Default::default()
    };
    assert_eq!(select_tx_type(&overflow).unwrap_err(), GeneratorError::TxMixOverflow);
    assert_eq!(
        select_erc20_function(&Erc20FnWeights::default()).unwrap_err(),
        GeneratorError::Erc20WeightsEmpty
    );
    assert_eq!(
        select_guzzler_function(&GuzzlerFnWeights::default()).unwrap_err(),
        GeneratorError::GuzzlerWeightsEmpty
    );

    let mut g: TxGenerator<()> = TxGenerator::new(
        0,
        0..2,
        0,
        false,
        0,
        GuzzlerFnWeights::default(),
        Erc20FnWeights::default(),
        TxTypeMix {
            guzzler: 1,
            ..Default::default()
        },
    );
    assert_eq!(g.plan_next_tx().unwrap_err(), GeneratorError::GuzzlerWeightsEmpty);
}

#[test]
fn selection_only_draws_weighted_kinds() {
    let mix = TxTypeMix {
        erc20: 1,
        legacy: 1,
        ..Default::default()
    };
    for _ in 0..200 {
        let t = select_tx_type(&mix).unwrap();
        assert!(t == TxType::Erc20 || t == TxType::Legacy);
    }
    let w = Erc20FnWeights {
        transfer_from: 4,
        ..Default::default()
    };
    for _ in 0..50 {
        assert_eq!(select_erc20_function(&w).unwrap(), Erc20Function::TransferFrom);
    }
    let w = GuzzlerFnWeights {
        guzzle2: 1,
        guzzle: 1,
        ..Default::default()
    };
    for _ in 0..50 {
        let f = select_guzzler_function(&w).unwrap();
        assert!(f == GuzzlerFunction::Guzzle || f == GuzzlerFunction::Guzzle2);
    }
}

#[test]
fn starting_nonce_prefers_cache_then_query_then_zero() {
    let mut g: TxGenerator<()> = TxGenerator::new(
        0,
        0..2,
        0,
        true,
        0,
        GuzzlerFnWeights::default(),
        Erc20FnWeights::default(),
        TxTypeMix::default(),
    );
    assert!(g.needs_nonce_query(0));
    assert_eq!(g.starting_nonce(0, Some(9)), 9);
    assert_eq!(g.starting_nonce(0, None), 0);
    g.set_nonce(0, 4);
    assert!(!g.needs_nonce_query(0));
    assert_eq!(g.starting_nonce(0, Some(9)), 4);
    let g = make_generator(0, 2, 0);
    assert!(!g.needs_nonce_query(1));
    assert_eq!(g.starting_nonce(1, Some(9)), 0);
}

#[test]
fn ack_without_cached_nonce_only_counts() {
    let mut g = make_generator(0, 2, 0);
    g.ack_nonce(1);
    assert_eq!(g.cached_nonce(1), None);
    assert_eq!(g.tx_count(1), 1);
    assert_eq!(g.tx_count(0), 0);
}

#[test]
fn initialisation_helpers() {
    let g = make_generator(0, 3, 0).with_query_nonces_on_init(true);
    let mut g = g;
    assert!(g.take_query_nonces_on_init());
    assert!(!g.take_query_nonces_on_init());
    assert_eq!(g.accounts_without_nonce(), vec![0, 1, 2]);
    g.initialize_accounts(vec![Some(()), None, Some(())], vec![Some(3), None, Some(7)], true);
    assert!(g.accounts_without_nonce().is_empty());
    assert_eq!(g.cached_nonce(0), Some(3));
    assert_eq!(g.cached_nonce(1), Some(0));
    assert_eq!(g.cached_nonce(2), Some(7));
    assert!(!g.signers_populated());
    g.set_signer(1, ());
    assert!(g.signers_populated());
    assert!(g.signer(1).is_some());
}

#[test]
fn gas_estimates_needed_follow_weights_and_cache() {
    let mix = TxTypeMix {
        erc20: 1,
        guzzler: 1,
        ..Default::default()
    };
    let erc20 = Erc20FnWeights {
        transfer: 1,
        transfer_from: 2,
        ..Default::default()
    };
    let guzzler = GuzzlerFnWeights {
        hash_loop: 1,
        guzzle2: 1,
        ..Default::default()
    };
    let mut g: TxGenerator<()> = TxGenerator::new(0, 0..1, 0, false, 0, guzzler, erc20, mix);
    assert_eq!(
        g.erc20_gas_estimates_needed(),
        vec![Erc20Function::Transfer, Erc20Function::TransferFrom]
    );
    assert_eq!(
        g.guzzler_gas_estimates_needed(),
        vec![GuzzlerFunction::HashLoop, GuzzlerFunction::Guzzle2]
    );
    g.record_erc20_gas_estimate(Erc20Function::Transfer, 30_000);
    // still incomplete: every weighted function again
    assert_eq!(g.erc20_gas_estimates_needed().len(), 2);
    g.record_erc20_gas_estimate(Erc20Function::TransferFrom, u64::MAX);
    assert!(g.erc20_gas_estimates_needed().is_empty());
    assert_eq!(g.erc20_cached_gas(Erc20Function::Transfer), Some(60_000));
    assert_eq!(g.erc20_cached_gas(Erc20Function::TransferFrom), Some(u64::MAX));
    g.record_guzzler_gas_estimate(GuzzlerFunction::HashLoop, 1);
    g.record_guzzler_gas_estimate(GuzzlerFunction::Guzzle2, 2);
    assert!(g.guzzler_gas_estimates_needed().is_empty());
    assert_eq!(g.guzzler_cached_gas(GuzzlerFunction::Guzzle2), Some(4));

    let g = make_generator(0, 1, 0);
    assert!(g.guzzler_gas_estimates_needed().is_empty());
    assert!(g.erc20_gas_estimates_needed().is_empty());
    assert!(!g.needs_guzzler_check());
}

#[test]
fn configuration_getters() {
    let g = make_generator(0, 1, 0);
    assert_eq!(g.tx_type_mix().transfer, 100);
    assert_eq!(g.erc20_fn_weights().transfer, 100);
    assert_eq!(g.guzzler_fn_weights().hash_loop, 0);
}

#[test]
fn initialisation_without_querying_starts_at_zero() {
    let mut g = make_generator(0, 2, 0);
    g.initialize_accounts(vec![None, None], vec![Some(5), Some(9)], false);
    assert_eq!(g.cached_nonce(0), Some(0));
    assert_eq!(g.cached_nonce(1), Some(0));
    g.record_queried_nonce(1, Some(12));
    assert_eq!(g.cached_nonce(1), Some(12));
    g.record_queried_nonce(0, None);
    assert_eq!(g.cached_nonce(0), Some(0));
}

#[test]
fn missing_contracts_fail_initialisation() {
    let mix = TxTypeMix {
        guzzler: 100,
        erc20: 1,
        ..Default::default()
    };
    let mut g: TxGenerator<()> = TxGenerator::new(
        0,
        0..1,
        0,
        false,
        0,
        GuzzlerFnWeights::default(),
        Erc20FnWeights::default(),
        mix,
    );
    assert!(g.needs_guzzler_check());
    assert_eq!(g.record_guzzler_check(false), Err(GeneratorError::GuzzlerNotDeployed));
    assert!(g.needs_guzzler_check());
    assert_eq!(g.guzzler_cached_gas(GuzzlerFunction::HashLoop), None);
    assert_eq!(g.record_guzzler_check(true), Ok(()));
    assert!(!g.needs_guzzler_check());
    assert_eq!(g.record_test_token_check(false), Err(GeneratorError::TestTokenNotDeployed));
    assert!(g.needs_test_token_check());
}

#[test]
fn transfer_only_mix_plans_with_empty_function_weights() {
    // no guzzler or ERC-20 weights: a transfer-only mix still plans
    let mut g = make_generator(0, 3, 0);
    for expected in 0..6usize {
        let plan = g.plan_next_tx().expect("transfer mix plans").expect("an account");
        assert_eq!(plan.tx_type, TxType::Transfer);
        assert_eq!(plan.account_index, expected % 3);
    }
}
