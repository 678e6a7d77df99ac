use arc_node::abi::{abi_decode_bytes_triple, abi_encode_bool, abi_encode_str, abi_encode_uint256};
use arc_node::config::GuzzlerFunction;
use arc_node::tx::{
    adjust_guzzler_arg, encode_guzzler_calldata, gas_limit_fits, finish_guzzler_call_tx, guzzler_call_gas_limit,
    left_padded_address, make_eip1559_tx, make_guzzler_call_tx, make_legacy_tx,
    prepare_guzzler_call, saturating_mul_u64, transfer_recipient_for, zero_input, GUZZLER_ADDRESS,
    GUZZLER_GAS_FALLBACK, MAX_FEE_PER_GAS, MAX_PRIORITY_FEE_PER_GAS, TESTNET_CHAIN_ID,
    TRANSFER_VALUE,
};
use alloy_primitives::{Address, U256};
use alloy_sol_types::{sol_data, SolType, SolValue};

#[test]
fn eip1559_transfer_fields() {
    let tx = make_eip1559_tx(10, 5);
    assert_eq!(tx.chain_id, TESTNET_CHAIN_ID);
    assert_eq!(tx.chain_id, 1337);
    assert_eq!(tx.nonce, 5);
    assert_eq!(tx.max_fee_per_gas, 40_000_000_000_000);
    assert_eq!(tx.max_fee_per_gas, MAX_FEE_PER_GAS);
    assert_eq!(tx.max_priority_fee_per_gas, MAX_PRIORITY_FEE_PER_GAS);
    assert_eq!(tx.gas_limit, 30_000 + 160);
    assert_eq!(tx.input, vec![0u8; 10]);
    assert_eq!(tx.value, TRANSFER_VALUE);
    assert_eq!(U256::from(tx.value), U256::from(1e16));
    assert_eq!(
        Address::from(tx.to),
        Address::left_padding_from(&(5u64.wrapping_add(0x1000)).to_be_bytes())
    );
}

#[test]
fn legacy_transfer_fields() {
    let tx = make_legacy_tx(0, 7);
    assert_eq!(tx.chain_id, Some(1337));
    assert_eq!(tx.gas_price, MAX_FEE_PER_GAS);
    assert_eq!(tx.gas_limit, 30_000);
    assert!(tx.input.is_empty());
    assert_eq!(&tx.to[18..], &[0x10u8, 0x07]);
}

#[test]
fn transfer_recipient_wraps_around() {
    let a = transfer_recipient_for(u64::MAX);
    assert_eq!(
        Address::from(a),
        Address::left_padding_from(&(u64::MAX.wrapping_add(0x1000)).to_be_bytes())
    );
    assert_eq!(a[19], 0xff);
    assert_eq!(a[18], 0x0f);
    assert_eq!(left_padded_address(0x0102), {
        let mut e = [0u8; 20];
        e[18] = 1;
        e[19] = 2;
        e
    });
    assert_eq!(zero_input(3), vec![0, 0, 0]);
}

#[test]
fn guzzler_selectors_match_signatures() {
    let cases = [
        (GuzzlerFunction::HashLoop, "hashLoop(uint256)"),
        (GuzzlerFunction::StorageWrite, "storageWrite(uint256)"),
        (GuzzlerFunction::StorageRead, "storageRead(uint256)"),
        (GuzzlerFunction::Guzzle, "guzzle(uint256)"),
        (GuzzlerFunction::Guzzle2, "guzzle2(uint256)"),
    ];
    for (f, sig) in cases {
        let data = encode_guzzler_calldata(f, 300);
        let hash = alloy_primitives::keccak256(sig.as_bytes());
        assert_eq!(&data[..4], &hash[..4], "{sig}");
        let mut expected = hash[..4].to_vec();
        expected.extend_from_slice(&U256::from(300u64).to_be_bytes::<32>());
        assert_eq!(data, expected);
    }
}

#[test]
fn guzzler_argument_adjustment() {
    assert_eq!(adjust_guzzler_arg(1000, 80), 800);
    assert_eq!(adjust_guzzler_arg(1000, 120), 1200);
    assert_eq!(adjust_guzzler_arg(0, 100), 1);
    assert_eq!(adjust_guzzler_arg(1, 80), 1);
    assert_eq!(adjust_guzzler_arg(u64::MAX, 120), u64::MAX / 100);
    assert_eq!(saturating_mul_u64(u64::MAX, 2), u64::MAX);
    assert_eq!(saturating_mul_u64(3, 4), 12);
    for _ in 0..50 {
        let call = prepare_guzzler_call(GuzzlerFunction::Guzzle, 1000);
        assert!((800..=1200).contains(&call.arg));
        assert_eq!(call.calldata, encode_guzzler_calldata(GuzzlerFunction::Guzzle, call.arg));
    }
}

#[test]
fn guzzler_gas_limit_prefers_cache_then_estimate() {
    assert_eq!(guzzler_call_gas_limit(Some(7), Some(100)), 7);
    assert_eq!(guzzler_call_gas_limit(None, Some(100)), 125);
    assert_eq!(guzzler_call_gas_limit(None, Some(u64::MAX)), u64::MAX / 4);
    assert_eq!(guzzler_call_gas_limit(None, None), GUZZLER_GAS_FALLBACK);
    assert_eq!(GUZZLER_GAS_FALLBACK, 10_000_000);
}

#[test]
fn guzzler_call_tx_fields() {
    let tx = make_guzzler_call_tx(3, GUZZLER_ADDRESS, 42, GuzzlerFunction::StorageWrite, 99);
    assert_eq!(tx.nonce, 3);
    assert_eq!(tx.gas_limit, 99);
    assert_eq!(tx.value, 0);
    assert_eq!(tx.to, GUZZLER_ADDRESS);
    assert_eq!(tx.input, encode_guzzler_calldata(GuzzlerFunction::StorageWrite, 42));
    let expected: Address = "0x45a834A6bB86F516D4157a8cBcc60f2F35F8398C".parse().unwrap();
    assert_eq!(Address::from(GUZZLER_ADDRESS), expected);

    let call = prepare_guzzler_call(GuzzlerFunction::HashLoop, 10);
    let tx = finish_guzzler_call_tx(1, GUZZLER_ADDRESS, &call, None, Some(8));
    assert_eq!(tx.gas_limit, 10);
    assert_eq!(tx.input, call.calldata);
}

#[test]
fn abi_wrappers_encode_as_alloy_does() {
    assert_eq!(abi_encode_bool(true), true.abi_encode());
    assert_eq!(abi_encode_bool(false)[31], 0);
    assert_eq!(abi_encode_bool(true)[31], 1);
    assert_eq!(abi_encode_str("hi"), "hi".abi_encode());
    assert_eq!(abi_encode_str("").len(), 64);
    let w = abi_encode_uint256(0x0102);
    assert_eq!(w.len(), 32);
    assert_eq!(&w[30..], &[1u8, 2]);
}

#[test]
fn abi_triple_decoding() {
    let args = (
        alloy_primitives::Bytes::from(vec![1u8, 2]),
        alloy_primitives::Bytes::from(vec![]),
        alloy_primitives::Bytes::from(vec![9u8; 40]),
    );
    let data =
        <(sol_data::Bytes, sol_data::Bytes, sol_data::Bytes) as SolType>::abi_encode_sequence(&args);
    let (a, b, c) = abi_decode_bytes_triple(&data).expect("valid encoding");
    assert_eq!(a, vec![1, 2]);
    assert!(b.is_empty());
    assert_eq!(c, vec![9u8; 40]);
    assert!(abi_decode_bytes_triple(&data[..10]).is_none());
    assert!(abi_decode_bytes_triple(&[]).is_none());
}

#[test]
fn transfer_gas_limit_bound() {
    assert!(gas_limit_fits(0));
    assert!(gas_limit_fits(1_000_000));
    let max = ((u64::MAX - 30_000) / 16) as usize;
    assert!(gas_limit_fits(max));
    assert!(!gas_limit_fits(max + 1));
}

#[test]
fn transfer_recipient_stays_clear_of_precompiles() {
    for nonce in [0u64, 5, 0xffff, u64::MAX - 0x1000] {
        let a = transfer_recipient_for(nonce);
        let value = U256::from_be_slice(&a);
        assert_eq!(value, U256::from(nonce) + U256::from(0x1000u64));
        assert!(value >= U256::from(0x1000u64));
    }
    // once the addition wraps the promise no longer holds: the zero address
    assert_eq!(transfer_recipient_for(u64::MAX - 0xfff), [0u8; 20]);
}
