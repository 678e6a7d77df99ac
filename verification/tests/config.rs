use arc_node::config::{
    pick_bucket, Erc20FnWeights, Erc20Function, GuzzlerFnWeights, GuzzlerFunction, TxType,
    TxTypeMix,
};

#[test]
fn picks_fall_into_weighted_buckets() {
    let w = [0u64, 5, 3];
    assert_eq!(pick_bucket(&w, 0), Some(1));
    assert_eq!(pick_bucket(&w, 4), Some(1));
    assert_eq!(pick_bucket(&w, 5), Some(2));
    assert_eq!(pick_bucket(&w, 7), Some(2));
    assert_eq!(pick_bucket(&w, 8), None);
    assert_eq!(pick_bucket(&[], 0), None);
}

#[test]
fn tx_mix_total_and_buckets() {
    let mix = TxTypeMix {
        transfer: 1,
        erc20: 2,
        guzzler: 3,
        legacy: 4,
    };
    assert_eq!(mix.checked_total_weight(), Some(10));
    assert_eq!(mix.kind_for_pick(0), TxType::Transfer);
    assert_eq!(mix.kind_for_pick(1), TxType::Erc20);
    assert_eq!(mix.kind_for_pick(2), TxType::Erc20);
    assert_eq!(mix.kind_for_pick(3), TxType::Guzzler);
    assert_eq!(mix.kind_for_pick(6), TxType::Legacy);
    assert_eq!(mix.kind_for_pick(9), TxType::Legacy);
    assert_eq!(mix.kind_for_pick(10), TxType::Transfer);
    let big = TxTypeMix {
        transfer: u32::MAX,
        erc20: 0,
        guzzler: 1,
        legacy: 0,
    };
    assert_eq!(big.checked_total_weight(), None);
    let max = TxTypeMix {
        transfer: u32::MAX,
        ..Default::default()
    };
    assert_eq!(max.checked_total_weight(), Some(u32::MAX));
}

#[test]
fn erc20_weights() {
    let w = Erc20FnWeights {
        transfer: 0,
        approve: 2,
        transfer_from: 1,
    };
    assert_eq!(w.total_weight(), 3);
    assert_eq!(w.function_for_pick(0), Erc20Function::Approve);
    assert_eq!(w.function_for_pick(2), Erc20Function::TransferFrom);
    assert_eq!(w.function_for_pick(3), Erc20Function::Transfer);
    assert_eq!(
        w.buckets(),
        [
            (Erc20Function::Transfer, 0),
            (Erc20Function::Approve, 2),
            (Erc20Function::TransferFrom, 1)
        ]
    );
}

#[test]
fn guzzler_weights_and_arguments() {
    let w = GuzzlerFnWeights {
        hash_loop: u32::MAX,
        storage_write: u32::MAX,
        storage_read: u32::MAX,
        guzzle: u32::MAX,
        guzzle2: 1,
        hash_loop_arg: 1,
        storage_write_arg: 2,
        storage_read_arg: 3,
        guzzle_arg: 4,
        guzzle2_arg: 5,
    };
    assert_eq!(w.total_weight(), 4 * u32::MAX as u64 + 1);
    assert_eq!(w.function_for_pick(4 * u32::MAX as u64), GuzzlerFunction::Guzzle2);
    assert_eq!(w.function_for_pick(u32::MAX as u64), GuzzlerFunction::StorageWrite);
    assert_eq!(w.arg_for(GuzzlerFunction::HashLoop), 1);
    assert_eq!(w.arg_for(GuzzlerFunction::StorageRead), 3);
    assert_eq!(w.arg_for(GuzzlerFunction::Guzzle2), 5);
    assert_eq!(w.buckets()[3], (GuzzlerFunction::Guzzle, u32::MAX));
    assert_eq!(GuzzlerFnWeights::default().function_for_pick(0), GuzzlerFunction::HashLoop);
}
