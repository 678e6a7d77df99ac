//! Transactions built by the load generator: native transfers (EIP-1559 and
//! legacy) and calls of the gas-guzzling contract, with their fee settings,
//! gas limits and call data.
use vstd::prelude::*;
use crate::abi::{
    abi_encode_uint256, abi_word, be_value, lemma_be_value_leading_zeros, lemma_u64_be_bytes_value,
    u64_be_bytes, zero_bytes,
};
use crate::config::GuzzlerFunction;
use crate::random::random_in_range;

verus! {

/// Chain id of the local test network.
pub const TESTNET_CHAIN_ID: u64 = 1337;

/// Max fee per gas (in wei) of every generated transaction: twice the
/// 20,000 gwei base-fee ceiling of the test network.
pub const MAX_FEE_PER_GAS: u128 = 40_000 * 1_000_000_000;

/// Max priority fee per gas (tip) in wei.
pub const MAX_PRIORITY_FEE_PER_GAS: u128 = 1_000_000_000;

/// Value of a native transfer: 0.01 ether in wei.
pub const TRANSFER_VALUE: u128 = 10_000_000_000_000_000;

/// Gas of a transfer without input (Arc needs about 26k for the blocklist
/// check).
pub const TRANSFER_BASE_GAS: u64 = 30_000;

/// Gas per input byte of a transfer.
pub const INPUT_BYTE_GAS: u64 = 16;

/// Address of the gas-guzzling contract,
/// `0x45a834A6bB86F516D4157a8cBcc60f2F35F8398C`.
pub const GUZZLER_ADDRESS: [u8; 20] = [
    0x45u8, 0xa8u8, 0x34u8, 0xA6u8, 0xbBu8, 0x86u8, 0xF5u8, 0x16u8, 0xD4u8, 0x15u8,
    0x7au8, 0x8cu8, 0xBcu8, 0xc6u8, 0x0fu8, 0x2Fu8, 0x35u8, 0xF8u8, 0x39u8, 0x8Cu8,
];

/// Gas limit of a guzzler call when estimation fails.
pub const GUZZLER_GAS_FALLBACK: u64 = 10_000_000;

/// Multiplier applied to cached gas estimates.
pub const GAS_CACHE_BUFFER: u64 = 2;

/// Safety margin (5/4) applied to a per-call gas estimate.
pub const GAS_ESTIMATE_MARGIN_NUM: u64 = 5;
pub const GAS_ESTIMATE_MARGIN_DEN: u64 = 4;

/// An EIP-1559 transaction calling or paying `to`.
#[derive(Debug)]
pub struct TxEip1559 {
    pub chain_id: u64,
    pub nonce: u64,
    pub max_priority_fee_per_gas: u128,
    pub max_fee_per_gas: u128,
    pub gas_limit: u64,
    pub to: [u8; 20],
    pub value: u128,
    pub input: Vec<u8>,
}

/// A legacy (type 0) transaction paying `to`.
#[derive(Debug)]
pub struct TxLegacy {
    pub chain_id: Option<u64>,
    pub nonce: u64,
    pub gas_price: u128,
    pub gas_limit: u64,
    pub to: [u8; 20],
    pub value: u128,
    pub input: Vec<u8>,
}

/// `x * y`, or `u64::MAX` when the product does not fit.
pub open spec fn saturating_mul(x: u64, y: u64) -> u64 {
    if x * y > u64::MAX { u64::MAX } else { (x * y) as u64 }
}

/// `x * y` clamped to `u64::MAX`.
pub fn saturating_mul_u64(x: u64, y: u64) -> (r: u64)
    ensures
        r == saturating_mul(x, y),
{
    match x.checked_mul(y) {
        Some(p) => p,
        None => u64::MAX,
    }
}

/// `x + y` modulo 2^64.
pub open spec fn wrapping_add(x: u64, y: u64) -> u64 {
    if x + y > u64::MAX { (x + y - 0x1_0000_0000_0000_0000) as u64 } else { (x + y) as u64 }
}

/// Recipient of a transfer with nonce `nonce`: the address whose last eight
/// bytes are `nonce + 0x1000` (wrapping) in big-endian, which keeps clear of
/// the zero address and of Ethereum's precompiles.
pub open spec fn transfer_recipient(nonce: u64) -> Seq<u8> {
    zero_bytes(12) + u64_be_bytes(wrapping_add(nonce, 0x1000))
}

/// A transfer goes to the address whose big-endian value is
/// `nonce + 0x1000`, so clear of the zero address and of Ethereum's
/// precompiles (all below `0x1000`), as long as the addition does not wrap.
pub proof fn lemma_transfer_recipient_clear_of_precompiles(nonce: u64)
    requires
        nonce <= u64::MAX - 0x1000,
    ensures
        be_value(transfer_recipient(nonce)) == nonce + 0x1000,
        be_value(transfer_recipient(nonce)) >= 0x1000,
{
    lemma_be_value_leading_zeros(12, u64_be_bytes(wrapping_add(nonce, 0x1000)));
    lemma_u64_be_bytes_value(wrapping_add(nonce, 0x1000));
}

/// Gas limit of a transfer carrying `input_size` bytes of input.
pub open spec fn transfer_gas_limit(input_size: nat) -> int {
    TRANSFER_BASE_GAS + INPUT_BYTE_GAS * input_size
}

/// Whether a transfer's gas limit for `input_size` input bytes fits in a
/// `u64`.
pub open spec fn input_size_fits(input_size: nat) -> bool {
    transfer_gas_limit(input_size) <= u64::MAX
}

/// Whether the transfer gas limit for `input_size` input bytes fits in a
/// `u64`.
pub fn gas_limit_fits(input_size: usize) -> (b: bool)
    ensures
        b == input_size_fits(input_size as nat),
{
    input_size as u64 <= (u64::MAX - TRANSFER_BASE_GAS) / INPUT_BYTE_GAS
}

/// The 20-byte address whose last eight bytes are `x` in big-endian.
pub fn left_padded_address(x: u64) -> (a: [u8; 20])
    ensures
        a@ == zero_bytes(12) + u64_be_bytes(x),
{
    let a = [
        0u8, 0u8, 0u8, 0u8, 0u8, 0u8, 0u8, 0u8, 0u8, 0u8, 0u8, 0u8,
        ((x >> 56u64) & 0xffu64) as u8,
        ((x >> 48u64) & 0xffu64) as u8,
        ((x >> 40u64) & 0xffu64) as u8,
        ((x >> 32u64) & 0xffu64) as u8,
        ((x >> 24u64) & 0xffu64) as u8,
        ((x >> 16u64) & 0xffu64) as u8,
        ((x >> 8u64) & 0xffu64) as u8,
        (x & 0xffu64) as u8,
    ];
    assert(a@ =~= zero_bytes(12) + u64_be_bytes(x));
    a
}

/// `n` zero bytes.
pub fn zero_input(n: usize) -> (v: Vec<u8>)
    ensures
        v@ == zero_bytes(n as nat),
{
    let mut v: Vec<u8> = Vec::with_capacity(n);
    let mut i: usize = 0;
    while i < n
        invariant
            0 <= i <= n,
            v@ == zero_bytes(i as nat),
        decreases n - i,
    {
        v.push(0u8);
        i = i + 1;
        assert(v@ =~= zero_bytes(i as nat));
    }
    v
}

/// The transfer recipient for `nonce`.
pub fn transfer_recipient_for(nonce: u64) -> (a: [u8; 20])
    ensures
        a@ == transfer_recipient(nonce),
{
    let target: u64 = if nonce <= u64::MAX - 0x1000 { nonce + 0x1000 } else { nonce - (u64::MAX - 0x1000) - 1 };
    left_padded_address(target)
}

/// Creates an EIP-1559 value transfer of 0.01 ether carrying `input_size`
/// zero bytes of input.
pub fn make_eip1559_tx(input_size: usize, nonce: u64) -> (tx: TxEip1559)
    requires
        input_size_fits(input_size as nat),
    ensures
        tx.chain_id == TESTNET_CHAIN_ID,
        tx.nonce == nonce,
        tx.max_priority_fee_per_gas == MAX_PRIORITY_FEE_PER_GAS,
        tx.max_fee_per_gas == MAX_FEE_PER_GAS,
        tx.gas_limit == transfer_gas_limit(input_size as nat),
        tx.gas_limit == 30_000 + 16 * input_size,
        tx.to@ == transfer_recipient(nonce),
        tx.value == TRANSFER_VALUE,
        tx.input@ == zero_bytes(input_size as nat),
{
    let input = zero_input(input_size);
    let input_gas: u64 = input.len() as u64 * INPUT_BYTE_GAS;
    TxEip1559 {
        chain_id: TESTNET_CHAIN_ID,
        nonce,
        max_priority_fee_per_gas: MAX_PRIORITY_FEE_PER_GAS,
        max_fee_per_gas: MAX_FEE_PER_GAS,
        gas_limit: TRANSFER_BASE_GAS + input_gas,
        to: transfer_recipient_for(nonce),
        value: TRANSFER_VALUE,
        input,
    }
}

/// Creates a legacy value transfer of 0.01 ether carrying `input_size` zero
/// bytes of input, priced at the max fee.
pub fn make_legacy_tx(input_size: usize, nonce: u64) -> (tx: TxLegacy)
    requires
        input_size_fits(input_size as nat),
    ensures
        tx.chain_id == Some(TESTNET_CHAIN_ID),
        tx.nonce == nonce,
        tx.gas_price == MAX_FEE_PER_GAS,
        tx.gas_limit == transfer_gas_limit(input_size as nat),
        tx.gas_limit == 30_000 + 16 * input_size,
        tx.to@ == transfer_recipient(nonce),
        tx.value == TRANSFER_VALUE,
        tx.input@ == zero_bytes(input_size as nat),
{
    let input = zero_input(input_size);
    let input_gas: u64 = input.len() as u64 * INPUT_BYTE_GAS;
    TxLegacy {
        chain_id: Some(TESTNET_CHAIN_ID),
        nonce,
        gas_price: MAX_FEE_PER_GAS,
        gas_limit: TRANSFER_BASE_GAS + input_gas,
        to: transfer_recipient_for(nonce),
        value: TRANSFER_VALUE,
        input,
    }
}

/// Selector of a guzzler function: the first four bytes of the Keccak-256
/// hash of `hashLoop(uint256)`, `storageWrite(uint256)`,
/// `storageRead(uint256)`, `guzzle(uint256)` or `guzzle2(uint256)`.
pub open spec fn guzzler_selector(f: GuzzlerFunction) -> Seq<u8> {
    match f {
        GuzzlerFunction::HashLoop => seq![0x67u8, 0x15u8, 0x13u8, 0x19u8],
        GuzzlerFunction::StorageWrite => seq![0xcau8, 0xedu8, 0xa9u8, 0xa6u8],
        GuzzlerFunction::StorageRead => seq![0x66u8, 0x5cu8, 0x5bu8, 0x98u8],
        GuzzlerFunction::Guzzle => seq![0xcbu8, 0x1eu8, 0xd5u8, 0x18u8],
        GuzzlerFunction::Guzzle2 => seq![0x86u8, 0xfdu8, 0xb4u8, 0xd3u8],
    }
}

/// Call data of a guzzler function called with the `uint256` argument `arg`.
pub open spec fn guzzler_calldata(f: GuzzlerFunction, arg: u64) -> Seq<u8> {
    guzzler_selector(f) + abi_word(arg)
}

/// ABI-encodes the call of guzzler function `f` with argument `arg`.
pub fn encode_guzzler_calldata(f: GuzzlerFunction, arg: u64) -> (data: Vec<u8>)
    ensures
        data@ == guzzler_calldata(f, arg),
{
    let selector: [u8; 4] = match f {
        GuzzlerFunction::HashLoop => [0x67u8, 0x15u8, 0x13u8, 0x19u8],
        GuzzlerFunction::StorageWrite => [0xcau8, 0xedu8, 0xa9u8, 0xa6u8],
        GuzzlerFunction::StorageRead => [0x66u8, 0x5cu8, 0x5bu8, 0x98u8],
        GuzzlerFunction::Guzzle => [0xcbu8, 0x1eu8, 0xd5u8, 0x18u8],
        GuzzlerFunction::Guzzle2 => [0x86u8, 0xfdu8, 0xb4u8, 0xd3u8],
    };
    assert(selector@ =~= guzzler_selector(f));
    let word = abi_encode_uint256(arg);
    let mut data: Vec<u8> = Vec::with_capacity(36);
    data.push(selector[0]);
    data.push(selector[1]);
    data.push(selector[2]);
    data.push(selector[3]);
    assert(data@ =~= guzzler_selector(f));
    let mut i: usize = 0;
    while i < word.len()
        invariant
            0 <= i <= word@.len(),
            data@ == guzzler_selector(f) + word@.subrange(0, i as int),
        decreases word@.len() - i,
    {
        data.push(word[i]);
        i = i + 1;
        assert(word@.subrange(0, i as int) == word@.subrange(0, i - 1).push(word@[i - 1]));
    }
    assert(word@.subrange(0, word@.len() as int) == word@);
    data
}

/// Guzzler argument after a random adjustment by `factor` percent:
/// `base * factor / 100` (saturating), at least 1.
pub open spec fn adjusted_guzzler_arg(base: u64, factor: u64) -> u64 {
    let scaled = saturating_mul(base, factor) / 100;
    if scaled < 1 { 1 } else { scaled }
}

/// Gas limit of a guzzler call: the cached limit when there is one, else the
/// estimate with a 5/4 margin (saturating), else the fallback.
pub open spec fn guzzler_gas_limit(cached_gas: Option<u64>, estimate: Option<u64>) -> u64 {
    match cached_gas {
        Some(g) => g,
        None => match estimate {
            Some(e) => saturating_mul(e, GAS_ESTIMATE_MARGIN_NUM) / GAS_ESTIMATE_MARGIN_DEN,
            None => GUZZLER_GAS_FALLBACK,
        },
    }
}

/// Where a guzzler call's gas limit comes from: a cached limit is used
/// whatever the estimate; without one, the estimate with a 5/4 margin
/// (clamped at `u64::MAX` before dividing); without either, 10,000,000.
pub proof fn lemma_guzzler_gas_limit_sources(cached_gas: Option<u64>, estimate: Option<u64>)
    ensures
        cached_gas matches Some(c) ==> guzzler_gas_limit(cached_gas, estimate) == c,
        cached_gas is None && estimate is None ==> guzzler_gas_limit(cached_gas, estimate) == 10_000_000,
        cached_gas is None ==> (estimate matches Some(e) ==> {
            &&& e * 5 <= u64::MAX ==> guzzler_gas_limit(cached_gas, estimate) == e * 5 / 4
            &&& e * 5 > u64::MAX ==> guzzler_gas_limit(cached_gas, estimate) == u64::MAX / 4
        }),
{
}

/// A guzzler argument adjusted by a factor of 80..=120 percent is at least 1
/// and, when the product does not overflow, lies between 80% and 120% of the
/// configured argument (rounded down).
pub proof fn lemma_adjusted_arg_bounds(base: u64, factor: u64)
    requires
        80 <= factor <= 120,
    ensures
        adjusted_guzzler_arg(base, factor) >= 1,
        base * 120 <= u64::MAX ==> {
            &&& adjusted_guzzler_arg(base, factor) >= base * 80 / 100
            &&& base * 120 >= 100 ==> adjusted_guzzler_arg(base, factor) <= base * 120 / 100
        },
{
    if base * 120 <= u64::MAX {
        assert(base * factor <= base * 120) by (nonlinear_arith)
            requires factor <= 120;
        assert(base * 80 <= base * factor) by (nonlinear_arith)
            requires 80 <= factor;
        assert(base * 80 / 100 <= base * factor / 100) by (nonlinear_arith)
            requires base * 80 <= base * factor;
        assert(base * factor / 100 <= base * 120 / 100) by (nonlinear_arith)
            requires base * factor <= base * 120;
        assert(base * 120 >= 100 ==> base * 120 / 100 >= 1) by (nonlinear_arith);
    }
}

/// The guzzler argument scaled by `factor` percent, at least 1.
pub fn adjust_guzzler_arg(base: u64, factor: u64) -> (a: u64)
    ensures
        a == adjusted_guzzler_arg(base, factor),
{
    let scaled = saturating_mul_u64(base, factor) / 100;
    if scaled < 1 { 1 } else { scaled }
}

/// Gas limit of a guzzler call from a cached limit or a fresh estimate.
pub fn guzzler_call_gas_limit(cached_gas: Option<u64>, estimate: Option<u64>) -> (g: u64)
    ensures
        g == guzzler_gas_limit(cached_gas, estimate),
        cached_gas matches Some(c) ==> g == c,
        cached_gas is None && estimate is None ==> g == 10_000_000,
        cached_gas is None ==> (estimate matches Some(e) ==> {
            &&& e * 5 <= u64::MAX ==> g == e * 5 / 4
            &&& e * 5 > u64::MAX ==> g == u64::MAX / 4
        }),
{
    match cached_gas {
        Some(g) => g,
        None => match estimate {
            Some(e) => saturating_mul_u64(e, GAS_ESTIMATE_MARGIN_NUM) / GAS_ESTIMATE_MARGIN_DEN,
            None => GUZZLER_GAS_FALLBACK,
        },
    }
}

/// A guzzler call about to be sent: its argument after a random adjustment
/// of -20%..+20% and the matching call data.
pub struct GuzzlerCall {
    pub function: GuzzlerFunction,
    pub arg: u64,
    pub calldata: Vec<u8>,
}

/// Draws the -20%..+20% adjustment of a guzzler call's argument and encodes
/// the call.
pub fn prepare_guzzler_call(f: GuzzlerFunction, base_arg: u64) -> (c: GuzzlerCall)
    ensures
        c.function == f,
        exists|factor: u64| 80 <= factor <= 120 && c.arg == adjusted_guzzler_arg(base_arg, factor),
        c.calldata@ == guzzler_calldata(f, c.arg),
{
    let factor = random_in_range(80, 121);
    let arg = adjust_guzzler_arg(base_arg, factor);
    let calldata = encode_guzzler_calldata(f, arg);
    GuzzlerCall { function: f, arg, calldata }
}

/// Creates an EIP-1559 transaction that calls guzzler function `f` with
/// argument `arg` at `addr`.
pub fn make_guzzler_call_tx(nonce: u64, addr: [u8; 20], arg: u64, f: GuzzlerFunction, gas_limit: u64) -> (tx: TxEip1559)
    ensures
        tx.chain_id == TESTNET_CHAIN_ID,
        tx.nonce == nonce,
        tx.max_priority_fee_per_gas == MAX_PRIORITY_FEE_PER_GAS,
        tx.max_fee_per_gas == MAX_FEE_PER_GAS,
        tx.gas_limit == gas_limit,
        tx.to == addr,
        tx.value == 0,
        tx.input@ == guzzler_calldata(f, arg),
{
    TxEip1559 {
        chain_id: TESTNET_CHAIN_ID,
        nonce,
        max_priority_fee_per_gas: MAX_PRIORITY_FEE_PER_GAS,
        max_fee_per_gas: MAX_FEE_PER_GAS,
        gas_limit,
        to: addr,
        value: 0,
        input: encode_guzzler_calldata(f, arg),
    }
}

/// Finishes a prepared guzzler call once the gas question is settled: the
/// cached limit when there is one, else the estimate (if any) with its
/// margin, else the fallback.
pub fn finish_guzzler_call_tx(
    nonce: u64,
    contract: [u8; 20],
    call: &GuzzlerCall,
    cached_gas: Option<u64>,
    estimate: Option<u64>,
) -> (tx: TxEip1559)
    ensures
        tx.chain_id == TESTNET_CHAIN_ID,
        tx.nonce == nonce,
        tx.max_priority_fee_per_gas == MAX_PRIORITY_FEE_PER_GAS,
        tx.max_fee_per_gas == MAX_FEE_PER_GAS,
        tx.gas_limit == guzzler_gas_limit(cached_gas, estimate),
        cached_gas matches Some(c) ==> tx.gas_limit == c,
        tx.to == contract,
        tx.value == 0,
        tx.input@ == guzzler_calldata(call.function, call.arg),
{
    let gas_limit = guzzler_call_gas_limit(cached_gas, estimate);
    make_guzzler_call_tx(nonce, contract, call.arg, call.function, gas_limit)
}

} // verus!
