//! The post-quantum signature precompile: verifies an SLH-DSA-SHA2-128s
//! signature passed as the ABI call
//! `verifySlhDsaSha2128s(bytes vk, bytes message, bytes sig) returns (bool)`.
//!
//! Gas: failures before the arguments are decoded (short input, wrong
//! selector, malformed ABI payload) charge a 200-gas penalty and halt out of
//! gas when the caller has less than that; a decoded call charges 230,000 base
//! gas plus 6 per 32-byte word of the message, then reverts on a wrong key or
//! signature length, and otherwise returns the ABI-encoded verification
//! result.
use vstd::prelude::*;
use vstd::slice::slice_subrange;
use vstd::string::StringSliceAdditionalSpecFns;
use crate::abi::{
    abi_bool_word, abi_decode_bytes_triple, abi_decoded_bytes_triple, abi_dynamic_bytes,
    abi_encode_bool, abi_encode_str,
};
use crate::gas::GasCounter;
use crate::slh::{slh_dsa_sha2_128s_verifies, slh_dsa_verify, SlhVerification, SIG_LEN, VK_LEN};

verus! {

/// Address of the PQ precompile, `0x1800000000000000000000000000000000000004`.
pub const PQ_ADDRESS: [u8; 20] = [
    0x18u8, 0u8, 0u8, 0u8, 0u8, 0u8, 0u8, 0u8, 0u8, 0u8,
    0u8, 0u8, 0u8, 0u8, 0u8, 0u8, 0u8, 0u8, 0u8, 0x04u8,
];

/// Base gas for SLH-DSA-SHA2-128s verification.
pub const VERIFY_BASE_GAS: u64 = 230_000;

/// Gas per 32-byte word of message input (the KECCAK256 per-word rate).
pub const GAS_PER_MSG_WORD: u64 = 6;

/// Gas charged when the call fails before its arguments are decoded.
pub const EARLY_REVERT_GAS: u64 = 200;

/// Function selector of `verifySlhDsaSha2128s(bytes,bytes,bytes)`.
pub const VERIFY_SELECTOR: [u8; 4] = [0xbfu8, 0x4du8, 0xb8u8, 0xbau8];

/// Selector of the Solidity `Error(string)` revert payload.
pub const REVERT_SELECTOR: [u8; 4] = [0x08u8, 0xc3u8, 0x79u8, 0xa0u8];

/// The fatal precompile error type of `revm`; this precompile never returns
/// one.
#[verifier::external_type_specification]
#[verifier::external_body]
pub struct ExPrecompileError(revm::precompile::PrecompileError);

/// Reason for a halt.
#[derive(PartialEq, Eq, Structural, Clone, Copy, Debug)]
pub enum PrecompileHalt {
    OutOfGas,
}

/// How a precompile call ended.
#[derive(PartialEq, Eq, Structural, Clone, Copy, Debug)]
pub enum PrecompileStatus {
    Success,
    Revert,
    Halt(PrecompileHalt),
}

/// Result of a precompile call: status, regular gas used, the state-gas
/// reservoir handed back unchanged, and the output bytes.
#[derive(Debug)]
pub struct PrecompileOutput {
    pub status: PrecompileStatus,
    pub gas_used: u64,
    pub reservoir: u64,
    pub bytes: Vec<u8>,
}

impl View for PrecompileOutput {
    type V = (PrecompileStatus, u64, u64, Seq<u8>);

    open spec fn view(&self) -> (PrecompileStatus, u64, u64, Seq<u8>) {
        (self.status, self.gas_used, self.reservoir, self.bytes@)
    }
}

impl PrecompileOutput {
    /// A successful output.
    pub fn new(gas_used: u64, bytes: Vec<u8>, reservoir: u64) -> (o: Self)
        ensures
            o@ == (PrecompileStatus::Success, gas_used, reservoir, bytes@),
    {
        PrecompileOutput { status: PrecompileStatus::Success, gas_used, reservoir, bytes }
    }

    /// A reverted output; `gas_used` is charged and `bytes` is the revert data.
    pub fn revert(gas_used: u64, bytes: Vec<u8>, reservoir: u64) -> (o: Self)
        ensures
            o@ == (PrecompileStatus::Revert, gas_used, reservoir, bytes@),
    {
        PrecompileOutput { status: PrecompileStatus::Revert, gas_used, reservoir, bytes }
    }

    /// A halted output: no gas is reported used and there is no output.
    pub fn halt(reason: PrecompileHalt, reservoir: u64) -> (o: Self)
        ensures
            o@ == (PrecompileStatus::Halt(reason), 0u64, reservoir, Seq::<u8>::empty()),
    {
        PrecompileOutput { status: PrecompileStatus::Halt(reason), gas_used: 0, reservoir, bytes: Vec::new() }
    }

    pub fn is_success(&self) -> (b: bool)
        ensures
            b == (self.status == PrecompileStatus::Success),
    {
        matches!(self.status, PrecompileStatus::Success)
    }

    pub fn is_revert(&self) -> (b: bool)
        ensures
            b == (self.status == PrecompileStatus::Revert),
    {
        matches!(self.status, PrecompileStatus::Revert)
    }

    pub fn is_halt(&self) -> (b: bool)
        ensures
            b == (self.status is Halt),
    {
        matches!(self.status, PrecompileStatus::Halt(_))
    }
}

/// The selector bytes as a sequence.
pub open spec fn verify_selector() -> Seq<u8> {
    seq![0xbfu8, 0x4du8, 0xb8u8, 0xbau8]
}

/// Revert data carrying the message `msg`: the `Error(string)` selector
/// followed by the ABI encoding of the message.
pub open spec fn revert_data(msg: Seq<u8>) -> Seq<u8> {
    seq![0x08u8, 0xc3u8, 0x79u8, 0xa0u8] + abi_dynamic_bytes(msg)
}

pub open spec fn halted_out_of_gas(reservoir: u64) -> (PrecompileStatus, u64, u64, Seq<u8>) {
    (PrecompileStatus::Halt(PrecompileHalt::OutOfGas), 0u64, reservoir, Seq::<u8>::empty())
}

pub open spec fn reverted(gas_used: u64, msg: Seq<u8>, reservoir: u64) -> (PrecompileStatus, u64, u64, Seq<u8>) {
    (PrecompileStatus::Revert, gas_used, reservoir, revert_data(msg))
}

/// Outcome of a failure before decoding: the penalty is charged, or the call
/// halts out of gas when the penalty is not affordable.
pub open spec fn early_revert_result(gas: u64, msg: Seq<u8>, reservoir: u64) -> (PrecompileStatus, u64, u64, Seq<u8>) {
    if gas < EARLY_REVERT_GAS {
        halted_out_of_gas(reservoir)
    } else {
        reverted(EARLY_REVERT_GAS, msg, reservoir)
    }
}

/// Gas for the message: `GAS_PER_MSG_WORD` per started 32-byte word.
pub open spec fn message_word_gas(len: nat) -> int {
    ((len + 31) / 32) * (GAS_PER_MSG_WORD as int)
}

/// Outcome of the verification stage for decoded arguments `(vk, msg, sig)`
/// when `gas` is available.
pub open spec fn verification_result(
    gas: u64,
    vk: Seq<u8>,
    msg: Seq<u8>,
    sig: Seq<u8>,
    reservoir: u64,
) -> (PrecompileStatus, u64, u64, Seq<u8>) {
    if gas < VERIFY_BASE_GAS || gas - VERIFY_BASE_GAS < message_word_gas(msg.len()) {
        halted_out_of_gas(reservoir)
    } else {
        let used = (VERIFY_BASE_GAS + message_word_gas(msg.len())) as u64;
        if vk.len() != VK_LEN {
            reverted(used, "Invalid verifying key length".spec_bytes(), reservoir)
        } else if sig.len() != SIG_LEN {
            reverted(used, "Invalid signature length".spec_bytes(), reservoir)
        } else {
            (PrecompileStatus::Success, used, reservoir, abi_bool_word(slh_dsa_sha2_128s_verifies(vk, msg, sig)))
        }
    }
}

/// Outcome of the precompile on call data `data` with `gas` available.
pub open spec fn pq_precompile_result(gas: u64, data: Seq<u8>, reservoir: u64) -> (PrecompileStatus, u64, u64, Seq<u8>) {
    if data.len() < 4 {
        early_revert_result(gas, "Input too short".spec_bytes(), reservoir)
    } else if data.subrange(0, 4) != verify_selector() {
        early_revert_result(gas, "Invalid selector".spec_bytes(), reservoir)
    } else {
        match abi_decoded_bytes_triple(data.subrange(4, data.len() as int)) {
            None => early_revert_result(gas, "Execution reverted".spec_bytes(), reservoir),
            Some(args) => verification_result(gas, args.0, args.1, args.2, reservoir),
        }
    }
}

/// No call is free and none is charged more than it brought: an answer
/// other than an out-of-gas halt charges at least the early-failure
/// penalty, a halt charges nothing, and the gas charged never exceeds the
/// gas available.
pub proof fn lemma_pq_gas_bounds(gas: u64, data: Seq<u8>, reservoir: u64)
    ensures
        !(pq_precompile_result(gas, data, reservoir).0 is Halt)
            ==> pq_precompile_result(gas, data, reservoir).1 >= EARLY_REVERT_GAS,
        pq_precompile_result(gas, data, reservoir).0 is Halt ==> pq_precompile_result(gas, data, reservoir).1 == 0,
        pq_precompile_result(gas, data, reservoir).1 <= gas,
        pq_precompile_result(gas, data, reservoir).2 == reservoir,
{
    if data.len() >= 4 && data.subrange(0, 4) == verify_selector() {
        if let Some(args) = abi_decoded_bytes_triple(data.subrange(4, data.len() as int)) {
            assert(message_word_gas(args.1.len()) >= 0) by (nonlinear_arith)
                requires GAS_PER_MSG_WORD == 6;
        }
    }
}

/// A decoded call whose key and signature have the right lengths, given
/// enough gas, succeeds: it is charged 230,000 gas plus 6 per started
/// 32-byte word of the whole message, hands the reservoir back, and answers
/// with one ABI word that is 1 exactly when the signature is valid for the
/// key and the whole message.
pub proof fn lemma_verdict_covers_whole_message(gas: u64, vk: Seq<u8>, msg: Seq<u8>, sig: Seq<u8>, reservoir: u64)
    requires
        vk.len() == 32,
        sig.len() == 7856,
        gas >= 230_000 + 6 * ((msg.len() + 31) / 32),
    ensures
        ({
            let o = verification_result(gas, vk, msg, sig, reservoir);
            &&& o.0 == PrecompileStatus::Success
            &&& o.1 == 230_000 + 6 * ((msg.len() + 31) / 32)
            &&& o.2 == reservoir
            &&& o.3.len() == 32
            &&& forall|k: int| 0 <= k < 31 ==> o.3[k] == 0
            &&& o.3[31] == (if slh_dsa_sha2_128s_verifies(vk, msg, sig) { 1u8 } else { 0u8 })
        }),
{
    assert(message_word_gas(msg.len()) == 6 * ((msg.len() + 31) / 32));
    let b = abi_bool_word(slh_dsa_sha2_128s_verifies(vk, msg, sig));
    assert(b.len() == 32);
    assert(forall|k: int| 0 <= k < 31 ==> b[k] == 0);
}

/// A call to the verifier selector whose arguments decode is answered by the
/// verification of exactly the decoded key, message and signature, with all
/// the gas the call brought.
pub proof fn lemma_decoded_call_is_verified(gas: u64, data: Seq<u8>, reservoir: u64)
    requires
        data.len() >= 4,
        data.subrange(0, 4) == seq![0xbfu8, 0x4du8, 0xb8u8, 0xbau8],
        abi_decoded_bytes_triple(data.subrange(4, data.len() as int)) is Some,
    ensures
        ({
            let args = abi_decoded_bytes_triple(data.subrange(4, data.len() as int))->0;
            pq_precompile_result(gas, data, reservoir) == verification_result(gas, args.0, args.1, args.2, reservoir)
        }),
{
}

/// Revert data is the `Error(string)` selector `08c379a0`, the offset word
/// 32, a word holding the message length, and the message padded with zeros
/// to whole words.
pub proof fn lemma_revert_data_layout(msg: Seq<u8>)
    requires
        msg.len() <= u64::MAX,
    ensures
        revert_data(msg).len() == 68 + msg.len() + (32 - msg.len() % 32) % 32,
        revert_data(msg).subrange(0, 4) == seq![0x08u8, 0xc3u8, 0x79u8, 0xa0u8],
        revert_data(msg).subrange(4, 36) == crate::abi::abi_word(32),
        revert_data(msg).subrange(36, 68) == crate::abi::abi_word(msg.len() as u64),
        revert_data(msg).subrange(68, 68 + msg.len() as int) == msg,
        forall|k: int| 68 + msg.len() <= k < revert_data(msg).len() ==> revert_data(msg)[k] == 0,
{
    let r = revert_data(msg);
    let sel = seq![0x08u8, 0xc3u8, 0x79u8, 0xa0u8];
    let w1 = crate::abi::abi_word(32);
    let w2 = crate::abi::abi_word(msg.len() as u64);
    let pad = crate::abi::zero_bytes(crate::abi::word_padding(msg.len()));
    assert(r == sel + w1 + w2 + msg + pad);
    assert(w1.len() == 32);
    assert(w2.len() == 32);
    assert(r.subrange(0, 4) =~= sel);
    assert(r.subrange(4, 36) =~= w1);
    assert(r.subrange(36, 68) =~= w2);
    assert(r.subrange(68, 68 + msg.len() as int) =~= msg);
}

/// Failures before the arguments are decoded: input shorter than four bytes,
/// a selector other than `verifySlhDsaSha2128s(bytes,bytes,bytes)`, or
/// arguments that do not decode. Each charges exactly 200 gas and reverts
/// with its reason, or halts charging nothing when less than 200 gas is
/// available; the reservoir comes back unchanged.
pub proof fn lemma_early_failures(gas: u64, data: Seq<u8>, reservoir: u64)
    ensures
        ({
            let o = pq_precompile_result(gas, data, reservoir);
            let decoded = data.len() >= 4 && data.subrange(0, 4) == seq![0xbfu8, 0x4du8, 0xb8u8, 0xbau8]
                && abi_decoded_bytes_triple(data.subrange(4, data.len() as int)) is Some;
            &&& !decoded && gas < 200 ==> o == (PrecompileStatus::Halt(PrecompileHalt::OutOfGas), 0u64, reservoir, Seq::<u8>::empty())
            &&& !decoded && gas >= 200 ==> o.0 == PrecompileStatus::Revert && o.1 == 200 && o.2 == reservoir
            &&& data.len() < 4 && gas >= 200 ==> o.3 == revert_data("Input too short".spec_bytes())
            &&& data.len() >= 4 && data.subrange(0, 4) != seq![0xbfu8, 0x4du8, 0xb8u8, 0xbau8] && gas >= 200
                ==> o.3 == revert_data("Invalid selector".spec_bytes())
            &&& data.len() >= 4 && data.subrange(0, 4) == seq![0xbfu8, 0x4du8, 0xb8u8, 0xbau8]
                && abi_decoded_bytes_triple(data.subrange(4, data.len() as int)) is None && gas >= 200
                ==> o.3 == revert_data("Execution reverted".spec_bytes())
        }),
{
}

/// A decoded call is refused in order: without the base gas plus the
/// message's per-word gas it halts charging nothing; a key that is not 32
/// bytes, then a signature that is not 7,856 bytes, revert with their reason
/// after charging that gas.
pub proof fn lemma_decoded_call_refusals(gas: u64, vk: Seq<u8>, msg: Seq<u8>, sig: Seq<u8>, reservoir: u64)
    ensures
        ({
            let o = verification_result(gas, vk, msg, sig, reservoir);
            let need = 230_000 + 6 * ((msg.len() + 31) / 32);
            &&& gas < need ==> o == (PrecompileStatus::Halt(PrecompileHalt::OutOfGas), 0u64, reservoir, Seq::<u8>::empty())
            &&& gas >= need && vk.len() != 32 ==> o == (PrecompileStatus::Revert, need as u64, reservoir,
                revert_data("Invalid verifying key length".spec_bytes()))
            &&& gas >= need && vk.len() == 32 && sig.len() != 7856 ==> o == (PrecompileStatus::Revert, need as u64,
                reservoir, revert_data("Invalid signature length".spec_bytes()))
        }),
{
    assert(message_word_gas(msg.len()) == 6 * ((msg.len() + 31) / 32));
}

/// Builds the revert data for `msg`: the `Error(string)` selector followed by
/// the ABI-encoded message.
pub fn revert_message_to_bytes(msg: &str) -> (r: Vec<u8>)
    ensures
        r@ == revert_data(msg.spec_bytes()),
{
    let encoded = abi_encode_str(msg);
    let mut result: Vec<u8> = Vec::with_capacity(REVERT_SELECTOR.len().saturating_add(encoded.len()));
    result.push(0x08u8);
    result.push(0xc3u8);
    result.push(0x79u8);
    result.push(0xa0u8);
    let mut i: usize = 0;
    while i < encoded.len()
        invariant
            0 <= i <= encoded@.len(),
            result@ == seq![0x08u8, 0xc3u8, 0x79u8, 0xa0u8] + encoded@.subrange(0, i as int),
        decreases encoded@.len() - i,
    {
        result.push(encoded[i]);
        i = i + 1;
        proof {
            assert(encoded@.subrange(0, i as int) == encoded@.subrange(0, i - 1).push(encoded@[i - 1]));
        }
    }
    proof {
        assert(encoded@.subrange(0, encoded@.len() as int) == encoded@);
    }
    result
}

/// Charges the early-failure penalty and reverts with `msg`, reporting all
/// the gas used so far, or halts out of gas (charging nothing) when the
/// penalty is more than `gas_counter` has left.
fn early_revert(gas_counter: &mut GasCounter, reservoir: u64, msg: &str) -> (o: PrecompileOutput)
    ensures
        final(gas_counter).spec_limit() == old(gas_counter).spec_limit(),
        old(gas_counter).spec_remaining() >= EARLY_REVERT_GAS ==> {
            &&& final(gas_counter).spec_remaining() == old(gas_counter).spec_remaining() - EARLY_REVERT_GAS
            &&& o@ == reverted((old(gas_counter).spec_used() + EARLY_REVERT_GAS) as u64, msg.spec_bytes(), reservoir)
        },
        old(gas_counter).spec_remaining() < EARLY_REVERT_GAS ==> {
            &&& final(gas_counter).spec_remaining() == old(gas_counter).spec_remaining()
            &&& o@ == halted_out_of_gas(reservoir)
        },
{
    if !gas_counter.record_regular_cost(EARLY_REVERT_GAS) {
        return PrecompileOutput::halt(PrecompileHalt::OutOfGas, reservoir);
    }
    PrecompileOutput::revert(gas_counter.used(), revert_message_to_bytes(msg), reservoir)
}

/// Maps the signature check to the precompile's answer once `gas_used` has
/// been charged: a rejected key or signature reverts (the lengths are checked
/// beforehand, so this only happens if the parser refuses bytes of the right
/// length), a completed check returns the ABI-encoded verdict.
pub fn output_for_verification(gas_used: u64, reservoir: u64, outcome: SlhVerification) -> (o: PrecompileOutput)
    ensures
        outcome == SlhVerification::KeyRejected ==> o@ == reverted(gas_used, "Failed to parse verifying key".spec_bytes(), reservoir),
        outcome == SlhVerification::SignatureRejected ==> o@ == reverted(gas_used, "Failed to parse signature".spec_bytes(), reservoir),
        outcome matches SlhVerification::Checked(ok) ==> o@ == (PrecompileStatus::Success, gas_used, reservoir, abi_bool_word(ok)),
{
    match outcome {
        SlhVerification::KeyRejected => {
            PrecompileOutput::revert(gas_used, revert_message_to_bytes("Failed to parse verifying key"), reservoir)
        },
        SlhVerification::SignatureRejected => {
            PrecompileOutput::revert(gas_used, revert_message_to_bytes("Failed to parse signature"), reservoir)
        },
        SlhVerification::Checked(ok) => PrecompileOutput::new(gas_used, abi_encode_bool(ok), reservoir),
    }
}

/// The verification stage for decoded arguments with `gas` available:
/// charges base and per-word gas, checks the key and signature lengths, and
/// verifies the signature.
pub fn run_verification(gas: u64, vk: &[u8], message: &[u8], sig: &[u8], reservoir: u64) -> (o: PrecompileOutput)
    ensures
        o@ == verification_result(gas, vk@, message@, sig@, reservoir),
        vk@.len() == 32 && sig@.len() == 7856 && gas >= 230_000 + 6 * ((message@.len() + 31) / 32) ==> {
            &&& o.status == PrecompileStatus::Success
            &&& o.gas_used == 230_000 + 6 * ((message@.len() + 31) / 32)
            &&& o.reservoir == reservoir
            &&& o.bytes@.len() == 32
            &&& forall|k: int| 0 <= k < 31 ==> o.bytes@[k] == 0
            &&& o.bytes@[31] == (if slh_dsa_sha2_128s_verifies(vk@, message@, sig@) { 1u8 } else { 0u8 })
        },
{
    proof {
        if vk@.len() == 32 && sig@.len() == 7856 && gas >= 230_000 + 6 * ((message@.len() + 31) / 32) {
            lemma_verdict_covers_whole_message(gas, vk@, message@, sig@, reservoir);
        }
    }
    let mut gas_counter = GasCounter::new(gas);
    if !gas_counter.record_regular_cost(VERIFY_BASE_GAS) {
        return PrecompileOutput::halt(PrecompileHalt::OutOfGas, reservoir);
    }
    let len = message.len() as u64;
    let words: u64 = len / 32 + if len % 32 == 0 { 0 } else { 1 };
    assert(words == (message@.len() + 31) / 32);
    let msg_word_gas: u64 = words * GAS_PER_MSG_WORD;
    if !gas_counter.record_regular_cost(msg_word_gas) {
        return PrecompileOutput::halt(PrecompileHalt::OutOfGas, reservoir);
    }
    let used = gas_counter.used();
    if vk.len() != VK_LEN {
        return PrecompileOutput::revert(used, revert_message_to_bytes("Invalid verifying key length"), reservoir);
    }
    if sig.len() != SIG_LEN {
        return PrecompileOutput::revert(used, revert_message_to_bytes("Invalid signature length"), reservoir);
    }
    let outcome = slh_dsa_verify(vk, message, sig);
    output_for_verification(used, reservoir, outcome)
}

/// Executes the PQ (SLH-DSA-SHA2-128s) precompile on call data `data` with
/// `gas` available. Never fails: every outcome is a success, a revert or an
/// out-of-gas halt, as `pq_precompile_result` spells out.
pub fn run_pq_precompile(gas: u64, data: &[u8], reservoir: u64) -> (r: Result<PrecompileOutput, revm::precompile::PrecompileError>)
    ensures
        r matches Ok(o) && o@ == pq_precompile_result(gas, data@, reservoir),
{
    let mut gas_counter = GasCounter::new(gas);
    if data.len() < 4 {
        return Ok(early_revert(&mut gas_counter, reservoir, "Input too short"));
    }
    if data[0] != VERIFY_SELECTOR[0] || data[1] != VERIFY_SELECTOR[1] || data[2] != VERIFY_SELECTOR[2]
        || data[3] != VERIFY_SELECTOR[3] {
        proof {
            assert(data@.subrange(0, 4) != verify_selector()) by {
                if data@.subrange(0, 4) == verify_selector() {
                    assert(data@.subrange(0, 4)[0] == data@[0]);
                    assert(data@.subrange(0, 4)[1] == data@[1]);
                    assert(data@.subrange(0, 4)[2] == data@[2]);
                    assert(data@.subrange(0, 4)[3] == data@[3]);
                }
            }
        }
        return Ok(early_revert(&mut gas_counter, reservoir, "Invalid selector"));
    }
    assert(data@.subrange(0, 4) == verify_selector());
    let args = abi_decode_bytes_triple(slice_subrange(data, 4, data.len()));
    match args {
        None => Ok(early_revert(&mut gas_counter, reservoir, "Execution reverted")),
        Some((vk, message, sig)) => Ok(run_verification(gas, vk.as_slice(), message.as_slice(), sig.as_slice(), reservoir)),
    }
}

} // verus!
