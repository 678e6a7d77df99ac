//! Solidity ABI pieces used by the library: 32-byte words, the encoding of a
//! dynamic `bytes`/`string` value and of a `bool`, and the decoding of the
//! `(bytes, bytes, bytes)` argument list of the signature verifier.
use vstd::prelude::*;
use alloy_sol_types::{sol_data, SolType, SolValue};
use vstd::string::StringSliceAdditionalSpecFns;

verus! {

/// `n` zero bytes.
pub open spec fn zero_bytes(n: nat) -> Seq<u8> {
    Seq::new(n, |i: int| 0u8)
}

/// The eight big-endian bytes of `x`.
pub open spec fn u64_be_bytes(x: u64) -> Seq<u8> {
    seq![
        ((x >> 56u64) & 0xffu64) as u8,
        ((x >> 48u64) & 0xffu64) as u8,
        ((x >> 40u64) & 0xffu64) as u8,
        ((x >> 32u64) & 0xffu64) as u8,
        ((x >> 24u64) & 0xffu64) as u8,
        ((x >> 16u64) & 0xffu64) as u8,
        ((x >> 8u64) & 0xffu64) as u8,
        (x & 0xffu64) as u8,
    ]
}

/// Value of a byte string read as a big-endian unsigned number.
pub open spec fn be_value(bytes: Seq<u8>) -> nat
    decreases bytes.len(),
{
    if bytes.len() == 0 {
        0
    } else {
        be_value(bytes.drop_last()) * 256 + bytes.last() as nat
    }
}

/// Leading zero bytes do not change a big-endian value.
pub proof fn lemma_be_value_leading_zeros(n: nat, s: Seq<u8>)
    ensures
        be_value(zero_bytes(n) + s) == be_value(s),
    decreases s.len(),
{
    if s.len() == 0 {
        assert(zero_bytes(n) + s =~= zero_bytes(n));
        lemma_be_value_zeros(n);
    } else {
        assert((zero_bytes(n) + s).drop_last() =~= zero_bytes(n) + s.drop_last());
        lemma_be_value_leading_zeros(n, s.drop_last());
    }
}

proof fn lemma_be_value_zeros(n: nat)
    ensures
        be_value(zero_bytes(n)) == 0,
    decreases n,
{
    if n > 0 {
        assert(zero_bytes(n).drop_last() =~= zero_bytes((n - 1) as nat));
        lemma_be_value_zeros((n - 1) as nat);
    }
}

proof fn lemma_low_byte(v: u64)
    by (bit_vector)
    ensures
        v & 0xffu64 < 256,
{
}

/// The eight big-endian bytes of `x` read back give `x`.
pub proof fn lemma_u64_be_bytes_value(x: u64)
    ensures
        be_value(u64_be_bytes(x)) == x,
{
    let b = u64_be_bytes(x);
    assert(x >> 56u64 == (x >> 56u64) & 0xffu64) by (bit_vector);
    assert(x >> 48u64 == (x >> 56u64) * 256 + ((x >> 48u64) & 0xffu64)) by (bit_vector);
    assert(x >> 40u64 == (x >> 48u64) * 256 + ((x >> 40u64) & 0xffu64)) by (bit_vector);
    assert(x >> 32u64 == (x >> 40u64) * 256 + ((x >> 32u64) & 0xffu64)) by (bit_vector);
    assert(x >> 24u64 == (x >> 32u64) * 256 + ((x >> 24u64) & 0xffu64)) by (bit_vector);
    assert(x >> 16u64 == (x >> 24u64) * 256 + ((x >> 16u64) & 0xffu64)) by (bit_vector);
    assert(x >> 8u64 == (x >> 16u64) * 256 + ((x >> 8u64) & 0xffu64)) by (bit_vector);
    assert(x == (x >> 8u64) * 256 + (x & 0xffu64)) by (bit_vector);
    lemma_low_byte(x >> 56u64);
    lemma_low_byte(x >> 48u64);
    lemma_low_byte(x >> 40u64);
    lemma_low_byte(x >> 32u64);
    lemma_low_byte(x >> 24u64);
    lemma_low_byte(x >> 16u64);
    lemma_low_byte(x >> 8u64);
    lemma_low_byte(x);
    assert(b.subrange(0, 1).drop_last() =~= Seq::<u8>::empty());
    assert(be_value(Seq::<u8>::empty()) == 0);
    assert(b.subrange(0, 1).last() == b[0]);
    assert(be_value(b.subrange(0, 1)) == x >> 56u64);
    assert(b.subrange(0, 2).drop_last() =~= b.subrange(0, 1));
    assert(be_value(b.subrange(0, 2)) == x >> 48u64);
    assert(b.subrange(0, 3).drop_last() =~= b.subrange(0, 2));
    assert(be_value(b.subrange(0, 3)) == x >> 40u64);
    assert(b.subrange(0, 4).drop_last() =~= b.subrange(0, 3));
    assert(be_value(b.subrange(0, 4)) == x >> 32u64);
    assert(b.subrange(0, 5).drop_last() =~= b.subrange(0, 4));
    assert(be_value(b.subrange(0, 5)) == x >> 24u64);
    assert(b.subrange(0, 6).drop_last() =~= b.subrange(0, 5));
    assert(be_value(b.subrange(0, 6)) == x >> 16u64);
    assert(b.subrange(0, 7).drop_last() =~= b.subrange(0, 6));
    assert(be_value(b.subrange(0, 7)) == x >> 8u64);
    assert(b.drop_last() =~= b.subrange(0, 7));
}

/// A 32-byte ABI word holding the unsigned integer `x` (big-endian,
/// left-padded with zeros).
pub open spec fn abi_word(x: u64) -> Seq<u8> {
    zero_bytes(24) + u64_be_bytes(x)
}

/// Number of zero bytes that pad `n` bytes up to a multiple of 32.
pub open spec fn word_padding(n: nat) -> nat {
    ((32 - (n % 32)) % 32) as nat
}

/// ABI encoding of a single dynamic `bytes` or `string` value as a one-element
/// parameter list: the offset word (32), the length word, the data, and zero
/// padding up to a whole number of words.
pub open spec fn abi_dynamic_bytes(data: Seq<u8>) -> Seq<u8> {
    abi_word(32) + abi_word(data.len() as u64) + data + zero_bytes(word_padding(data.len()))
}

/// ABI encoding of a `bool`: a word whose last byte is 1 for `true`, 0 for
/// `false`.
pub open spec fn abi_bool_word(b: bool) -> Seq<u8> {
    zero_bytes(31).push(if b { 1u8 } else { 0u8 })
}

/// What `alloy_sol_types` decodes from an ABI parameter list of type
/// `(bytes, bytes, bytes)` in validating mode: `None` when the data is not a
/// valid encoding.
pub uninterp spec fn abi_decoded_bytes_triple(data: Seq<u8>) -> Option<(Seq<u8>, Seq<u8>, Seq<u8>)>;

/// Decodes `data` as the ABI parameter list `(bytes, bytes, bytes)` with
/// `alloy_sol_types`' `SolType::abi_decode_sequence_validate`, which is what a
/// call type's `abi_decode_raw_validate` does with its arguments. Trusted: the
/// result is the named decoding `abi_decoded_bytes_triple` of the input; its
/// content is not stated further.
#[verifier::external_body]
pub fn abi_decode_bytes_triple(data: &[u8]) -> (r: Option<(Vec<u8>, Vec<u8>, Vec<u8>)>)
    ensures
        r is None <==> abi_decoded_bytes_triple(data@) is None,
        r matches Some(t) ==> abi_decoded_bytes_triple(data@) == Some((t.0@, t.1@, t.2@)),
{
    match <(sol_data::Bytes, sol_data::Bytes, sol_data::Bytes) as SolType>::abi_decode_sequence_validate(data) {
        Ok((a, b, c)) => Some((a.to_vec(), b.to_vec(), c.to_vec())),
        Err(_) => None,
    }
}

/// ABI-encodes a string with `alloy_sol_types`' `SolValue::abi_encode` for
/// `str`. Trusted: the result is the offset word, the length word and the
/// UTF-8 bytes of the string padded with zeros to whole words (for the empty
/// string, the offset and a zero length word).
#[verifier::external_body]
pub fn abi_encode_str(msg: &str) -> (r: Vec<u8>)
    ensures
        r@ == abi_dynamic_bytes(msg.spec_bytes()),
{
    msg.abi_encode()
}

/// ABI-encodes a boolean with `alloy_sol_types`' `SolValue::abi_encode` for
/// `bool`. Trusted: the result is one word ending in 1 for `true` and 0 for
/// `false`.
#[verifier::external_body]
pub fn abi_encode_bool(b: bool) -> (r: Vec<u8>)
    ensures
        r@ == abi_bool_word(b),
{
    b.abi_encode()
}

/// ABI-encodes an unsigned integer as a `uint256` parameter with
/// `alloy_sol_types`' `SolType::abi_encode` for `sol_data::Uint<256>`.
/// Trusted: the result is the 32-byte big-endian word of `x`.
#[verifier::external_body]
pub fn abi_encode_uint256(x: u64) -> (r: Vec<u8>)
    ensures
        r@ == abi_word(x),
{
    <sol_data::Uint<256> as SolType>::abi_encode(&alloy_primitives::U256::from(x))
}

} // verus!
