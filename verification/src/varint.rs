//! Unsigned variable-length integers: seven bits per byte, least significant
//! group first, the high bit of a byte telling that another byte follows.

use vstd::prelude::*;

verus! {

/// Two to the power 64.
pub open spec fn two_pow_64() -> nat {
    0x1_0000_0000_0000_0000
}

/// The bytes that encode `n`.
pub open spec fn encoding(n: nat) -> Seq<u8>
    decreases n,
{
    if n < 128 {
        seq![n as u8]
    } else {
        seq![(n % 128 + 128) as u8] + encoding(n / 128)
    }
}

/// Index of the first byte at or after `from` whose high bit is clear.
pub open spec fn stop(bytes: Seq<u8>, from: nat) -> Option<nat>
    decreases bytes.len() - from,
{
    if from >= bytes.len() {
        None
    } else if bytes[from as int] < 0x80 {
        Some(from)
    } else {
        stop(bytes, from + 1)
    }
}

/// The number whose base-128 digits, least significant first, are the low
/// seven bits of the first `count` bytes.
pub open spec fn groups(bytes: Seq<u8>, count: nat) -> nat
    decreases count,
{
    if count == 0 {
        0
    } else {
        (bytes[0] % 128) as nat + 128 * groups(bytes.drop_first(), (count - 1) as nat)
    }
}

/// What a 64-bit decoder reads at the start of `bytes`: the groups up to the
/// first byte with a clear high bit, which must be among the first ten bytes
/// and, unless it is the only one, not zero. Bits beyond the 64th are dropped.
pub open spec fn decoding(bytes: Seq<u8>) -> Option<u64> {
    match stop(bytes, 0) {
        Some(last) => if last <= 9 && (last == 0 || bytes[last as int] != 0) {
            Some((groups(bytes, last + 1) % two_pow_64()) as u64)
        } else {
            None
        },
        None => None,
    }
}

/// Calls `unsigned_varint::encode::u64` on a fresh buffer from
/// `unsigned_varint::encode::u64_buffer`. The contract claims that the slice
/// handed back holds exactly the encoding of `n`.
#[verifier::external_body]
pub(crate) fn encode_u64(n: u64) -> (bytes: Vec<u8>)
    ensures
        bytes@ == encoding(n as nat),
{
    let mut buffer = unsigned_varint::encode::u64_buffer();
    unsigned_varint::encode::u64(n, &mut buffer).to_vec()
}

/// Calls `unsigned_varint::decode::u64` and drops the remaining slice and the
/// kind of error. The contract claims that the call succeeds exactly where
/// `decoding` is defined, with that value.
#[verifier::external_body]
pub(crate) fn decode_u64(bytes: &[u8]) -> (n: Option<u64>)
    ensures
        n == decoding(bytes@),
{
    unsigned_varint::decode::u64(bytes).ok().map(|(n, _)| n)
}

/// Every byte of an encoding but the last has its high bit set, the last has
/// it clear, and a last byte that is not the only one is not zero.
pub proof fn lemma_encoding_shape(n: nat)
    ensures
        encoding(n).len() >= 1,
        forall|i: int| 0 <= i < encoding(n).len() - 1 ==> encoding(n)[i] >= 0x80,
        encoding(n).last() < 0x80,
        encoding(n).len() > 1 ==> encoding(n).last() != 0,
        n < 128 <==> encoding(n).len() == 1,
    decreases n,
{
    if n >= 128 {
        lemma_encoding_shape(n / 128);
        let head = seq![(n % 128 + 128) as u8];
        let tail = encoding(n / 128);
        assert(encoding(n) == head + tail);
        assert forall|i: int| 0 <= i < encoding(n).len() - 1 implies encoding(n)[i] >= 0x80 by {
            if i > 0 {
                assert(encoding(n)[i] == tail[i - 1]);
            }
        }
        assert(encoding(n).last() == tail.last());
        if tail.len() == 1 {
            assert(n / 128 < 128);
            assert(tail[0] == (n / 128) as u8);
        }
    }
}

/// 128 to the power `k`.
pub open spec fn limit(k: nat) -> nat
    decreases k,
{
    if k == 0 {
        1
    } else {
        128 * limit((k - 1) as nat)
    }
}

/// An encoding of a number below 128 to the power `k` has at most `k` bytes.
pub proof fn lemma_encoding_len(n: nat, k: nat)
    requires
        k >= 1,
        n < limit(k),
    ensures
        encoding(n).len() <= k,
    decreases n,
{
    assert(limit(1) == 128) by {
        reveal_with_fuel(limit, 2);
    }
    if n >= 128 {
        let below = limit((k - 1) as nat);
        assert(n / 128 < below) by (nonlinear_arith)
            requires
                n < 128 * below,
        ;
        lemma_encoding_len(n / 128, (k - 1) as nat);
    }
}

/// The encoding of a 64-bit number has at most ten bytes.
pub proof fn lemma_encoding_len_u64(n: u64)
    ensures
        1 <= encoding(n as nat).len() <= 10,
{
    lemma_encoding_shape(n as nat);
    assert(limit(10) == 0x40_0000_0000_0000_0000) by {
        reveal_with_fuel(limit, 11);
    }
    lemma_encoding_len(n as nat, 10);
}

/// Reading the groups of an encoding gives the number back, whatever follows.
pub proof fn lemma_groups_of_encoding(n: nat, rest: Seq<u8>)
    ensures
        groups(encoding(n) + rest, encoding(n).len()) == n,
    decreases n,
{
    let bytes = encoding(n) + rest;
    if n < 128 {
        assert(bytes[0] == n as u8);
        assert(groups(bytes.drop_first(), 0) == 0);
    } else {
        let tail = encoding(n / 128);
        lemma_groups_of_encoding(n / 128, rest);
        assert(bytes.drop_first() =~= tail + rest);
        assert(bytes[0] == (n % 128 + 128) as u8);
        assert(encoding(n).len() == tail.len() + 1);
    }
}

/// The first byte with a clear high bit in an encoding followed by anything
/// is the last byte of the encoding.
pub proof fn lemma_stop_of_encoding(n: nat, rest: Seq<u8>, from: nat)
    requires
        from < encoding(n).len(),
    ensures
        stop(encoding(n) + rest, from) == Some((encoding(n).len() - 1) as nat),
    decreases encoding(n).len() - from,
{
    lemma_encoding_shape(n);
    let bytes = encoding(n) + rest;
    assert(bytes[from as int] == encoding(n)[from as int]);
    if from < encoding(n).len() - 1 {
        lemma_stop_of_encoding(n, rest, from + 1);
    }
}

/// Decoding reads back any 64-bit number from its encoding, whatever follows.
pub proof fn lemma_decoding_of_encoding(n: u64, rest: Seq<u8>)
    ensures
        decoding(encoding(n as nat) + rest) == Some(n),
{
    let bytes = encoding(n as nat) + rest;
    let len = encoding(n as nat).len();
    lemma_encoding_shape(n as nat);
    lemma_encoding_len_u64(n);
    lemma_stop_of_encoding(n as nat, rest, 0);
    lemma_groups_of_encoding(n as nat, rest);
    assert(bytes[len - 1] == encoding(n as nat).last());
    assert(groups(bytes, len) % two_pow_64() == n as nat);
}

} // verus!
