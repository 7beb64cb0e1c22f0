//! The Exponential-Golomb codec used throughout H.264 syntax: `ue(v)`
//! (unsigned), `se(v)` (signed, a pure arithmetic mapping of an already
//! decoded `ue(v)`), and `me(v)` (mapped, table-driven).
//!
//! A `ue(v)` code for `n` is a run of `m` zero bits followed by the
//! `(m + 1)`-bit big-endian representation of `n + 1`, where `m` is one less
//! than the number of binary digits of `n + 1`. The codec supports values up
//! to 32 code bits, that is `n + 1` up to 32 binary digits; a longer code is
//! rejected as malformed rather than wrapped.

use vstd::prelude::*;
use vstd::arithmetic::power2::{
    pow2,
    lemma2_to64,
    lemma_pow2_unfold,
    lemma_pow2_pos,
    lemma_pow2_strictly_increases,
};

verus! {

use crate::bits::{
    BitCursor,
    BitWriter,
    be_value,
    be_bits,
    zero_bits,
    lemma_be_bits_len,
    lemma_be_bits_index,
    lemma_be_value_of_be_bits,
    lemma_be_value_bound,
};
use crate::error::Error;

/// The number of binary digits of `v` (0 for 0).
pub open spec fn bit_length(v: nat) -> nat
    decreases v,
{
    if v == 0 {
        0
    } else {
        1 + bit_length(v / 2)
    }
}

pub proof fn lemma_bit_length_bounds(v: nat)
    requires
        v >= 1,
    ensures
        bit_length(v) >= 1,
        pow2((bit_length(v) - 1) as nat) <= v < pow2(bit_length(v)),
    decreases v,
{
    if v == 1 {
        assert(bit_length(0) == 0);
        assert(bit_length(1) == 1);
        lemma2_to64();
    } else {
        lemma_bit_length_bounds(v / 2);
        let blh = bit_length(v / 2);
        assert(bit_length(v) == 1 + blh);
        lemma_pow2_unfold(blh);
        assert(pow2(blh) == 2 * pow2((blh - 1) as nat));
        assert(2 * pow2((blh - 1) as nat) <= 2 * (v / 2));
        lemma_pow2_unfold(bit_length(v));
        assert(v < 2 * pow2(blh));
    }
}

pub proof fn lemma_bit_length_at_most(v: nat, n: nat)
    requires
        v < pow2(n),
    ensures
        bit_length(v) <= n,
{
    if v >= 1 {
        lemma_bit_length_bounds(v);
        if bit_length(v) > n {
            if n < bit_length(v) - 1 {
                lemma_pow2_strictly_increases(n, (bit_length(v) - 1) as nat);
            }
            assert(false);
        }
    }
}

/// The Exp-Golomb code of `n`.
pub open spec fn ue_bits(n: u32) -> Seq<bool> {
    zero_bits((bit_length(n as nat + 1) - 1) as nat) + be_bits(
        n as nat + 1,
        bit_length(n as nat + 1),
    )
}

/// The length of the zero run in `bits` starting at `pos`.
pub open spec fn ue_run(bits: Seq<bool>, pos: int) -> int
    decreases bits.len() - pos,
{
    if pos < 0 || pos >= bits.len() {
        0
    } else if bits[pos] {
        0
    } else {
        1 + ue_run(bits, pos + 1)
    }
}

pub proof fn lemma_ue_run_is(bits: Seq<bool>, pos: int, k: int)
    requires
        0 <= pos,
        0 <= k,
        pos + k < bits.len(),
        forall|j: int| pos <= j < pos + k ==> !bits[j],
        bits[pos + k],
    ensures
        ue_run(bits, pos) == k,
    decreases k,
{
    if k > 0 {
        lemma_ue_run_is(bits, pos + 1, k - 1);
    }
}

pub proof fn lemma_ue_run_all_zero(bits: Seq<bool>, pos: int)
    requires
        0 <= pos <= bits.len(),
        forall|j: int| pos <= j < bits.len() ==> !bits[j],
    ensures
        ue_run(bits, pos) == bits.len() - pos,
    decreases bits.len() - pos,
{
    if pos < bits.len() {
        lemma_ue_run_all_zero(bits, pos + 1);
    }
}

pub proof fn lemma_ue_run_nonneg(bits: Seq<bool>, pos: int)
    ensures
        ue_run(bits, pos) >= 0,
    decreases bits.len() - pos,
{
    if 0 <= pos && pos < bits.len() && !bits[pos] {
        lemma_ue_run_nonneg(bits, pos + 1);
    }
}

pub proof fn lemma_ue_run_at_least(bits: Seq<bool>, pos: int, k: int)
    requires
        0 <= pos,
        0 <= k,
        pos + k <= bits.len(),
        forall|j: int| pos <= j < pos + k ==> !bits[j],
    ensures
        ue_run(bits, pos) >= k,
    decreases k,
{
    if k > 0 {
        lemma_ue_run_at_least(bits, pos + 1, k - 1);
    } else {
        lemma_ue_run_nonneg(bits, pos);
    }
}

/// The result of parsing one Exp-Golomb code in `bits` at `pos`: the decoded
/// value and the number of bits the code occupies, or the error raised. A run
/// of 32 zero bits means a code wider than 32 bits, which is malformed; a
/// shorter run that hits the end of the data, or an incomplete info part,
/// means the data ended too early.
pub open spec fn ue_parse(bits: Seq<bool>, pos: int) -> Result<(u32, int), Error> {
    let m = ue_run(bits, pos);
    if m >= 32 {
        Err(Error::MalformedInput)
    } else if pos + 2 * m + 1 > bits.len() {
        Err(Error::UnexpectedEndOfData)
    } else {
        Ok(((be_value(bits.subrange(pos + m, pos + 2 * m + 1)) - 1) as u32, 2 * m + 1))
    }
}

/// Append the `ue(v)` code of `num` to `out` and return the number of bits
/// written.
pub fn ue_encode(num: u32, out: &mut BitWriter) -> (r: u32)
    requires
        num < u32::MAX,
    ensures
        final(out).bits@ == old(out).bits@ + ue_bits(num),
        r == ue_bits(num).len(),
{
    let t1 = num + 1;
    let ghost t1n = t1 as nat;
    proof {
        lemma_bit_length_bounds(t1n);
        lemma2_to64();
        lemma_bit_length_at_most(t1n, 32);
    }
    let mut len: u32 = 0;
    let mut x: u32 = t1;
    while x > 0
        invariant
            bit_length(t1n) == len + bit_length(x as nat),
            bit_length(t1n) <= 32,
        decreases x,
    {
        x = x / 2;
        len = len + 1;
    }
    let m = len - 1;
    let ghost w0 = out.bits@;
    let mut i: u32 = 0;
    proof {
        assert(w0 + zero_bits(0) =~= w0);
    }
    while i < m
        invariant
            i <= m,
            out.bits@ == w0 + zero_bits(i as nat),
        decreases m - i,
    {
        out.write_bit(false);
        proof {
            assert((w0 + zero_bits(i as nat)).push(false) =~= w0 + zero_bits((i + 1) as nat));
        }
        i = i + 1;
    }
    out.write_bits(len, t1);
    proof {
        lemma_be_bits_len(t1n, len as nat);
        assert((w0 + zero_bits(m as nat)) + be_bits(t1n, len as nat) =~= w0 + ue_bits(num));
    }
    m + len
}

/// Read one `ue(v)` code from `input`, store the decoded value in `out`, and
/// return the number of bits consumed.
pub fn ue_decode(input: &mut BitCursor, out: &mut u32) -> (r: Result<u32, Error>)
    requires
        old(input).wf(),
    ensures
        final(input).wf(),
        final(input).data@ == old(input).data@,
        match ue_parse(old(input).bits(), old(input).pos as int) {
            Ok((v, c)) => r == Ok::<u32, Error>(c as u32) && *final(out) == v && final(input).pos
                == old(input).pos + c,
            Err(e) => r == Err::<u32, Error>(e) && *final(out) == *old(out) && (
            e == Error::MalformedInput ==> final(input).pos == old(input).pos + 32) && (
            e == Error::UnexpectedEndOfData ==> final(input).pos == old(input).bits().len()),
        },
{
    let ghost bits = old(input).bits();
    let ghost pos0 = old(input).pos as int;
    let mut m: u32 = 0;
    loop
        invariant_except_break
            input.wf(),
            m <= 32,
            input.data@ == old(input).data@,
            bits == input.bits(),
            pos0 == old(input).pos,
            input.pos == pos0 + m,
            forall|j: int| pos0 <= j < pos0 + m ==> !bits[j],
        ensures
            input.wf(),
            input.data@ == old(input).data@,
            bits == input.bits(),
            pos0 == old(input).pos,
            m <= 31,
            pos0 + m < bits.len(),
            bits[pos0 + m],
            forall|j: int| pos0 <= j < pos0 + m ==> !bits[j],
            input.pos == pos0 + m + 1,
        decreases 33 - m,
    {
        if m == 32 {
            proof {
                lemma_ue_run_at_least(bits, pos0, 32);
            }
            return Err(Error::MalformedInput);
        }
        match input.read_bit() {
            Err(_) => {
                proof {
                    lemma_ue_run_all_zero(bits, pos0);
                }
                return Err(Error::UnexpectedEndOfData);
            },
            Ok(true) => {
                break ;
            },
            Ok(false) => {
                m = m + 1;
            },
        }
    }
    proof {
        lemma_ue_run_is(bits, pos0, m as int);
        assert(bits.subrange(pos0 + m, pos0 + m + 1) =~= seq![true]);
        assert(seq![true].drop_last() =~= Seq::<bool>::empty());
        assert(be_value(Seq::<bool>::empty()) == 0);
        assert(be_value(seq![true]) == 1);
        lemma2_to64();
    }
    let mut acc: u32 = 1;
    let mut i: u32 = 0;
    while i < m
        invariant
            input.wf(),
            input.data@ == old(input).data@,
            bits == input.bits(),
            pos0 == old(input).pos,
            i <= m,
            m <= 31,
            pos0 + m < bits.len(),
            bits[pos0 + m],
            ue_run(bits, pos0) == m,
            forall|j: int| pos0 <= j < pos0 + m ==> !bits[j],
            input.pos == pos0 + m + 1 + i,
            acc == be_value(bits.subrange(pos0 + m, pos0 + m + 1 + i)),
            1 <= acc,
            acc < pow2((i + 1) as nat),
            pow2(32) == 0x100000000,
        decreases m - i,
    {
        match input.read_bit() {
            Err(_) => {
                return Err(Error::UnexpectedEndOfData);
            },
            Ok(b) => {
                proof {
                    lemma2_to64();
                    lemma_pow2_unfold((i + 2) as nat);
                    assert(pow2((i + 1) as nat) <= pow2(31)) by {
                        if i + 1 < 31 {
                            lemma_pow2_strictly_increases((i + 1) as nat, 31);
                        }
                    }
                    assert(bits.subrange(pos0 + m, pos0 + m + 2 + i).drop_last() =~= bits.subrange(
                        pos0 + m,
                        pos0 + m + 1 + i,
                    ));
                }
                acc = acc * 2 + (if b {
                    1
                } else {
                    0
                });
                i = i + 1;
            },
        }
    }
    proof {
        lemma_be_value_bound(bits.subrange(pos0 + m, pos0 + 2 * m + 1));
        assert(pow2((m + 1) as nat) <= pow2(32)) by {
            if m + 1 < 32 {
                lemma_pow2_strictly_increases((m + 1) as nat, 32);
            }
        }
    }
    *out = acc - 1;
    Ok(2 * m + 1)
}

/// Exp-Golomb round-trip: parsing a stream that starts with the code that
/// `ue_encode` emits yields the encoded value back, and the parse consumes
/// exactly as many bits as the encoder reported writing.
pub proof fn lemma_ue_round_trip(n: u32, rest: Seq<bool>)
    requires
        n < u32::MAX,
    ensures
        ue_parse(ue_bits(n) + rest, 0) == Ok::<(u32, int), Error>((n, ue_bits(n).len() as int)),
{
    let t1 = n as nat + 1;
    let bl = bit_length(t1);
    let m = bl - 1;
    lemma_bit_length_bounds(t1);
    lemma2_to64();
    lemma_bit_length_at_most(t1, 32);
    lemma_be_bits_len(t1, bl);
    let code = ue_bits(n);
    let bits = code + rest;
    assert(code.len() == 2 * m + 1);
    assert(forall|j: int| 0 <= j < m ==> !bits[j]);
    lemma_be_bits_index(t1, bl, 0);
    let p = pow2((bl - 1) as nat);
    lemma_pow2_pos((bl - 1) as nat);
    lemma_pow2_unfold(bl);
    assert(t1 / p == 1) by (nonlinear_arith)
        requires
            p > 0,
            p <= t1,
            t1 < 2 * p,
    ;
    assert(bits[m as int] == be_bits(t1, bl)[0]);
    lemma_ue_run_is(bits, 0, m as int);
    assert(bits.subrange(m as int, 2 * m + 1) =~= be_bits(t1, bl));
    lemma_be_value_of_be_bits(t1, bl);
}

/// The `se(v)` mapping of an already decoded `ue(v)` value `k`:
/// `(-1)^(k+1) * ceil(k / 2)`.
pub open spec fn se_value(k: nat) -> int {
    if k % 2 == 0 {
        -((k / 2) as int)
    } else {
        ((k + 1) / 2) as int
    }
}

/// Map a decoded `ue(v)` value to the signed `se(v)` value. The mapping
/// consumes no bits of its own.
pub fn se_decode(num: u32) -> (r: i32)
    requires
        num < u32::MAX,
    ensures
        r == se_value(num as nat),
{
    if num % 2 == 0 {
        -((num / 2) as i32)
    } else {
        (num / 2 + 1) as i32
    }
}

/// Table 9-4 of the H.264 syntax, for `chroma_array_type` 1 or 2: the
/// `(Intra_4x4 or Intra_8x8, Inter)` pair of `coded_block_pattern` values
/// assigned to a `codeNum`, or `None` when the `codeNum` is unmapped.
pub open spec fn me_chroma_entry(num: u32) -> Option<(u8, u8)> {
    match num {
        0u32 => Some((47u8, 0u8)),
        1u32 => Some((31u8, 16u8)),
        2u32 => Some((15u8, 1u8)),
        3u32 => Some((0u8, 2u8)),
        4u32 => Some((23u8, 4u8)),
        5u32 => Some((27u8, 8u8)),
        6u32 => Some((29u8, 32u8)),
        7u32 => Some((30u8, 3u8)),
        8u32 => Some((7u8, 5u8)),
        9u32 => Some((11u8, 10u8)),
        10u32 => Some((13u8, 12u8)),
        11u32 => Some((14u8, 15u8)),
        12u32 => Some((39u8, 47u8)),
        13u32 => Some((43u8, 7u8)),
        14u32 => Some((45u8, 11u8)),
        15u32 => Some((46u8, 13u8)),
        16u32 => Some((16u8, 14u8)),
        17u32 => Some((3u8, 6u8)),
        18u32 => Some((5u8, 9u8)),
        19u32 => Some((10u8, 31u8)),
        20u32 => Some((12u8, 35u8)),
        21u32 => Some((19u8, 37u8)),
        22u32 => Some((21u8, 42u8)),
        23u32 => Some((26u8, 44u8)),
        24u32 => Some((28u8, 33u8)),
        25u32 => Some((35u8, 34u8)),
        26u32 => Some((37u8, 36u8)),
        27u32 => Some((42u8, 40u8)),
        28u32 => Some((44u8, 39u8)),
        29u32 => Some((1u8, 43u8)),
        30u32 => Some((2u8, 45u8)),
        31u32 => Some((4u8, 46u8)),
        32u32 => Some((8u8, 17u8)),
        33u32 => Some((17u8, 18u8)),
        34u32 => Some((18u8, 20u8)),
        35u32 => Some((20u8, 24u8)),
        36u32 => Some((24u8, 19u8)),
        37u32 => Some((6u8, 21u8)),
        38u32 => Some((9u8, 26u8)),
        39u32 => Some((22u8, 28u8)),
        40u32 => Some((25u8, 23u8)),
        41u32 => Some((32u8, 27u8)),
        42u32 => Some((33u8, 29u8)),
        43u32 => Some((34u8, 30u8)),
        44u32 => Some((36u8, 22u8)),
        45u32 => Some((40u8, 25u8)),
        46u32 => Some((38u8, 38u8)),
        47u32 => Some((41u8, 41u8)),
        _ => None,
    }
}

/// Table 9-4 of the H.264 syntax, for `chroma_array_type` 0 or 3.
pub open spec fn me_mono_entry(num: u32) -> Option<(u8, u8)> {
    match num {
        0u32 => Some((15u8, 0u8)),
        1u32 => Some((0u8, 1u8)),
        2u32 => Some((7u8, 2u8)),
        3u32 => Some((11u8, 4u8)),
        4u32 => Some((13u8, 8u8)),
        5u32 => Some((14u8, 3u8)),
        6u32 => Some((3u8, 5u8)),
        7u32 => Some((5u8, 10u8)),
        8u32 => Some((10u8, 12u8)),
        9u32 => Some((12u8, 15u8)),
        10u32 => Some((1u8, 7u8)),
        11u32 => Some((2u8, 11u8)),
        12u32 => Some((4u8, 13u8)),
        13u32 => Some((8u8, 14u8)),
        14u32 => Some((6u8, 6u8)),
        15u32 => Some((9u8, 9u8)),
        _ => None,
    }
}

fn me_lookup_chroma(num: u32) -> (r: Option<(u8, u8)>)
    ensures
        r == me_chroma_entry(num),
{
    match num {
        0u32 => Some((47u8, 0u8)),
        1u32 => Some((31u8, 16u8)),
        2u32 => Some((15u8, 1u8)),
        3u32 => Some((0u8, 2u8)),
        4u32 => Some((23u8, 4u8)),
        5u32 => Some((27u8, 8u8)),
        6u32 => Some((29u8, 32u8)),
        7u32 => Some((30u8, 3u8)),
        8u32 => Some((7u8, 5u8)),
        9u32 => Some((11u8, 10u8)),
        10u32 => Some((13u8, 12u8)),
        11u32 => Some((14u8, 15u8)),
        12u32 => Some((39u8, 47u8)),
        13u32 => Some((43u8, 7u8)),
        14u32 => Some((45u8, 11u8)),
        15u32 => Some((46u8, 13u8)),
        16u32 => Some((16u8, 14u8)),
        17u32 => Some((3u8, 6u8)),
        18u32 => Some((5u8, 9u8)),
        19u32 => Some((10u8, 31u8)),
        20u32 => Some((12u8, 35u8)),
        21u32 => Some((19u8, 37u8)),
        22u32 => Some((21u8, 42u8)),
        23u32 => Some((26u8, 44u8)),
        24u32 => Some((28u8, 33u8)),
        25u32 => Some((35u8, 34u8)),
        26u32 => Some((37u8, 36u8)),
        27u32 => Some((42u8, 40u8)),
        28u32 => Some((44u8, 39u8)),
        29u32 => Some((1u8, 43u8)),
        30u32 => Some((2u8, 45u8)),
        31u32 => Some((4u8, 46u8)),
        32u32 => Some((8u8, 17u8)),
        33u32 => Some((17u8, 18u8)),
        34u32 => Some((18u8, 20u8)),
        35u32 => Some((20u8, 24u8)),
        36u32 => Some((24u8, 19u8)),
        37u32 => Some((6u8, 21u8)),
        38u32 => Some((9u8, 26u8)),
        39u32 => Some((22u8, 28u8)),
        40u32 => Some((25u8, 23u8)),
        41u32 => Some((32u8, 27u8)),
        42u32 => Some((33u8, 29u8)),
        43u32 => Some((34u8, 30u8)),
        44u32 => Some((36u8, 22u8)),
        45u32 => Some((40u8, 25u8)),
        46u32 => Some((38u8, 38u8)),
        47u32 => Some((41u8, 41u8)),
        _ => None,
    }
}

fn me_lookup_mono(num: u32) -> (r: Option<(u8, u8)>)
    ensures
        r == me_mono_entry(num),
{
    match num {
        0u32 => Some((15u8, 0u8)),
        1u32 => Some((0u8, 1u8)),
        2u32 => Some((7u8, 2u8)),
        3u32 => Some((11u8, 4u8)),
        4u32 => Some((13u8, 8u8)),
        5u32 => Some((14u8, 3u8)),
        6u32 => Some((3u8, 5u8)),
        7u32 => Some((5u8, 10u8)),
        8u32 => Some((10u8, 12u8)),
        9u32 => Some((12u8, 15u8)),
        10u32 => Some((1u8, 7u8)),
        11u32 => Some((2u8, 11u8)),
        12u32 => Some((4u8, 13u8)),
        13u32 => Some((8u8, 14u8)),
        14u32 => Some((6u8, 6u8)),
        15u32 => Some((9u8, 9u8)),
        _ => None,
    }
}

/// Map a decoded `ue(v)` value and a `chroma_array_type` to the
/// `(coded_block_pattern_intra, coded_block_pattern_inter)` pair of the
/// `me(v)` tables. An unmapped `codeNum` or an unsupported
/// `chroma_array_type` is malformed input, not an internal fault.
pub fn me_decode(num: u32, chroma_array_type: u8) -> (r: Result<(u8, u8), Error>)
    ensures
        chroma_array_type == 1 || chroma_array_type == 2 ==> r == (match me_chroma_entry(num) {
            Some(p) => Ok::<(u8, u8), Error>(p),
            None => Err::<(u8, u8), Error>(Error::MalformedInput),
        }),
        chroma_array_type == 0 || chroma_array_type == 3 ==> r == (match me_mono_entry(num) {
            Some(p) => Ok::<(u8, u8), Error>(p),
            None => Err::<(u8, u8), Error>(Error::MalformedInput),
        }),
        chroma_array_type > 3 ==> r == Err::<(u8, u8), Error>(Error::MalformedInput),
{
    let entry = match chroma_array_type {
        1 | 2 => me_lookup_chroma(num),
        0 | 3 => me_lookup_mono(num),
        _ => {
            return Err(Error::MalformedInput);
        },
    };
    match entry {
        Some(p) => Ok(p),
        None => Err(Error::MalformedInput),
    }
}

} // verus!
