//! Bit-granularity access to byte buffers.
//!
//! All multi-bit values are big-endian: the first bit of a buffer is the most
//! significant bit of its first byte, and an `n`-bit field is read most
//! significant bit first.

use vstd::prelude::*;
use vstd::arithmetic::power2::{pow2, lemma2_to64, lemma_pow2_unfold, lemma_pow2_pos};

verus! {

use crate::error::Error;

/// Bit `i` (0 = most significant) of the byte `b`.
pub open spec fn bit_of_byte(b: u8, i: int) -> bool {
    (b as nat / pow2((7 - i) as nat)) % 2 == 1
}

/// The bits of a byte buffer, in stream order.
pub open spec fn bits_of_bytes(bytes: Seq<u8>) -> Seq<bool> {
    Seq::new(bytes.len() * 8, |i: int| bit_of_byte(bytes[i / 8], i % 8))
}

/// The value of a bit string read as a big-endian unsigned integer.
pub open spec fn be_value(bits: Seq<bool>) -> nat
    decreases bits.len(),
{
    if bits.len() == 0 {
        0
    } else {
        2 * be_value(bits.drop_last()) + (if bits.last() {
            1nat
        } else {
            0nat
        })
    }
}

/// The `n` low bits of `v`, most significant first.
pub open spec fn be_bits(v: nat, n: nat) -> Seq<bool>
    decreases n,
{
    if n == 0 {
        Seq::empty()
    } else {
        be_bits(v / 2, (n - 1) as nat).push(v % 2 == 1)
    }
}

/// A run of `n` zero bits.
pub open spec fn zero_bits(n: nat) -> Seq<bool> {
    Seq::new(n, |i: int| false)
}

pub proof fn lemma_be_value_bound(bits: Seq<bool>)
    ensures
        be_value(bits) < pow2(bits.len()),
    decreases bits.len(),
{
    if bits.len() == 0 {
        lemma2_to64();
    } else {
        lemma_be_value_bound(bits.drop_last());
        lemma_pow2_unfold(bits.len());
    }
}

pub proof fn lemma_be_bits_len(v: nat, n: nat)
    ensures
        be_bits(v, n).len() == n,
    decreases n,
{
    if n > 0 {
        lemma_be_bits_len(v / 2, (n - 1) as nat);
    }
}

pub proof fn lemma_be_bits_index(v: nat, n: nat, k: int)
    requires
        0 <= k < n,
    ensures
        be_bits(v, n)[k] == ((v / pow2((n - 1 - k) as nat)) % 2 == 1),
    decreases n,
{
    lemma_be_bits_len(v / 2, (n - 1) as nat);
    if k == n - 1 {
        lemma2_to64();
        assert(v / pow2(0) == v);
    } else {
        lemma_be_bits_index(v / 2, (n - 1) as nat, k);
        lemma_pow2_unfold((n - 1 - k) as nat);
        lemma_pow2_pos((n - 2 - k) as nat);
        vstd::arithmetic::div_mod::lemma_div_denominator(
            v as int,
            2,
            pow2((n - 2 - k) as nat) as int,
        );
        assert(v / 2 / pow2((n - 2 - k) as nat) == v / pow2((n - 1 - k) as nat));
    }
}

pub proof fn lemma_be_bits_of_be_value(bits: Seq<bool>)
    ensures
        be_bits(be_value(bits), bits.len()) == bits,
    decreases bits.len(),
{
    if bits.len() > 0 {
        let v = be_value(bits);
        let prefix = bits.drop_last();
        lemma_be_bits_of_be_value(prefix);
        assert(v / 2 == be_value(prefix) && v % 2 == (if bits.last() {
            1nat
        } else {
            0nat
        }));
        assert(be_bits(v, bits.len()) =~= bits);
    } else {
        assert(be_bits(be_value(bits), 0) =~= bits);
    }
}

pub proof fn lemma_be_value_of_be_bits(v: nat, n: nat)
    requires
        v < pow2(n),
    ensures
        be_value(be_bits(v, n)) == v,
    decreases n,
{
    if n == 0 {
        lemma2_to64();
    } else {
        lemma_pow2_unfold(n);
        lemma_be_value_of_be_bits(v / 2, (n - 1) as nat);
        let s = be_bits(v, n);
        assert(s.drop_last() =~= be_bits(v / 2, (n - 1) as nat));
    }
}

/// Relates a packed byte to the eight bits it holds.
pub proof fn lemma_byte_of_bits(s: Seq<bool>)
    requires
        s.len() == 8,
    ensures
        be_value(s) < 256,
        forall|k: int| 0 <= k < 8 ==> bit_of_byte(be_value(s) as u8, k) == s[k],
{
    lemma_be_value_bound(s);
    lemma2_to64();
    lemma_be_bits_of_be_value(s);
    assert forall|k: int| 0 <= k < 8 implies bit_of_byte(be_value(s) as u8, k) == s[k] by {
        lemma_be_bits_index(be_value(s), 8, k);
    }
}

/// The first `i` bits of `out` hold `all`, padded with zero bits.
pub open spec fn packed_prefix(out: Seq<u8>, all: Seq<bool>, i: int) -> bool {
    forall|b: int|
        0 <= b < i ==> #[trigger] bit_of_byte(out[b / 8], b % 8) == (if b < all.len() {
            all[b]
        } else {
            false
        })
}

/// A sequential big-endian bit writer.
pub struct BitWriter {
    pub bits: Vec<bool>,
}

impl BitWriter {
    pub fn new() -> (r: BitWriter)
        ensures
            r.bits@ == Seq::<bool>::empty(),
    {
        BitWriter { bits: Vec::new() }
    }

    /// The number of bits written so far.
    pub fn len(&self) -> (r: usize)
        ensures
            r == self.bits@.len(),
    {
        self.bits.len()
    }

    /// Whether the bits written so far fill a whole number of bytes.
    pub fn byte_aligned(&self) -> (r: bool)
        ensures
            r == (self.bits@.len() % 8 == 0),
    {
        self.bits.len() % 8 == 0
    }

    /// Append one bit.
    pub fn write_bit(&mut self, bit: bool)
        ensures
            final(self).bits@ == old(self).bits@.push(bit),
    {
        self.bits.push(bit);
    }

    /// Append the `n` low bits (`n <= 32`) of `value`, most significant first.
    pub fn write_bits(&mut self, n: u32, value: u32)
        requires
            n <= 32,
            (value as nat) < pow2(n as nat),
        ensures
            final(self).bits@ == old(self).bits@ + be_bits(value as nat, n as nat),
    {
        let mut temp: Vec<bool> = Vec::new();
        let mut x: u32 = value;
        let mut i: u32 = 0;
        proof {
            lemma2_to64();
        }
        while i < n
            invariant
                i <= n,
                n <= 32,
                temp@.len() == i,
                pow2(0) == 1,
                x as nat == value as nat / pow2(i as nat),
                forall|j: int| 0 <= j < i ==> temp@[j] == ((value as nat / pow2(j as nat)) % 2 == 1),
            decreases n - i,
        {
            temp.push(x % 2 == 1);
            proof {
                lemma_pow2_unfold((i + 1) as nat);
                lemma_pow2_pos(i as nat);
                vstd::arithmetic::div_mod::lemma_div_denominator(
                    value as int,
                    pow2(i as nat) as int,
                    2,
                );
                assert(x as nat / 2 == value as nat / pow2((i + 1) as nat));
            }
            x = x / 2;
            i = i + 1;
        }
        let ghost bits0 = self.bits@;
        let ghost code = be_bits(value as nat, n as nat);
        proof {
            lemma_be_bits_len(value as nat, n as nat);
            assert(bits0 + code.take(0) =~= bits0);
        }
        let mut k: u32 = 0;
        while k < n
            invariant
                k <= n,
                n <= 32,
                temp@.len() == n,
                code == be_bits(value as nat, n as nat),
                code.len() == n,
                forall|j: int| 0 <= j < n ==> temp@[j] == ((value as nat / pow2(j as nat)) % 2 == 1),
                self.bits@ == bits0 + code.take(k as int),
            decreases n - k,
        {
            let bit = temp[(n - 1 - k) as usize];
            proof {
                lemma_be_bits_index(value as nat, n as nat, k as int);
                assert(code.take(k as int).push(code[k as int]) =~= code.take(k + 1));
            }
            self.bits.push(bit);
            k = k + 1;
        }
        proof {
            assert(code.take(n as int) =~= code);
        }
    }

    /// Pack the bits written so far into bytes, padding the last byte with
    /// zero bits.
    pub fn to_bytes(&self) -> (r: Vec<u8>)
        requires
            self.bits@.len() <= usize::MAX - 7,
        ensures
            r@.len() == (self.bits@.len() + 7) / 8,
            r@.len() * 8 <= self.bits@.len() + 7,
            bits_of_bytes(r@) == self.bits@ + zero_bits(
                (r@.len() * 8 - self.bits@.len()) as nat,
            ),
    {
        let ghost all = self.bits@;
        let len = self.bits.len();
        let ghost padded = |b: int|
            if b < all.len() {
                all[b]
            } else {
                false
            };
        let mut out: Vec<u8> = Vec::new();
        let mut i: usize = 0;
        proof {
            lemma2_to64();
        }
        while i < len
            invariant
                len == all.len(),
                len <= usize::MAX - 7,
                all == self.bits@,
                i == out@.len() * 8,
                i <= len + 7,
                i % 8 == 0,
                pow2(8) == 256,
                packed_prefix(out@, all, i as int),
            decreases len + 7 - i,
        {
            let ghost chunk = Seq::new(
                8,
                |t: int|
                    if i + t < all.len() {
                        all[i + t]
                    } else {
                        false
                    },
            );
            let mut acc: u8 = 0;
            let mut k: usize = 0;
            proof {
                assert(chunk.take(0) =~= Seq::<bool>::empty());
                lemma_pow2_pos(0);
            }
            while k < 8
                invariant
                    k <= 8,
                    i < len,
                    len == all.len(),
                    len <= usize::MAX - 7,
                    all == self.bits@,
                    pow2(8) == 256,
                    chunk == Seq::new(
                        8,
                        |t: int|
                            if i + t < all.len() {
                                all[i + t]
                            } else {
                                false
                            },
                    ),
                    acc == be_value(chunk.take(k as int)),
                    acc < pow2(k as nat),
                decreases 8 - k,
            {
                let bit = if i + k < len {
                    self.bits[i + k]
                } else {
                    false
                };
                proof {
                    lemma_pow2_unfold((k + 1) as nat);
                    assert(acc * 2 + 1 < 256) by {
                        lemma2_to64();
                        if (k as nat) < 7 {
                            vstd::arithmetic::power2::lemma_pow2_strictly_increases(k as nat, 7);
                        }
                    }
                    assert(chunk.take(k + 1).drop_last() =~= chunk.take(k as int));
                    assert(chunk.take(k + 1).last() == chunk[k as int]);
                }
                acc = acc * 2 + (if bit {
                    1
                } else {
                    0
                });
                k = k + 1;
            }
            proof {
                assert(chunk.take(8) =~= chunk);
                lemma_byte_of_bits(chunk);
            }
            let ghost out0 = out@;
            out.push(acc);
            proof {
                assert forall|b: int| 0 <= b < i + 8 implies #[trigger] bit_of_byte(
                    out@[b / 8],
                    b % 8,
                ) == (if b < all.len() {
                    all[b]
                } else {
                    false
                }) by {
                    if b < i {
                        assert(0 <= b / 8 < out0.len());
                        assert(bit_of_byte(out0[b / 8], b % 8) == (if b < all.len() {
                            all[b]
                        } else {
                            false
                        }));
                        assert(out@[b / 8] == out0[b / 8]);
                    } else {
                        assert(b / 8 == out0.len());
                        assert(out@[b / 8] == acc);
                        assert(b % 8 == b - i);
                        assert(bit_of_byte(acc, b % 8) == chunk[b - i]);
                        assert(chunk[b - i] == (if b < all.len() {
                            all[b]
                        } else {
                            false
                        }));
                    }
                }
                assert(packed_prefix(out@, all, i + 8));
            }
            i = i + 8;
        }
        proof {
            assert(out@.len() == (all.len() + 7) / 8);
            let pad = (out@.len() * 8 - all.len()) as nat;
            assert forall|b: int| 0 <= b < out@.len() * 8 implies bits_of_bytes(out@)[b] == (all
                + zero_bits(pad))[b] by {
                assert(bit_of_byte(out@[b / 8], b % 8) == (if b < all.len() {
                    all[b]
                } else {
                    false
                }));
            }
            assert(bits_of_bytes(out@) =~= all + zero_bits(pad));
        }
        out
    }
}

/// A sequential big-endian bit reader over a byte buffer.
pub struct BitCursor {
    pub data: Vec<u8>,
    /// The position of the next bit to read, counted from the start.
    pub pos: usize,
}

impl BitCursor {
    /// The whole underlying bit stream.
    pub open spec fn bits(&self) -> Seq<bool> {
        bits_of_bytes(self.data@)
    }

    pub open spec fn wf(&self) -> bool {
        self.pos <= self.data@.len() * 8 && self.data@.len() * 8 <= usize::MAX
    }

    pub fn new(data: Vec<u8>) -> (r: BitCursor)
        requires
            data@.len() * 8 <= usize::MAX,
        ensures
            r.wf(),
            r.data@ == data@,
            r.pos == 0,
    {
        BitCursor { data, pos: 0 }
    }

    /// Whether the read position is at a byte boundary.
    pub fn byte_aligned(&self) -> (r: bool)
        ensures
            r == (self.pos % 8 == 0),
    {
        self.pos % 8 == 0
    }

    /// The read position, in bits from the start.
    pub fn position(&self) -> (r: usize)
        ensures
            r == self.pos,
    {
        self.pos
    }

    /// Read the next bit, advancing the position.
    pub fn read_bit(&mut self) -> (r: Result<bool, Error>)
        requires
            old(self).wf(),
        ensures
            final(self).wf(),
            final(self).data@ == old(self).data@,
            old(self).pos < old(self).bits().len() ==> r == Ok::<bool, Error>(
                old(self).bits()[old(self).pos as int],
            ) && final(self).pos == old(self).pos + 1,
            old(self).pos >= old(self).bits().len() ==> r == Err::<bool, Error>(
                Error::UnexpectedEndOfData,
            ) && final(self).pos == old(self).pos,
    {
        let idx = self.pos / 8;
        if idx < self.data.len() {
            let byte = self.data[idx];
            let bitpos = self.pos % 8;
            let p: u8 = if bitpos == 0 {
                128
            } else if bitpos == 1 {
                64
            } else if bitpos == 2 {
                32
            } else if bitpos == 3 {
                16
            } else if bitpos == 4 {
                8
            } else if bitpos == 5 {
                4
            } else if bitpos == 6 {
                2
            } else {
                1
            };
            let bit = (byte / p) % 2 == 1;
            proof {
                lemma2_to64();
                assert(p as nat == pow2((7 - self.pos % 8) as nat));
            }
            self.pos = self.pos + 1;
            Ok(bit)
        } else {
            Err(Error::UnexpectedEndOfData)
        }
    }

    /// Read `n` bits (`n <= 32`) as one big-endian value, advancing the
    /// position; the position does not move when fewer than `n` bits remain.
    pub fn read_bits(&mut self, n: u32) -> (r: Result<u32, Error>)
        requires
            old(self).wf(),
            n <= 32,
        ensures
            final(self).wf(),
            final(self).data@ == old(self).data@,
            old(self).pos + n <= old(self).bits().len() ==> r == Ok::<u32, Error>(
                be_value(old(self).bits().subrange(old(self).pos as int, old(self).pos + n)) as u32,
            ) && final(self).pos == old(self).pos + n,
            old(self).pos + n > old(self).bits().len() ==> r == Err::<u32, Error>(
                Error::UnexpectedEndOfData,
            ) && final(self).pos == old(self).pos,
    {
        let total = self.data.len() * 8;
        if n as usize > total - self.pos {
            return Err(Error::UnexpectedEndOfData);
        }
        let ghost pos0 = self.pos as int;
        let ghost all = self.bits();
        let mut acc: u64 = 0;
        let mut i: u32 = 0;
        proof {
            lemma2_to64();
            assert(all.subrange(pos0, pos0) =~= Seq::<bool>::empty());
        }
        while i < n
            invariant
                self.wf(),
                n <= 32,
                i <= n,
                self.data@ == old(self).data@,
                all == self.bits(),
                pos0 == old(self).pos,
                self.pos == pos0 + i,
                pos0 + n <= all.len(),
                acc == be_value(all.subrange(pos0, pos0 + i)),
                acc < pow2(i as nat),
                pow2(32) == 0x100000000,
            decreases n - i,
        {
            let b = match self.read_bit() {
                Ok(b) => b,
                Err(_) => {
                    proof {
                        assert(false);
                    }
                    false
                },
            };
            proof {
                lemma_pow2_unfold((i + 1) as nat);
                assert(pow2(i as nat) <= pow2(32)) by {
                    if (i as nat) < 32 {
                        vstd::arithmetic::power2::lemma_pow2_strictly_increases(i as nat, 32);
                    }
                }
                assert(all.subrange(pos0, pos0 + i + 1).drop_last() =~= all.subrange(
                    pos0,
                    pos0 + i,
                ));
                assert(all.subrange(pos0, pos0 + i + 1).last() == all[pos0 + i]);
            }
            acc = acc * 2 + (if b {
                1
            } else {
                0
            });
            i = i + 1;
        }
        proof {
            lemma_be_value_bound(all.subrange(pos0, pos0 + n));
            assert(pow2(n as nat) <= pow2(32)) by {
                if (n as nat) < 32 {
                    vstd::arithmetic::power2::lemma_pow2_strictly_increases(n as nat, 32);
                }
            }
        }
        Ok(acc as u32)
    }
}

} // verus!
