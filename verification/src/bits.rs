//! Packed-bit read/write buffer.
//!
//! A `SpeexBits` owns a byte buffer and tracks independent read and write
//! cursors, both measured in bits. Bits are packed most-significant-bit
//! first within each byte. The buffer either grows on demand (owned) or is
//! bound to a fixed capacity taken over from a caller-supplied byte buffer;
//! packing past a fixed capacity and reading past the written length are
//! checked failures, never silent truncation.

use vstd::prelude::*;
use vstd::arithmetic::power2::{
    pow2,
    lemma2_to64,
    lemma_pow2_unfold,
    lemma_pow2_strictly_increases,
};

verus! {

/// Recoverable failures of the bit buffer.
#[derive(Copy, Clone, Eq, PartialEq, Structural, Debug)]
pub enum BitsError {
    /// A write would overflow a fixed-capacity buffer (or the machine's
    /// addressable size, for an owned buffer).
    CapacityExceeded,
    /// A read asked for more bits than remain unread.
    EndOfBuffer,
}

impl BitsError {
    /// A short human-readable description of the failure.
    pub fn message(&self) -> (r: &'static str)
        ensures
            *self is CapacityExceeded ==> r@ == "capacity exceeded"@,
            *self is EndOfBuffer ==> r@ == "end of buffer"@,
    {
        match self {
            BitsError::CapacityExceeded => "capacity exceeded",
            BitsError::EndOfBuffer => "end of buffer",
        }
    }
}

/// Largest backing-storage size (in bytes) the buffer ever uses, chosen so
/// that bit positions and byte counts never overflow a `usize`.
pub open spec fn max_bytes() -> int {
    (usize::MAX - 63) as int / 8
}

/// Bit `k` of byte `b`, counting `k` from the least significant bit.
pub open spec fn byte_bit(b: u8, k: u8) -> bool
    recommends
        k < 8,
{
    (b >> k) & 1u8 == 1u8
}

/// Bit `i` of a byte sequence in stream order: bit 0 is the most
/// significant bit of byte 0.
pub open spec fn stream_bit(bytes: Seq<u8>, i: int) -> bool
    recommends
        0 <= i < 8 * bytes.len(),
{
    byte_bit(bytes[i / 8], (7 - (i % 8)) as u8)
}

/// The first `8 * len` stream bits of a byte sequence.
pub open spec fn bytes_bits(bytes: Seq<u8>) -> Seq<bool> {
    Seq::new((8 * bytes.len()) as nat, |i: int| stream_bit(bytes, i))
}

/// The low `n` bits of `v`, most significant first.
pub open spec fn bits_of_uint(v: u32, n: nat) -> Seq<bool>
    decreases n,
{
    if n == 0 {
        Seq::empty()
    } else {
        bits_of_uint(v / 2, (n - 1) as nat).push(v % 2 == 1)
    }
}

/// The unsigned integer a most-significant-bit-first bit string denotes.
pub open spec fn uint_of_bits(s: Seq<bool>) -> nat
    decreases s.len(),
{
    if s.len() == 0 {
        0
    } else {
        2 * uint_of_bits(s.drop_last()) + (if s.last() {
            1nat
        } else {
            0nat
        })
    }
}

/// The signed integer a bit string denotes, using the leading bit as the
/// sign in two's complement over `s.len()` bits.
pub open spec fn sint_of_bits(s: Seq<bool>) -> int {
    if s.len() == 0 {
        0
    } else if s[0] {
        uint_of_bits(s) - vstd::arithmetic::power2::pow2(s.len())
    } else {
        uint_of_bits(s) as int
    }
}

/// Mathematical view of a `SpeexBits`: the raw backing bytes, the written
/// length and read position in bits, and whether the capacity is fixed.
pub ghost struct BitsView {
    pub storage: Seq<u8>,
    pub wlen: int,
    pub rpos: int,
    pub fixed: bool,
}

impl BitsView {
    /// Capacity in bits.
    pub open spec fn cap(self) -> int {
        8 * self.storage.len() as int
    }

    /// The written content: `wlen` bits in stream order.
    pub open spec fn bits(self) -> Seq<bool> {
        Seq::new(self.wlen as nat, |i: int| stream_bit(self.storage, i))
    }

    /// Number of bytes needed to hold the written bits, final partial byte
    /// rounded up.
    pub open spec fn byte_count(self) -> int {
        (self.wlen + 7) / 8
    }

    /// Number of written bits not yet read.
    pub open spec fn remaining(self) -> int {
        self.wlen - self.rpos
    }

    /// Well-formedness: the read position never passes the write position,
    /// the write position never passes the capacity, and the storage stays
    /// within the machine's addressable size.
    pub open spec fn wf(self) -> bool {
        &&& 0 <= self.rpos <= self.wlen <= self.cap()
        &&& self.storage.len() <= max_bytes()
    }
}

/// A packed-bit buffer with independent read and write cursors.
pub struct SpeexBits {
    data: Vec<u8>,
    write_pos: usize,
    read_pos: usize,
    fixed: bool,
}

impl View for SpeexBits {
    type V = BitsView;

    closed spec fn view(&self) -> BitsView {
        BitsView {
            storage: self.data@,
            wlen: self.write_pos as int,
            rpos: self.read_pos as int,
            fixed: self.fixed,
        }
    }
}

/// Reads bit `k` (from the least significant end) of a byte.
fn bit_get(b: u8, k: u8) -> (r: bool)
    requires
        k < 8,
    ensures
        r == byte_bit(b, k),
{
    (b >> k) & 1u8 == 1u8
}

/// Returns `b` with bit `k` (from the least significant end) set to `v`.
fn bit_set(b: u8, k: u8, v: bool) -> (r: u8)
    requires
        k < 8,
    ensures
        forall|j: u8| j < 8 ==> #[trigger] byte_bit(r, j) == (if j == k {
            v
        } else {
            byte_bit(b, j)
        }),
{
    if v {
        let r = b | (1u8 << k);
        proof {
            assert(forall|j: u8|
                j < 8 && k < 8 ==> (((b | (1u8 << k)) >> j) & 1u8 == 1u8) == (if j == k {
                    true
                } else {
                    (b >> j) & 1u8 == 1u8
                })) by (bit_vector);
        }
        r
    } else {
        let r = b & !(1u8 << k);
        proof {
            assert(forall|j: u8|
                j < 8 && k < 8 ==> (((b & !(1u8 << k)) >> j) & 1u8 == 1u8) == (if j == k {
                    false
                } else {
                    (b >> j) & 1u8 == 1u8
                })) by (bit_vector);
        }
        r
    }
}

impl SpeexBits {
    /// Creates a new empty bit buffer whose storage grows as needed.
    pub fn new() -> (r: Self)
        ensures
            r@.wf(),
            r@.bits() == Seq::<bool>::empty(),
            r@.wlen == 0,
            r@.rpos == 0,
            !r@.fixed,
    {
        let r = SpeexBits { data: Vec::new(), write_pos: 0, read_pos: 0, fixed: false };
        proof {
            assert(r@.bits() =~= Seq::<bool>::empty());
        }
        r
    }

    /// Creates a bit buffer bound to the given storage: the capacity is
    /// fixed to `buffer.len()` bytes and never grows. The buffer starts
    /// logically empty; its prior contents are treated as garbage.
    pub fn new_with_buffer(buffer: Vec<u8>) -> (r: Self)
        requires
            buffer@.len() <= max_bytes(),
        ensures
            r@.wf(),
            r@.storage == buffer@,
            r@.wlen == 0,
            r@.rpos == 0,
            r@.fixed,
    {
        SpeexBits { data: buffer, write_pos: 0, read_pos: 0, fixed: true }
    }

    /// The backing byte storage. Only the first `byte_count()` bytes hold
    /// written content; the rest is garbage.
    pub fn buffer(&self) -> (r: &Vec<u8>)
        ensures
            r@ == self@.storage,
    {
        &self.data
    }

    /// Number of bytes needed to hold the written bits, rounding the final
    /// partial byte up.
    pub fn num_bytes(&self) -> (r: usize)
        requires
            self@.wf(),
        ensures
            r == self@.byte_count(),
    {
        (self.write_pos + 7) / 8
    }

    /// Number of bits written but not yet read.
    pub fn remaining(&self) -> (r: usize)
        requires
            self@.wf(),
        ensures
            r == self@.remaining(),
    {
        self.write_pos - self.read_pos
    }

    /// Whether `n` more bits fit: within the fixed capacity of a bound
    /// buffer, or within the machine's addressable size for an owned one.
    pub fn fits(&self, n: usize) -> (r: bool)
        requires
            self@.wf(),
        ensures
            r == (if self@.fixed {
                self@.wlen + n <= self@.cap()
            } else {
                self@.wlen + n <= 8 * max_bytes()
            }),
    {
        if self.fixed {
            n <= 8 * self.data.len() - self.write_pos
        } else {
            let limit: usize = (usize::MAX - 63) / 8;
            n <= 8 * limit - self.write_pos
        }
    }

    /// Erases all content and zeroes both cursors. The capacity and the
    /// backing storage are kept.
    pub fn reset(&mut self)
        requires
            old(self)@.wf(),
        ensures
            final(self)@.wf(),
            final(self)@.wlen == 0,
            final(self)@.rpos == 0,
            final(self)@.storage == old(self)@.storage,
            final(self)@.fixed == old(self)@.fixed,
    {
        self.write_pos = 0;
        self.read_pos = 0;
    }

    /// Resets only the read cursor, so the written content can be read
    /// again from the start.
    pub fn rewind(&mut self)
        requires
            old(self)@.wf(),
        ensures
            final(self)@.wf(),
            final(self)@ == (BitsView { rpos: 0, ..old(self)@ }),
    {
        self.read_pos = 0;
    }

    /// Appends one bit at the write cursor, growing owned storage if needed.
    fn push_bit(&mut self, b: bool)
        requires
            old(self)@.wf(),
            old(self)@.wlen < old(self)@.cap() || (!old(self)@.fixed && old(self)@.storage.len()
                < max_bytes()),
        ensures
            final(self)@.wf(),
            final(self)@.bits() == old(self)@.bits().push(b),
            final(self)@.wlen == old(self)@.wlen + 1,
            final(self)@.rpos == old(self)@.rpos,
            final(self)@.fixed == old(self)@.fixed,
            old(self)@.fixed ==> final(self)@.storage.len() == old(self)@.storage.len(),
            final(self)@.storage.len() <= old(self)@.storage.len() + 1,
    {
        if self.write_pos == 8 * self.data.len() {
            self.data.push(0u8);
        }
        let byte_idx = self.write_pos / 8;
        let bit_idx: u8 = (7 - (self.write_pos % 8) as u8);
        let updated = bit_set(self.data[byte_idx], bit_idx, b);
        self.data[byte_idx] = updated;
        self.write_pos = self.write_pos + 1;
        proof {
            let pre = old(self)@;
            let post = self@;
            assert forall|i: int| 0 <= i < pre.wlen implies stream_bit(post.storage, i)
                == stream_bit(pre.storage, i) by {
                assert(i == 8 * (i / 8) + (i % 8));
                assert(pre.wlen == 8 * (pre.wlen / 8) + (pre.wlen % 8));
                if i / 8 == byte_idx {
                    assert(i % 8 != pre.wlen % 8);
                    assert(((7 - (i % 8)) as u8) != bit_idx);
                }
            }
            assert(stream_bit(post.storage, pre.wlen) == b) by {
                assert(pre.wlen / 8 == byte_idx as int);
                assert((7 - (pre.wlen % 8)) as u8 == bit_idx);
            }
            assert(post.bits() =~= pre.bits().push(b));
        }
    }

    /// Appends the low `num_bits` bits of `data`, most significant first.
    fn pack_raw(&mut self, data: u32, num_bits: u32)
        requires
            old(self)@.wf(),
            num_bits <= 32,
            old(self)@.wlen + num_bits <= old(self)@.cap() || (!old(self)@.fixed && old(
                self,
            )@.wlen + num_bits <= 8 * max_bytes()),
        ensures
            final(self)@.wf(),
            final(self)@.bits() == old(self)@.bits() + bits_of_uint(data, num_bits as nat),
            final(self)@.wlen == old(self)@.wlen + num_bits,
            final(self)@.rpos == old(self)@.rpos,
            final(self)@.fixed == old(self)@.fixed,
            old(self)@.fixed ==> final(self)@.storage.len() == old(self)@.storage.len(),
        decreases num_bits,
    {
        if num_bits == 0 {
            proof {
                assert(self@.bits() =~= self@.bits() + bits_of_uint(data, 0));
            }
        } else {
            self.pack_raw(data / 2, num_bits - 1);
            self.push_bit(data % 2 == 1);
            proof {
                assert(self@.bits() =~= old(self)@.bits() + bits_of_uint(
                    data,
                    num_bits as nat,
                ));
            }
        }
    }

    /// Appends the low `num_bits` bits of `data` to the stream, most
    /// significant bit first, advancing the write cursor.
    ///
    /// Fails with `CapacityExceeded` exactly when the bits do not fit: past
    /// the fixed capacity of a bound buffer, or past the machine's
    /// addressable size for an owned one. On failure nothing changes.
    pub fn pack(&mut self, data: u32, num_bits: u32) -> (r: Result<(), BitsError>)
        requires
            old(self)@.wf(),
            num_bits <= 32,
        ensures
            final(self)@.wf(),
            final(self)@.fixed == old(self)@.fixed,
            final(self)@.rpos == old(self)@.rpos,
            old(self)@.fixed ==> final(self)@.storage.len() == old(self)@.storage.len(),
            r is Ok <==> (if old(self)@.fixed {
                old(self)@.wlen + num_bits <= old(self)@.cap()
            } else {
                old(self)@.wlen + num_bits <= 8 * max_bytes()
            }),
            r is Ok ==> final(self)@.bits() == old(self)@.bits() + bits_of_uint(
                data,
                num_bits as nat,
            ) && final(self)@.wlen == old(self)@.wlen + num_bits,
            r is Err ==> final(self)@ == old(self)@ && r == Result::<(), BitsError>::Err(
                BitsError::CapacityExceeded,
            ),
    {
        if self.fixed {
            if num_bits as usize > 8 * self.data.len() - self.write_pos {
                return Err(BitsError::CapacityExceeded);
            }
        } else {
            let limit: usize = (usize::MAX - 63) / 8;
            if num_bits as usize > 8 * limit - self.write_pos {
                return Err(BitsError::CapacityExceeded);
            }
        }
        self.pack_raw(data, num_bits);
        Ok(())
    }

    /// Reads the bit at absolute stream position `pos`.
    fn read_bit_at(&self, pos: usize) -> (r: bool)
        requires
            self@.wf(),
            pos < self@.wlen,
        ensures
            r == self@.bits()[pos as int],
    {
        let byte_idx = pos / 8;
        let bit_idx: u8 = 7 - (pos % 8) as u8;
        bit_get(self.data[byte_idx], bit_idx)
    }

    /// Reads `num_bits` bits starting at stream position `pos` as an
    /// unsigned integer, most significant bit first.
    fn read_uint_at(&self, pos: usize, num_bits: u32) -> (r: u32)
        requires
            self@.wf(),
            num_bits <= 32,
            pos + num_bits <= self@.wlen,
        ensures
            r == uint_of_bits(self@.bits().subrange(pos as int, pos + num_bits)),
    {
        let mut acc: u32 = 0;
        let mut i: u32 = 0;
        proof {
            lemma2_to64();
            assert(self@.bits().subrange(pos as int, pos as int).len() == 0);
        }
        while i < num_bits
            invariant
                self@.wf(),
                num_bits <= 32,
                pos + num_bits <= self@.wlen,
                i <= num_bits,
                acc == uint_of_bits(self@.bits().subrange(pos as int, pos + i)),
                acc < pow2(i as nat),
            decreases num_bits - i,
        {
            let b = self.read_bit_at(pos + i as usize);
            proof {
                let s = self@.bits();
                let prefix = s.subrange(pos as int, pos + i);
                let ext = s.subrange(pos as int, pos + i + 1);
                assert(ext.drop_last() =~= prefix);
                assert(ext.last() == s[pos + i]);
                lemma_pow2_unfold((i + 1) as nat);
                lemma_pow2_le((i + 1) as nat, 32nat);
                lemma2_to64();
            }
            acc = 2 * acc + (if b {
                1
            } else {
                0
            });
            i = i + 1;
        }
        acc
    }

    /// The value of the next bit (1 or 0) without advancing the read
    /// cursor. Fails with `EndOfBuffer` exactly when no bits remain.
    pub fn peek(&self) -> (r: Result<u32, BitsError>)
        requires
            self@.wf(),
        ensures
            r is Ok <==> self@.remaining() > 0,
            r is Ok ==> r == Result::<u32, BitsError>::Ok(
                if self@.bits()[self@.rpos] {
                    1u32
                } else {
                    0u32
                },
            ),
            r is Err ==> r == Result::<u32, BitsError>::Err(BitsError::EndOfBuffer),
    {
        if self.read_pos >= self.write_pos {
            return Err(BitsError::EndOfBuffer);
        }
        if self.read_bit_at(self.read_pos) {
            Ok(1)
        } else {
            Ok(0)
        }
    }

    /// The value of the next `num_bits` bits as an unsigned integer,
    /// without advancing the read cursor. Fails with `EndOfBuffer` exactly
    /// when fewer than `num_bits` bits remain.
    pub fn peek_unsigned(&self, num_bits: u32) -> (r: Result<u32, BitsError>)
        requires
            self@.wf(),
            num_bits <= 32,
        ensures
            r is Ok <==> num_bits <= self@.remaining(),
            r is Ok ==> r == Result::<u32, BitsError>::Ok(
                uint_of_bits(self@.bits().subrange(self@.rpos, self@.rpos + num_bits)) as u32,
            ),
            r is Err ==> r == Result::<u32, BitsError>::Err(BitsError::EndOfBuffer),
    {
        if num_bits as usize > self.write_pos - self.read_pos {
            return Err(BitsError::EndOfBuffer);
        }
        proof {
            lemma_uint_of_bits_bound(self@.bits().subrange(self@.rpos, self@.rpos + num_bits));
            lemma_pow2_le(num_bits as nat, 32nat);
            lemma2_to64();
        }
        Ok(self.read_uint_at(self.read_pos, num_bits))
    }

    /// Reads the next `num_bits` bits as an unsigned integer, most
    /// significant bit first, advancing the read cursor. Fails with
    /// `EndOfBuffer` exactly when fewer than `num_bits` bits remain; on
    /// failure nothing changes.
    pub fn unpacked_unsigned(&mut self, num_bits: u32) -> (r: Result<u32, BitsError>)
        requires
            old(self)@.wf(),
            num_bits <= 32,
        ensures
            final(self)@.wf(),
            r is Ok <==> num_bits <= old(self)@.remaining(),
            r is Ok ==> r == Result::<u32, BitsError>::Ok(
                uint_of_bits(
                    old(self)@.bits().subrange(old(self)@.rpos, old(self)@.rpos + num_bits),
                ) as u32,
            ) && final(self)@ == (BitsView { rpos: old(self)@.rpos + num_bits, ..old(self)@ }),
            r is Err ==> final(self)@ == old(self)@ && r == Result::<u32, BitsError>::Err(
                BitsError::EndOfBuffer,
            ),
    {
        let v = self.peek_unsigned(num_bits)?;
        self.read_pos = self.read_pos + num_bits as usize;
        Ok(v)
    }

    /// Reads the next `num_bits` bits as a signed integer, advancing the
    /// read cursor; the first of the bits is the sign, in two's complement
    /// over `num_bits` bits. Fails with `EndOfBuffer` exactly when fewer
    /// than `num_bits` bits remain; on failure nothing changes.
    pub fn unpack_signed(&mut self, num_bits: u32) -> (r: Result<i32, BitsError>)
        requires
            old(self)@.wf(),
            num_bits <= 32,
        ensures
            final(self)@.wf(),
            r is Ok <==> num_bits <= old(self)@.remaining(),
            r is Ok ==> r == Result::<i32, BitsError>::Ok(
                sint_of_bits(
                    old(self)@.bits().subrange(old(self)@.rpos, old(self)@.rpos + num_bits),
                ) as i32,
            ) && final(self)@ == (BitsView { rpos: old(self)@.rpos + num_bits, ..old(self)@ }),
            r is Err ==> final(self)@ == old(self)@ && r == Result::<i32, BitsError>::Err(
                BitsError::EndOfBuffer,
            ),
    {
        let ghost s = old(self)@.bits().subrange(old(self)@.rpos, old(self)@.rpos + num_bits);
        let u = self.unpacked_unsigned(num_bits)?;
        if num_bits == 0 {
            return Ok(0);
        }
        proof {
            lemma_uint_of_bits_bound(s);
            lemma_uint_top_bit(s);
            lemma_pow2_unfold(num_bits as nat);
            lemma_pow2_le(num_bits as nat, 32nat);
            lemma2_to64();
        }
        let half = pow2_u64(num_bits - 1);
        if u as u64 >= half {
            let full = pow2_u64(num_bits);
            Ok((u as i64 - full as i64) as i32)
        } else {
            Ok(u as i32)
        }
    }

    /// Moves the read cursor forward by `n` bits without returning the
    /// payload, to skip padding or container framing. Fails with
    /// `EndOfBuffer` exactly when fewer than `n` bits remain; on failure
    /// nothing changes.
    pub fn advance(&mut self, n: u32) -> (r: Result<(), BitsError>)
        requires
            old(self)@.wf(),
        ensures
            final(self)@.wf(),
            r is Ok <==> n <= old(self)@.remaining(),
            r is Ok ==> final(self)@ == (BitsView { rpos: old(self)@.rpos + n, ..old(self)@ }),
            r is Err ==> final(self)@ == old(self)@ && r == Result::<(), BitsError>::Err(
                BitsError::EndOfBuffer,
            ),
    {
        if n as usize > self.write_pos - self.read_pos {
            return Err(BitsError::EndOfBuffer);
        }
        self.read_pos = self.read_pos + n as usize;
        Ok(())
    }

    /// Appends the stream-end sentinel: a low-layer frame header carrying
    /// the reserved submode value 15, which no data frame uses, so a
    /// decoder can detect the end of the stream without a length field.
    /// Fails with `CapacityExceeded` exactly when five more bits do not
    /// fit; on failure nothing changes.
    pub fn insert_terminator(&mut self) -> (r: Result<(), BitsError>)
        requires
            old(self)@.wf(),
        ensures
            final(self)@.wf(),
            final(self)@.fixed == old(self)@.fixed,
            final(self)@.rpos == old(self)@.rpos,
            old(self)@.fixed ==> final(self)@.storage.len() == old(self)@.storage.len(),
            r is Ok <==> (if old(self)@.fixed {
                old(self)@.wlen + 5 <= old(self)@.cap()
            } else {
                old(self)@.wlen + 5 <= 8 * max_bytes()
            }),
            r is Ok ==> final(self)@.bits() == old(self)@.bits() + terminator_bits()
                && final(self)@.wlen == old(self)@.wlen + 5,
            r is Err ==> final(self)@ == old(self)@ && r == Result::<(), BitsError>::Err(
                BitsError::CapacityExceeded,
            ),
    {
        self.pack(15, 5)
    }

    /// Flushes the byte at byte position `j` of the stream: its eight
    /// bits, zero-padded past the written length.
    fn extract_byte(&self, j: usize) -> (r: u8)
        requires
            self@.wf(),
            8 * j < self@.wlen,
        ensures
            r == stream_byte(self@.bits(), j as int),
    {
        let ghost p = pad8(self@.bits(), j as int);
        let mut acc: u8 = 0;
        let mut k: usize = 0;
        proof {
            lemma2_to64();
            assert(p.subrange(0, 0).len() == 0);
        }
        while k < 8
            invariant
                self@.wf(),
                8 * j < self@.wlen,
                k <= 8,
                p == pad8(self@.bits(), j as int),
                acc == uint_of_bits(p.subrange(0, k as int)),
                acc < pow2(k as nat),
            decreases 8 - k,
        {
            let pos = 8 * j + k;
            let b = if pos < self.write_pos {
                self.read_bit_at(pos)
            } else {
                false
            };
            proof {
                assert(b == p[k as int]);
                let ext = p.subrange(0, k + 1);
                assert(ext.drop_last() =~= p.subrange(0, k as int));
                assert(ext.last() == p[k as int]);
                lemma_pow2_unfold((k + 1) as nat);
                lemma_pow2_le((k + 1) as nat, 8nat);
                lemma2_to64();
            }
            acc = 2 * acc + (if b {
                1
            } else {
                0
            });
            k = k + 1;
        }
        proof {
            assert(p.subrange(0, 8) =~= p);
        }
        acc
    }

    /// Copies the written content into `buffer` as whole bytes, the final
    /// partial byte zero-padded, without consuming it. Returns how many
    /// bytes were copied: the full byte count if `buffer` is large enough,
    /// else `buffer.len()`. Bytes of `buffer` past the copied count keep
    /// their old values.
    pub fn write(&self, buffer: &mut Vec<u8>) -> (r: usize)
        requires
            self@.wf(),
        ensures
            final(buffer)@.len() == old(buffer)@.len(),
            r == (if self@.byte_count() <= old(buffer)@.len() {
                self@.byte_count()
            } else {
                old(buffer)@.len() as int
            }),
            forall|j: int| 0 <= j < r ==> final(buffer)@[j] == stream_byte(self@.bits(), j),
            forall|j: int| r <= j < final(buffer)@.len() ==> final(buffer)@[j] == old(buffer)@[j],
    {
        let total = self.num_bytes();
        let count = if total <= buffer.len() {
            total
        } else {
            buffer.len()
        };
        let mut j: usize = 0;
        while j < count
            invariant
                self@.wf(),
                count <= buffer@.len(),
                8 * count <= self@.wlen + 7,
                j <= count,
                buffer@.len() == old(buffer)@.len(),
                forall|i: int| 0 <= i < j ==> buffer@[i] == stream_byte(self@.bits(), i),
                forall|i: int| j <= i < buffer@.len() ==> buffer@[i] == old(buffer)@[i],
            decreases count - j,
        {
            let b = self.extract_byte(j);
            buffer[j] = b;
            j = j + 1;
        }
        count
    }

    /// Appends whole bytes to the stream, most significant bit of each
    /// byte first. Fails with `CapacityExceeded` exactly when the bits do
    /// not fit; on failure nothing changes.
    pub fn read_whole_bytes(&mut self, bytes: &[u8]) -> (r: Result<(), BitsError>)
        requires
            old(self)@.wf(),
            bytes@.len() <= max_bytes(),
        ensures
            final(self)@.wf(),
            final(self)@.fixed == old(self)@.fixed,
            final(self)@.rpos == old(self)@.rpos,
            r is Ok <==> (if old(self)@.fixed {
                old(self)@.wlen + 8 * bytes@.len() <= old(self)@.cap()
            } else {
                old(self)@.wlen + 8 * bytes@.len() <= 8 * max_bytes()
            }),
            r is Ok ==> final(self)@.bits() == old(self)@.bits() + bytes_bits(bytes@),
            r is Err ==> final(self)@ == old(self)@ && r == Result::<(), BitsError>::Err(
                BitsError::CapacityExceeded,
            ),
    {
        if self.fixed {
            if bytes.len() > (8 * self.data.len() - self.write_pos) / 8 {
                return Err(BitsError::CapacityExceeded);
            }
        } else {
            let limit: usize = (usize::MAX - 63) / 8;
            if bytes.len() > (8 * limit - self.write_pos) / 8 {
                return Err(BitsError::CapacityExceeded);
            }
        }
        let mut i: usize = 0;
        proof {
            assert(self@.bits() + bytes_bits(bytes@).subrange(0, 0) =~= self@.bits());
        }
        while i < 8 * bytes.len()
            invariant
                self@.wf(),
                bytes@.len() <= max_bytes(),
                i <= 8 * bytes@.len(),
                old(self)@.wlen + 8 * bytes@.len() <= (if old(self)@.fixed {
                    old(self)@.cap()
                } else {
                    8 * max_bytes()
                }),
                self@.fixed == old(self)@.fixed,
                self@.rpos == old(self)@.rpos,
                self@.wlen == old(self)@.wlen + i,
                old(self)@.fixed ==> self@.storage.len() == old(self)@.storage.len(),
                self@.bits() == old(self)@.bits() + bytes_bits(bytes@).subrange(0, i as int),
            decreases 8 * bytes@.len() - i,
        {
            let b = bit_get(bytes[i / 8], 7 - (i % 8) as u8);
            proof {
                assert(b == bytes_bits(bytes@)[i as int]);
            }
            self.push_bit(b);
            proof {
                assert(bytes_bits(bytes@).subrange(0, i + 1).drop_last() =~= bytes_bits(
                    bytes@,
                ).subrange(0, i as int));
                assert(self@.bits() =~= old(self)@.bits() + bytes_bits(bytes@).subrange(
                    0,
                    i + 1,
                ));
            }
            i = i + 1;
        }
        proof {
            assert(bytes_bits(bytes@).subrange(0, 8 * bytes@.len() as int) =~= bytes_bits(bytes@));
            assert(self@.bits() =~= old(self)@.bits() + bytes_bits(bytes@));
        }
        Ok(())
    }

    /// Replaces the content with the given packet bytes, so they can be
    /// read back out: the whole of `bytes` becomes the written content and
    /// the read cursor returns to the start. An owned buffer adopts the
    /// packet's size; a fixed-capacity buffer fails with
    /// `CapacityExceeded` exactly when the packet does not fit, and then
    /// nothing changes.
    pub fn read_from(&mut self, bytes: &[u8]) -> (r: Result<(), BitsError>)
        requires
            old(self)@.wf(),
            bytes@.len() <= max_bytes(),
        ensures
            final(self)@.wf(),
            final(self)@.fixed == old(self)@.fixed,
            r is Ok <==> (!old(self)@.fixed || bytes@.len() <= old(self)@.storage.len()),
            r is Ok ==> final(self)@.bits() == bytes_bits(bytes@) && final(self)@.rpos == 0
                && final(self)@.wlen == 8 * bytes@.len(),
            old(self)@.fixed ==> final(self)@.storage.len() == old(self)@.storage.len(),
            r is Err ==> final(self)@ == old(self)@ && r == Result::<(), BitsError>::Err(
                BitsError::CapacityExceeded,
            ),
    {
        if self.fixed {
            if bytes.len() > self.data.len() {
                return Err(BitsError::CapacityExceeded);
            }
            let mut i: usize = 0;
            while i < bytes.len()
                invariant
                    i <= bytes@.len(),
                    bytes@.len() <= self.data@.len(),
                    self.data@.len() == old(self)@.storage.len(),
                    self.fixed == old(self)@.fixed,
                    self.write_pos == old(self)@.wlen,
                    self.read_pos == old(self)@.rpos,
                    forall|j: int| 0 <= j < i ==> self.data@[j] == bytes@[j],
                decreases bytes@.len() - i,
            {
                let b = bytes[i];
                self.data[i] = b;
                i = i + 1;
            }
        } else {
            let mut d: Vec<u8> = Vec::new();
            let mut i: usize = 0;
            while i < bytes.len()
                invariant
                    i <= bytes@.len(),
                    d@.len() == i,
                    *self == *old(self),
                    forall|j: int| 0 <= j < i ==> d@[j] == bytes@[j],
                decreases bytes@.len() - i,
            {
                d.push(bytes[i]);
                i = i + 1;
            }
            self.data = d;
        }
        self.write_pos = 8 * bytes.len();
        self.read_pos = 0;
        proof {
            assert forall|i: int| 0 <= i < 8 * bytes@.len() implies stream_bit(self@.storage, i)
                == stream_bit(bytes@, i) by {
                assert(self@.storage[i / 8] == bytes@[i / 8]);
            }
            assert(self@.bits() =~= bytes_bits(bytes@));
        }
        Ok(())
    }

    /// Flushes complete bytes into `buffer` and removes them from the
    /// stream: the written content shifts down by the flushed bytes, any
    /// trailing partial byte stays, and the read cursor moves down with
    /// the content (to the start, if it pointed into the flushed part).
    /// Returns how many bytes were flushed: every complete byte if
    /// `buffer` is large enough, else `buffer.len()`. Bytes of `buffer`
    /// past that count keep their old values.
    pub fn write_whole_bytes(&mut self, buffer: &mut Vec<u8>) -> (r: usize)
        requires
            old(self)@.wf(),
        ensures
            final(self)@.wf(),
            final(buffer)@.len() == old(buffer)@.len(),
            r == (if old(self)@.wlen / 8 <= old(buffer)@.len() {
                old(self)@.wlen / 8
            } else {
                old(buffer)@.len() as int
            }),
            forall|j: int| 0 <= j < r ==> final(buffer)@[j] == stream_byte(old(self)@.bits(), j),
            forall|j: int|
                r <= j < final(buffer)@.len() ==> final(buffer)@[j] == old(buffer)@[j],
            final(self)@.bits() == old(self)@.bits().skip(8 * r),
            final(self)@.rpos == (if old(self)@.rpos >= 8 * r {
                old(self)@.rpos - 8 * r
            } else {
                0
            }),
            final(self)@.fixed == old(self)@.fixed,
            final(self)@.storage.len() == old(self)@.storage.len(),
    {
        let full: usize = self.write_pos / 8;
        let count = if full <= buffer.len() {
            full
        } else {
            buffer.len()
        };
        if count == 0 {
            proof {
                assert(old(self)@.bits().skip(0) =~= old(self)@.bits());
            }
            return 0;
        }
        let mut j: usize = 0;
        while j < count
            invariant
                self@.wf(),
                *self == *old(self),
                count <= buffer@.len(),
                8 * count <= self@.wlen,
                j <= count,
                buffer@.len() == old(buffer)@.len(),
                forall|i: int| 0 <= i < j ==> buffer@[i] == stream_byte(self@.bits(), i),
                forall|i: int| j <= i < buffer@.len() ==> buffer@[i] == old(buffer)@[i],
            decreases count - j,
        {
            let b = self.extract_byte(j);
            buffer[j] = b;
            j = j + 1;
        }
        let tail_len: usize = self.write_pos - 8 * count;
        let tail_bytes: usize = (tail_len + 7) / 8;
        let mut t: usize = 0;
        while t < tail_bytes
            invariant
                self@.wf(),
                self@.storage.len() == old(self)@.storage.len(),
                self@.fixed == old(self)@.fixed,
                self@.wlen == old(self)@.wlen,
                self@.rpos == old(self)@.rpos,
                1 <= count,
                8 * count <= self@.wlen,
                tail_len == self@.wlen - 8 * count,
                tail_bytes == (tail_len + 7) / 8,
                t <= tail_bytes,
                forall|i: int|
                    t <= i < self@.storage.len() ==> self@.storage[i] == old(self)@.storage[i],
                forall|i: int|
                    0 <= i < t ==> self@.storage[i] == stream_byte(
                        old(self)@.bits(),
                        count + i,
                    ),
            decreases tail_bytes - t,
        {
            proof {
                assert(8 * t < tail_len);
                assert(pad8(self@.bits(), count + t) =~= pad8(old(self)@.bits(), count + t)) by {
                    assert forall|k: int|
                        #![trigger pad8(self@.bits(), count + t)[k]]
                        0 <= k < 8 implies pad8(self@.bits(), count + t)[k] == pad8(
                        old(self)@.bits(),
                        count + t,
                    )[k] by {
                        let q = 8 * (count + t) + k;
                        if q < self@.wlen {
                            assert(q / 8 == count + t);
                            assert(self@.storage[count + t] == old(self)@.storage[count + t]);
                        }
                    }
                }
            }
            let b = self.extract_byte(count + t);
            self.data[t] = b;
            t = t + 1;
        }
        self.write_pos = tail_len;
        if self.read_pos >= 8 * count {
            self.read_pos = self.read_pos - 8 * count;
        } else {
            self.read_pos = 0;
        }
        proof {
            assert forall|p: int| 0 <= p < tail_len implies stream_bit(self@.storage, p) == old(
                self,
            )@.bits()[8 * count + p] by {
                let bi = p / 8;
                assert(8 * bi <= p);
                assert(bi < tail_bytes);
                assert(self@.storage[bi] == stream_byte(old(self)@.bits(), count + bi));
                lemma_stream_byte_bit(old(self)@.bits(), count + bi, (7 - p % 8) as u8);
                assert(pad8(old(self)@.bits(), count + bi)[p % 8] == old(self)@.bits()[8 * count
                    + p]);
            }
            assert(self@.bits() =~= old(self)@.bits().skip(8 * count as int));
        }
        count
    }

    /// Binds the buffer to the given bytes as already-written content: the
    /// capacity becomes fixed at `buffer.len()` bytes, the whole of
    /// `buffer` is the written content, and the read cursor returns to the
    /// start.
    pub fn set_bit_buffer(&mut self, buffer: Vec<u8>)
        requires
            old(self)@.wf(),
            buffer@.len() <= max_bytes(),
        ensures
            final(self)@.wf(),
            final(self)@.storage == buffer@,
            final(self)@.fixed,
            final(self)@.wlen == 8 * buffer@.len(),
            final(self)@.rpos == 0,
            final(self)@.bits() == bytes_bits(buffer@),
    {
        self.write_pos = 8 * buffer.len();
        self.read_pos = 0;
        self.fixed = true;
        self.data = buffer;
        proof {
            assert(self@.bits() =~= bytes_bits(self@.storage));
        }
    }
}

/// The five-bit stream-end sentinel: a low-layer header whose submode
/// field holds the reserved value 15.
pub open spec fn terminator_bits() -> Seq<bool> {
    bits_of_uint(15, 5)
}

/// The 8 stream bits at byte position `j`, zero-padded past the end of
/// the stream: what flushing that byte position produces.
pub open spec fn pad8(s: Seq<bool>, j: int) -> Seq<bool> {
    Seq::new(
        8,
        |k: int|
            if 8 * j + k < s.len() {
                s[8 * j + k]
            } else {
                false
            },
    )
}

/// The byte that flushing byte position `j` of a bit stream produces.
pub open spec fn stream_byte(s: Seq<bool>, j: int) -> u8 {
    uint_of_bits(pad8(s, j)) as u8
}

/// The low `n` bits of a value are `n` bits.
pub proof fn lemma_bits_of_uint_len(v: u32, n: nat)
    ensures
        bits_of_uint(v, n).len() == n,
    decreases n,
{
    if n > 0 {
        lemma_bits_of_uint_len(v / 2, (n - 1) as nat);
    }
}

/// Index characterization of `bits_of_uint`: element `i` (counting from
/// the most significant end) is binary digit `n - 1 - i` of `v`.
proof fn lemma_bits_of_uint_index(v: u32, n: nat, i: int)
    requires
        n <= 32,
        0 <= i < n,
    ensures
        bits_of_uint(v, n)[i] == ((v as int / pow2((n - 1 - i) as nat) as int) % 2 == 1),
    decreases n,
{
    lemma2_to64();
    lemma_bits_of_uint_len(v, n);
    lemma_bits_of_uint_len(v / 2, (n - 1) as nat);
    if i == n - 1 {
        assert(bits_of_uint(v, n)[i] == (v % 2 == 1));
        assert(pow2((n - 1 - i) as nat) == 1);
        assert(v as int / 1 == v as int);
    } else {
        lemma_bits_of_uint_index(v / 2, (n - 1) as nat, i);
        assert(bits_of_uint(v, n)[i] == bits_of_uint(v / 2, (n - 1) as nat)[i]);
        assert(bits_of_uint(v / 2, (n - 1) as nat)[i] == (((v / 2) as int / pow2(
            (n - 2 - i) as nat,
        ) as int) % 2 == 1));
        vstd::arithmetic::power2::lemma_pow2_pos((n - 2 - i) as nat);
        lemma_pow2_unfold((n - 1 - i) as nat);
        assert((v / 2) as int == v as int / 2);
        vstd::arithmetic::div_mod::lemma_div_denominator(
            v as int,
            2,
            pow2((n - 2 - i) as nat) as int,
        );
        assert((v as int / 2) / pow2((n - 2 - i) as nat) as int == v as int / (2 * pow2(
            (n - 2 - i) as nat,
        ) as int));
        assert(2 * pow2((n - 2 - i) as nat) as int == pow2((n - 1 - i) as nat) as int);
    }
}

/// Reading a bit of a byte is reading a binary digit of its value.
proof fn lemma_byte_bit_arith(b: u8, k: u8)
    requires
        k < 8,
    ensures
        byte_bit(b, k) == ((b as int / pow2(k as nat) as int) % 2 == 1),
{
    vstd::bits::lemma_u8_shr_is_div(b, k);
    let s = b >> k;
    assert((s & 1u8 == 1u8) == (s % 2u8 == 1u8)) by (bit_vector);
}

/// A most-significant-first bit string of length at most 32 is recovered
/// exactly from the unsigned value it denotes.
pub proof fn lemma_bits_of_uint_of_bits(s: Seq<bool>)
    requires
        s.len() <= 32,
    ensures
        bits_of_uint(uint_of_bits(s) as u32, s.len()) == s,
    decreases s.len(),
{
    lemma_uint_of_bits_bound(s);
    lemma_pow2_le(s.len(), 32nat);
    lemma2_to64();
    if s.len() == 0 {
        assert(bits_of_uint(uint_of_bits(s) as u32, s.len()) =~= s);
    } else {
        let d = s.drop_last();
        lemma_bits_of_uint_of_bits(d);
        lemma_uint_of_bits_bound(d);
        lemma_pow2_le(d.len(), 32nat);
        let u = uint_of_bits(s);
        assert((u as u32) as int / 2 == uint_of_bits(d) as int);
        assert(((u as u32) % 2 == 1) == s.last());
        assert(bits_of_uint(u as u32, s.len()) =~= s);
    }
}

/// Reading bit `k` back out of a flushed stream byte gives the stream bit
/// it was built from (or zero past the end of the stream).
proof fn lemma_stream_byte_bit(s: Seq<bool>, j: int, k: u8)
    requires
        k < 8,
    ensures
        byte_bit(stream_byte(s, j), k) == pad8(s, j)[7 - k],
{
    let p = pad8(s, j);
    lemma_uint_of_bits_bound(p);
    lemma2_to64();
    let b = stream_byte(s, j);
    assert(b as int == uint_of_bits(p) as int);
    lemma_bits_of_uint_of_bits(p);
    assert(bits_of_uint(b as u32, 8) == p) by {
        assert(b as u32 == uint_of_bits(p) as u32);
    }
    lemma_bits_of_uint_index(b as u32, 8, 7 - k as int);
    lemma_byte_bit_arith(b, k);
}

/// Serialization round trip: the bytes that flushing a stream produces
/// hold exactly the written bits, zero-padded to whole bytes — so
/// loading them back restores the stream.
pub proof fn lemma_write_read_roundtrip(v: BitsView)
    requires
        v.wf(),
    ensures
        ({
            let flushed = Seq::new(v.byte_count() as nat, |j: int| stream_byte(v.bits(), j));
            &&& bytes_bits(flushed).subrange(0, v.wlen) == v.bits()
            &&& forall|i: int| v.wlen <= i < 8 * v.byte_count() ==> !bytes_bits(flushed)[i]
        }),
{
    let flushed = Seq::new(v.byte_count() as nat, |j: int| stream_byte(v.bits(), j));
    assert forall|i: int| 0 <= i < 8 * v.byte_count() implies bytes_bits(flushed)[i] == (if i
        < v.wlen {
        v.bits()[i]
    } else {
        false
    }) by {
        assert(i / 8 < v.byte_count());
        assert(flushed[i / 8] == stream_byte(v.bits(), i / 8));
        lemma_stream_byte_bit(v.bits(), i / 8, (7 - (i % 8)) as u8);
        assert(pad8(v.bits(), i / 8)[i % 8] == (if 8 * (i / 8) + (i % 8) < v.wlen {
            v.bits()[8 * (i / 8) + (i % 8)]
        } else {
            false
        }));
        assert(8 * (i / 8) + (i % 8) == i);
    }
    assert(bytes_bits(flushed).subrange(0, v.wlen) =~= v.bits());
}

/// `pow2` is monotone.
proof fn lemma_pow2_le(e1: nat, e2: nat)
    requires
        e1 <= e2,
    ensures
        pow2(e1) <= pow2(e2),
{
    if e1 < e2 {
        lemma_pow2_strictly_increases(e1, e2);
    }
}

/// `pow2(n)` as a run-time value.
fn pow2_u64(n: u32) -> (r: u64)
    requires
        n <= 32,
    ensures
        r == pow2(n as nat),
    decreases n,
{
    if n == 0 {
        proof {
            lemma2_to64();
        }
        1
    } else {
        let h = pow2_u64(n - 1);
        proof {
            lemma_pow2_unfold(n as nat);
            lemma_pow2_le(n as nat, 32nat);
            lemma2_to64();
        }
        2 * h
    }
}

/// A bit string of length `n` denotes a value below `pow2(n)`.
pub proof fn lemma_uint_of_bits_bound(s: Seq<bool>)
    ensures
        uint_of_bits(s) < pow2(s.len()),
    decreases s.len(),
{
    if s.len() == 0 {
        lemma2_to64();
    } else {
        lemma_uint_of_bits_bound(s.drop_last());
        lemma_pow2_unfold(s.len());
    }
}

/// A single bit denotes one or zero.
pub proof fn lemma_uint_of_bits_single(s: Seq<bool>)
    requires
        s.len() == 1,
    ensures
        uint_of_bits(s) == (if s[0] {
            1nat
        } else {
            0nat
        }),
{
    assert(s.drop_last().len() == 0);
    assert(uint_of_bits(s.drop_last()) == 0);
    assert(s.last() == s[0]);
}

/// Splitting a bit string at `k` splits its value: the high part's value
/// is scaled by two to the power of the low part's length.
pub proof fn lemma_uint_of_bits_split(s: Seq<bool>, k: int)
    requires
        0 <= k <= s.len(),
    ensures
        uint_of_bits(s) == uint_of_bits(s.subrange(0, k)) * pow2((s.len() - k) as nat)
            + uint_of_bits(s.subrange(k, s.len() as int)),
    decreases s.len(),
{
    lemma2_to64();
    if k == s.len() {
        assert(s.subrange(0, k) =~= s);
        assert(s.subrange(k, s.len() as int).len() == 0);
        assert(uint_of_bits(s.subrange(k, s.len() as int)) == 0);
        assert(uint_of_bits(s.subrange(0, k)) == uint_of_bits(s));
        vstd::arithmetic::mul::lemma_mul_basics(uint_of_bits(s) as int);
        assert(pow2((s.len() - k) as nat) == 1);
    } else {
        let d = s.drop_last();
        lemma_uint_of_bits_split(d, k);
        assert(d.subrange(0, k) =~= s.subrange(0, k));
        let tail = s.subrange(k, s.len() as int);
        assert(tail.drop_last() =~= d.subrange(k, d.len() as int));
        let a = uint_of_bits(s.subrange(0, k)) as int;
        let b: int = if s.last() {
            1
        } else {
            0
        };
        let pm = pow2((d.len() - k) as nat) as int;
        let pm1 = pow2((s.len() - k) as nat) as int;
        lemma_pow2_unfold((s.len() - k) as nat);
        assert(tail.len() > 0);
        assert(tail.last() == s.last());
        assert(uint_of_bits(s) == 2 * uint_of_bits(d) + b);
        assert(uint_of_bits(tail) == 2 * uint_of_bits(d.subrange(k, d.len() as int)) + b);
        assert(2 * (a * pm) == a * pm1) by (nonlinear_arith)
            requires
                pm1 == 2 * pm,
        ;
        vstd::arithmetic::mul::lemma_mul_nonnegative(a, pm1);
        assert(uint_of_bits(s) == a * pm1 + uint_of_bits(tail));
    }
}

/// The leading bit of a bit string is set exactly when the value it
/// denotes reaches the top half of its range.
pub proof fn lemma_uint_top_bit(s: Seq<bool>)
    requires
        s.len() > 0,
    ensures
        s[0] <==> uint_of_bits(s) >= pow2((s.len() - 1) as nat),
    decreases s.len(),
{
    if s.len() == 1 {
        lemma2_to64();
        assert(s.drop_last().len() == 0);
        assert(uint_of_bits(s.drop_last()) == 0);
        assert(uint_of_bits(s) == (if s.last() {
            1nat
        } else {
            0nat
        }));
        assert(s[0] == s.last());
    } else {
        let d = s.drop_last();
        lemma_uint_top_bit(d);
        lemma_uint_of_bits_bound(d);
        lemma_pow2_unfold((s.len() - 1) as nat);
        assert(d[0] == s[0]);
    }
}

/// Round-trip law: packing a value `v` that fits in `n` bits and reading
/// `n` bits back yields `v` exactly.
pub proof fn lemma_pack_unpack_roundtrip(v: u32, n: nat)
    requires
        n <= 32,
        v < pow2(n),
    ensures
        uint_of_bits(bits_of_uint(v, n)) == v,
    decreases n,
{
    if n == 0 {
        lemma2_to64();
    } else {
        lemma_pow2_unfold(n);
        lemma_pack_unpack_roundtrip(v / 2, (n - 1) as nat);
        let s = bits_of_uint(v, n);
        assert(s.drop_last() =~= bits_of_uint(v / 2, (n - 1) as nat));
    }
}

/// After `reset`, the buffer reads as empty: its byte count and its
/// remaining unread bits are both zero.
pub proof fn lemma_reset_observations(v: BitsView)
    requires
        v.wf(),
        v.wlen == 0,
        v.rpos == 0,
    ensures
        v.byte_count() == 0,
        v.remaining() == 0,
{
}

/// `rewind` preserves the written content and its byte count, and makes
/// every written bit unread again.
pub proof fn lemma_rewind_observations(pre: BitsView, post: BitsView)
    requires
        pre.wf(),
        post == (BitsView { rpos: 0, ..pre }),
    ensures
        post.byte_count() == pre.byte_count(),
        post.bits() == pre.bits(),
        post.remaining() == pre.wlen,
{
}

/// The byte count is the written bit length divided by eight, rounded up:
/// zero for an empty stream, and otherwise the unique count whose last
/// byte holds between one and eight of the written bits.
pub proof fn lemma_byte_count_ceil(v: BitsView)
    requires
        v.wf(),
    ensures
        v.wlen == 0 ==> v.byte_count() == 0,
        v.wlen > 0 ==> 8 * (v.byte_count() - 1) < v.wlen <= 8 * v.byte_count(),
{
}

impl Default for SpeexBits {
    /// Same as `SpeexBits::new`.
    fn default() -> (r: Self)
        ensures
            r@.wf(),
            r@.wlen == 0,
            r@.rpos == 0,
            !r@.fixed,
    {
        SpeexBits::new()
    }
}

} // verus!
