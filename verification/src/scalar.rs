//! Double-precision numbers as bit patterns.
//!
//! A [`Scalar`] is an IEEE-754 binary64 value held as its sixty-four bits. The
//! order of two values and the eight bytes that go into a binary payload are
//! both functions of the bits alone, so they are computed on integers here.

use vstd::prelude::*;

verus! {

/// The bit that carries the sign.
pub const SIGN_BIT: u64 = 0x8000_0000_0000_0000;

/// The magnitude of the two infinities; every larger magnitude is a NaN.
pub const INFINITY_MAGNITUDE: u64 = 0x7ff0_0000_0000_0000;

/// The bits of the quiet NaN that pads short matrices.
pub const NAN_BITS: u64 = 0x7ff8_0000_0000_0000;

/// The bits of one half, the default tick scale.
pub const HALF_BITS: u64 = 0x3fe0_0000_0000_0000;

/// A double-precision number, held as its bit pattern.
#[derive(Clone, Copy, Debug, PartialEq, Eq, Structural)]
pub struct Scalar {
    pub bits: u64,
}

impl Scalar {
    /// The bits without the sign.
    pub open spec fn magnitude(self) -> int {
        if self.bits >= SIGN_BIT {
            self.bits - SIGN_BIT
        } else {
            self.bits as int
        }
    }

    /// Whether the value is not a number.
    pub open spec fn is_nan(self) -> bool {
        self.magnitude() > INFINITY_MAGNITUDE
    }

    /// A position on the number line that orders every value that is a
    /// number as its numeric value does; both zeros stand at 0.
    pub open spec fn rank(self) -> int {
        if self.bits >= SIGN_BIT {
            -self.magnitude()
        } else {
            self.magnitude()
        }
    }

    /// Numeric `<`: false when either side is a NaN.
    pub open spec fn lt(self, other: Scalar) -> bool {
        !self.is_nan() && !other.is_nan() && self.rank() < other.rank()
    }

    /// Numeric `<=`: false when either side is a NaN.
    pub open spec fn le(self, other: Scalar) -> bool {
        !self.is_nan() && !other.is_nan() && self.rank() <= other.rank()
    }

    /// Numeric `> 0`.
    pub open spec fn is_positive(self) -> bool {
        !self.is_nan() && self.rank() > 0
    }

    /// Numeric `>= 0`.
    pub open spec fn is_non_negative(self) -> bool {
        !self.is_nan() && self.rank() >= 0
    }

    /// Numeric `<= 0`.
    pub open spec fn is_non_positive(self) -> bool {
        !self.is_nan() && self.rank() <= 0
    }

    /// The number with the given bits.
    pub fn from_bits(bits: u64) -> (r: Scalar)
        ensures
            r.bits == bits,
    {
        Scalar { bits }
    }

    /// The bits of the number.
    pub fn to_bits(&self) -> (bits: u64)
        ensures
            bits == self.bits,
    {
        self.bits
    }

    /// The quiet NaN used as padding.
    pub fn nan() -> (r: Scalar)
        ensures
            r.bits == NAN_BITS,
            r.is_nan(),
    {
        Scalar { bits: NAN_BITS }
    }

    /// One half.
    pub fn half() -> (r: Scalar)
        ensures
            r.bits == HALF_BITS,
    {
        Scalar { bits: HALF_BITS }
    }

    fn sign_and_magnitude(&self) -> (r: (bool, u64))
        ensures
            r.0 == (self.bits >= SIGN_BIT),
            r.1 == self.magnitude(),
    {
        if self.bits >= SIGN_BIT {
            (true, self.bits - SIGN_BIT)
        } else {
            (false, self.bits)
        }
    }

    /// Whether the value is not a number.
    pub fn check_nan(&self) -> (r: bool)
        ensures
            r == self.is_nan(),
    {
        let (_, m) = self.sign_and_magnitude();
        m > INFINITY_MAGNITUDE
    }

    /// Numeric `self < other`.
    pub fn less_than(&self, other: &Scalar) -> (r: bool)
        ensures
            r == self.lt(*other),
    {
        let (sa, ma) = self.sign_and_magnitude();
        let (sb, mb) = other.sign_and_magnitude();
        if ma > INFINITY_MAGNITUDE || mb > INFINITY_MAGNITUDE {
            false
        } else if sa {
            if sb {
                mb < ma
            } else {
                ma > 0 || mb > 0
            }
        } else {
            !sb && ma < mb
        }
    }

    /// Numeric `self <= other`.
    pub fn at_most(&self, other: &Scalar) -> (r: bool)
        ensures
            r == self.le(*other),
    {
        let (sa, ma) = self.sign_and_magnitude();
        let (sb, mb) = other.sign_and_magnitude();
        if ma > INFINITY_MAGNITUDE || mb > INFINITY_MAGNITUDE {
            false
        } else if sa {
            if sb {
                mb <= ma
            } else {
                true
            }
        } else {
            if sb {
                ma == 0 && mb == 0
            } else {
                ma <= mb
            }
        }
    }

    /// Numeric `self > 0`.
    pub fn check_positive(&self) -> (r: bool)
        ensures
            r == self.is_positive(),
    {
        0 < self.bits && self.bits <= INFINITY_MAGNITUDE
    }

    /// Numeric `self <= 0`.
    pub fn check_non_positive(&self) -> (r: bool)
        ensures
            r == self.is_non_positive(),
    {
        self.bits == 0 || (self.bits >= SIGN_BIT && self.bits - SIGN_BIT <= INFINITY_MAGNITUDE)
    }

    /// Numeric `self >= 0`.
    pub fn check_non_negative(&self) -> (r: bool)
        ensures
            r == self.is_non_negative(),
    {
        self.bits <= INFINITY_MAGNITUDE || self.bits == SIGN_BIT
    }
}

/// Byte `index` of `bits`, counted from the least significant.
pub open spec fn byte_of(bits: u64, index: u64) -> u8 {
    ((bits >> (8 * index) as u64) & 0xff) as u8
}

/// The eight bytes of `bits`, least significant first.
pub open spec fn le_bytes(bits: u64) -> Seq<u8> {
    seq![
        byte_of(bits, 0),
        byte_of(bits, 1),
        byte_of(bits, 2),
        byte_of(bits, 3),
        byte_of(bits, 4),
        byte_of(bits, 5),
        byte_of(bits, 6),
        byte_of(bits, 7),
    ]
}

/// The bits that eight little-endian bytes spell.
pub open spec fn from_le_bytes(bytes: Seq<u8>) -> u64
    recommends
        bytes.len() == 8,
{
    (bytes[0] as u64) | (bytes[1] as u64) << 8 | (bytes[2] as u64) << 16 | (bytes[3] as u64) << 24
        | (bytes[4] as u64) << 32 | (bytes[5] as u64) << 40 | (bytes[6] as u64) << 48 | (
    bytes[7] as u64) << 56
}

/// The binary payload of a run of samples: eight bytes each, in order, with
/// nothing before, between or after them.
pub open spec fn encode(samples: Seq<Scalar>) -> Seq<u8>
    decreases samples.len(),
{
    if samples.len() == 0 {
        Seq::empty()
    } else {
        encode(samples.drop_last()) + le_bytes(samples.last().bits)
    }
}

/// What a reader of little-endian doubles finds in `bytes`: one sample for
/// every full group of eight bytes.
pub open spec fn decode(bytes: Seq<u8>) -> Seq<Scalar> {
    Seq::new(
        (bytes.len() / 8) as nat,
        |i: int| Scalar { bits: from_le_bytes(bytes.subrange(8 * i, 8 * i + 8)) },
    )
}

/// Reading back the eight bytes of a bit pattern gives the pattern.
pub proof fn lemma_le_bytes_round_trip(bits: u64)
    ensures
        le_bytes(bits).len() == 8,
        from_le_bytes(le_bytes(bits)) == bits,
{
    let b0 = byte_of(bits, 0);
    let b1 = byte_of(bits, 1);
    let b2 = byte_of(bits, 2);
    let b3 = byte_of(bits, 3);
    let b4 = byte_of(bits, 4);
    let b5 = byte_of(bits, 5);
    let b6 = byte_of(bits, 6);
    let b7 = byte_of(bits, 7);
    assert((b0 as u64) | (b1 as u64) << 8 | (b2 as u64) << 16 | (b3 as u64) << 24 | (b4 as u64)
        << 32 | (b5 as u64) << 40 | (b6 as u64) << 48 | (b7 as u64) << 56 == bits) by (bit_vector)
        requires
            b0 == ((bits >> 0) & 0xff) as u8,
            b1 == ((bits >> 8) & 0xff) as u8,
            b2 == ((bits >> 16) & 0xff) as u8,
            b3 == ((bits >> 24) & 0xff) as u8,
            b4 == ((bits >> 32) & 0xff) as u8,
            b5 == ((bits >> 40) & 0xff) as u8,
            b6 == ((bits >> 48) & 0xff) as u8,
            b7 == ((bits >> 56) & 0xff) as u8,
    ;
}

/// A payload is eight bytes per sample.
pub proof fn lemma_encode_len(samples: Seq<Scalar>)
    ensures
        encode(samples).len() == 8 * samples.len(),
    decreases samples.len(),
{
    if samples.len() > 0 {
        lemma_encode_len(samples.drop_last());
    }
}

/// Sample `i` occupies bytes `8 * i .. 8 * i + 8` of the payload.
pub proof fn lemma_encode_window(samples: Seq<Scalar>, i: int)
    requires
        0 <= i < samples.len(),
    ensures
        encode(samples).len() == 8 * samples.len(),
        encode(samples).subrange(8 * i, 8 * i + 8) == le_bytes(samples[i].bits),
    decreases samples.len(),
{
    lemma_encode_len(samples);
    lemma_encode_len(samples.drop_last());
    if i == samples.len() - 1 {
        assert(encode(samples).subrange(8 * i, 8 * i + 8) =~= le_bytes(samples[i].bits));
    } else {
        lemma_encode_window(samples.drop_last(), i);
        assert(encode(samples).subrange(8 * i, 8 * i + 8) =~= encode(
            samples.drop_last(),
        ).subrange(8 * i, 8 * i + 8));
    }
}

/// Encoding any run of samples and reading the bytes back as little-endian
/// doubles gives the same run, bit for bit, NaNs included.
pub proof fn lemma_decode_encode(samples: Seq<Scalar>)
    ensures
        decode(encode(samples)) == samples,
{
    lemma_encode_len(samples);
    let back = decode(encode(samples));
    assert(back.len() == samples.len());
    assert forall|i: int| 0 <= i < samples.len() implies back[i] == samples[i] by {
        lemma_encode_window(samples, i);
        lemma_le_bytes_round_trip(samples[i].bits);
    }
    assert(back =~= samples);
}

/// Appends the eight little-endian bytes of `value` to `buffer`.
pub fn write_data(buffer: &mut Vec<u8>, value: Scalar)
    ensures
        final(buffer)@ == old(buffer)@ + le_bytes(value.bits),
{
    let bits = value.bits;
    let mut index: u64 = 0;
    while index < 8
        invariant
            index <= 8,
            buffer@.len() == old(buffer)@.len() + index,
            forall|k: int| 0 <= k < old(buffer)@.len() ==> buffer@[k] == old(buffer)@[k],
            forall|k: int|
                old(buffer)@.len() <= k < buffer@.len() ==> #[trigger] buffer@[k] == byte_of(
                    bits,
                    (k - old(buffer)@.len()) as u64,
                ),
        decreases 8 - index,
    {
        let shifted: u64 = bits >> (8 * index);
        let low: u64 = shifted & 0xff;
        assert(low < 256) by (bit_vector)
            requires
                low == shifted & 0xff,
        ;
        buffer.push(low as u8);
        index = index + 1;
    }
    assert(buffer@ =~= old(buffer)@ + le_bytes(value.bits));
}

} // verus!
