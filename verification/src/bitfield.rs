//! A field of a register word, with its length and position in the word
//! fixed by the type.
//!
//! `BitField<LEN, SHIFT, T>` wraps a register value of type `T` and gives
//! access to the `LEN` bits starting at bit `SHIFT`. The value is widened to
//! a 64-bit word, the arithmetic is done there, and the result is narrowed
//! back to `T`.
use vstd::prelude::*;

verus! {

/// The mask with the low `width` bits set (for `width < 64`).
pub open spec fn low_mask64(width: u64) -> u64 {
    !(0xffff_ffff_ffff_ffffu64 << width)
}

/// Value held by the `width`-bit field of `x` that starts at bit `shift`.
pub open spec fn field64(x: u64, shift: u64, width: u64) -> u64 {
    (x >> shift) & low_mask64(width)
}

/// `x` and `y` agree on every bit outside the field.
pub open spec fn same_outside64(x: u64, y: u64, shift: u64, width: u64) -> bool {
    x & !(low_mask64(width) << shift) == y & !(low_mask64(width) << shift)
}

/// Integer types that can hold a register value.
pub trait Word: Copy + Sized {
    /// Number of bits of the type.
    spec fn width() -> u64;

    /// The value, zero-extended to 64 bits.
    spec fn wide(self) -> u64;

    /// The value, zero-extended to `u64`.
    fn to_u64(self) -> (r: u64)
        ensures
            r == self.wide(),
            Self::width() == 8 || Self::width() == 16 || Self::width() == 32 || Self::width() == 64,
            Self::width() < 64 ==> self.wide() <= low_mask64(Self::width()),
    ;

    /// Narrows a value that fits in the type.
    fn from_u64(x: u64) -> (r: Self)
        requires
            Self::width() < 64 ==> x <= low_mask64(Self::width()),
        ensures
            r.wide() == x,
    ;
}

/// Values of the masks of the widths of the word types.
proof fn lemma_word_masks()
    by (bit_vector)
    ensures
        low_mask64(8) == 0xff,
        low_mask64(16) == 0xffff,
        low_mask64(32) == 0xffff_ffff,
{
}

impl Word for u8 {
    open spec fn width() -> u64 {
        8
    }

    open spec fn wide(self) -> u64 {
        self as u64
    }

    fn to_u64(self) -> (r: u64) {
        proof {
            lemma_word_masks();
        }
        self as u64
    }

    fn from_u64(x: u64) -> (r: Self) {
        proof {
            lemma_word_masks();
        }
        x as u8
    }
}

impl Word for u16 {
    open spec fn width() -> u64 {
        16
    }

    open spec fn wide(self) -> u64 {
        self as u64
    }

    fn to_u64(self) -> (r: u64) {
        proof {
            lemma_word_masks();
        }
        self as u64
    }

    fn from_u64(x: u64) -> (r: Self) {
        proof {
            lemma_word_masks();
        }
        x as u16
    }
}

impl Word for u32 {
    open spec fn width() -> u64 {
        32
    }

    open spec fn wide(self) -> u64 {
        self as u64
    }

    fn to_u64(self) -> (r: u64) {
        proof {
            lemma_word_masks();
        }
        self as u64
    }

    fn from_u64(x: u64) -> (r: Self) {
        proof {
            lemma_word_masks();
        }
        x as u32
    }
}

impl Word for u64 {
    open spec fn width() -> u64 {
        64
    }

    open spec fn wide(self) -> u64 {
        self
    }

    fn to_u64(self) -> (r: u64) {
        self
    }

    fn from_u64(x: u64) -> (r: Self) {
        x
    }
}

impl Word for usize {
    open spec fn width() -> u64 {
        usize::BITS as u64
    }

    open spec fn wide(self) -> u64 {
        self as u64
    }

    fn to_u64(self) -> (r: u64) {
        proof {
            lemma_word_masks();
            assert(usize::BITS == 32 ==> self <= 0xffff_ffff) by (bit_vector);
        }
        self as u64
    }

    fn from_u64(x: u64) -> (r: Self) {
        proof {
            lemma_word_masks();
        }
        x as usize
    }
}

/// Writing a field of a 64-bit word that lies inside a narrower word.
proof fn lemma_set64(x: u64, v: u64, shift: u64, len: u64, w: u64)
    by (bit_vector)
    requires
        0 < len,
        len < w,
        shift + len <= w,
        w <= 64,
        w < 64 ==> x <= low_mask64(w),
    ensures
        field64((x & !(low_mask64(len) << shift)) | ((v << shift) & (low_mask64(len) << shift)), shift, len)
            == v & low_mask64(len),
        same_outside64(x, (x & !(low_mask64(len) << shift)) | ((v << shift) & (low_mask64(len) << shift)), shift, len),
        w < 64 ==> (x & !(low_mask64(len) << shift)) | ((v << shift) & (low_mask64(len) << shift)) <= low_mask64(w),
{
}

/// Reading a field of a 64-bit word.
proof fn lemma_get64(x: u64, v: u64, shift: u64, len: u64)
    by (bit_vector)
    requires
        0 < len,
        shift + len <= 64,
        len < 64,
    ensures
        ((low_mask64(len) << shift) >> shift) == low_mask64(len),
        v > low_mask64(len) <==> v & low_mask64(len) != v,
        ((x & (low_mask64(len) << shift)) >> shift) == field64(x, shift, len),
        field64(x, shift, len) <= low_mask64(len),
{
}

/// Setting, clearing and flipping one bit of a 64-bit word that lies inside
/// a narrower word.
proof fn lemma_bit64(x: u64, shift: u64, w: u64)
    by (bit_vector)
    requires
        shift < w,
        w <= 64,
        w < 64 ==> x <= low_mask64(w),
    ensures
        low_mask64(1) == 1,
        field64(x | (1u64 << shift), shift, 1) == 1,
        same_outside64(x, x | (1u64 << shift), shift, 1),
        w < 64 ==> x | (1u64 << shift) <= low_mask64(w),
        field64(x & !(1u64 << shift), shift, 1) == 0,
        same_outside64(x, x & !(1u64 << shift), shift, 1),
        w < 64 ==> x & !(1u64 << shift) <= low_mask64(w),
        field64(x ^ (1u64 << shift), shift, 1) == 1 - field64(x, shift, 1),
        same_outside64(x, x ^ (1u64 << shift), shift, 1),
        w < 64 ==> x ^ (1u64 << shift) <= low_mask64(w),
{
}

/// Facts on fields of a 64-bit word that lies inside a narrower word.
proof fn lemma_field64(x: u64, v: u64, shift: u64, len: u64, w: u64)
    requires
        0 < len,
        len < w,
        shift + len <= w,
        w <= 64,
        w < 64 ==> x <= low_mask64(w),
    ensures
        ((low_mask64(len) << shift) >> shift) == low_mask64(len),
        field64((x & !(low_mask64(len) << shift)) | ((v << shift) & (low_mask64(len) << shift)), shift, len)
            == v & low_mask64(len),
        same_outside64(x, (x & !(low_mask64(len) << shift)) | ((v << shift) & (low_mask64(len) << shift)), shift, len),
        w < 64 ==> (x & !(low_mask64(len) << shift)) | ((v << shift) & (low_mask64(len) << shift)) <= low_mask64(w),
        v > low_mask64(len) <==> v & low_mask64(len) != v,
        field64(x | (1u64 << shift), shift, 1) == 1,
        same_outside64(x, x | (1u64 << shift), shift, 1),
        w < 64 ==> x | (1u64 << shift) <= low_mask64(w),
        field64(x & !(1u64 << shift), shift, 1) == 0,
        same_outside64(x, x & !(1u64 << shift), shift, 1),
        w < 64 ==> x & !(1u64 << shift) <= low_mask64(w),
        field64(x ^ (1u64 << shift), shift, 1) == 1 - field64(x, shift, 1),
        same_outside64(x, x ^ (1u64 << shift), shift, 1),
        w < 64 ==> x ^ (1u64 << shift) <= low_mask64(w),
        low_mask64(1) == 1,
        ((x & (low_mask64(len) << shift)) >> shift) == field64(x, shift, len),
        field64(x, shift, len) <= low_mask64(len),
{
    lemma_set64(x, v, shift, len, w);
    lemma_get64(x, v, shift, len);
    lemma_bit64(x, shift, w);
}

proof fn lemma_mask_form(len: u64, shift: u64, w: u64)
    requires
        0 < len,
        len < w,
        shift + len <= w,
        w <= 64,
        w <= usize::BITS,
    ensures
        1u64 <= (1u64 << len),
        ((1u64 << len) - 1) as u64 == low_mask64(len),
        (low_mask64(len) << shift) as usize as u64 == low_mask64(len) << shift,
        low_mask64(len) as usize as u64 == low_mask64(len),
        low_mask64(len) <= usize::MAX,
{
    assert(1u64 <= (1u64 << len) && ((1u64 << len) - 1) as u64 == low_mask64(len)
        && (usize::BITS == 32 ==> (low_mask64(len) << shift) <= 0xffff_ffff && low_mask64(len) <= 0xffff_ffff))
        by (bit_vector)
        requires
            0 < len && len < w && shift + len <= w && w <= 64 && w <= usize::BITS,
            usize::BITS == 32 || usize::BITS == 64,
    ;
}

/// Wrapper type for manipulations of a field in a register.
///
/// * `LEN`: the length of the field in bits.
/// * `SHIFT`: the bit number counted from bit 0 to the first bit of the field.
/// * `T`: the type of the register holding the field.
#[derive(Clone, Copy, Debug, PartialEq, Eq)]
pub struct BitField<const LEN: usize, const SHIFT: usize, T> {
    /// Raw value of the register.
    pub v: T,
}

impl<const LEN: usize, const SHIFT: usize, T: Word> BitField<LEN, SHIFT, T> {
    /// The field is not empty, is narrower than the word and lies inside it.
    pub open spec fn well_placed() -> bool {
        &&& 1 <= LEN
        &&& LEN < T::width()
        &&& LEN + SHIFT <= T::width()
        &&& T::width() <= usize::BITS
    }

    /// Value of the field in the register.
    pub open spec fn value(self) -> u64 {
        field64(self.v.wide(), SHIFT as u64, LEN as u64)
    }

    /// Wraps a register value.
    pub fn from(value: T) -> (r: Self)
        requires
            1 <= LEN,
            LEN + SHIFT <= T::width(),
        ensures
            r.v == value,
    {
        Self { v: value }
    }

    /// Set a value to the field in a register without boundary check.
    ///
    /// Bits of `val` that do not fit in the field are dropped; every bit
    /// outside the field keeps its value.
    pub fn set(self, val: usize) -> (r: T)
        requires
            Self::well_placed(),
        ensures
            field64(r.wide(), SHIFT as u64, LEN as u64) == val as u64 & low_mask64(LEN as u64),
            same_outside64(self.v.wide(), r.wide(), SHIFT as u64, LEN as u64),
    {
        let x = self.v.to_u64();
        let mask = self.mask();
        proof {
            lemma_field64(x, val as u64, SHIFT as u64, LEN as u64, T::width());
        }
        let data = x & !mask | (((val as u64) << SHIFT as u64) & mask);
        T::from_u64(data)
    }

    /// Get the value of the field in a register.
    pub fn get(self) -> (r: usize)
        requires
            Self::well_placed(),
        ensures
            r as u64 == self.value(),
            r as u64 <= low_mask64(LEN as u64),
    {
        let x = self.v.to_u64();
        let mask = self.mask();
        proof {
            lemma_field64(x, 0, SHIFT as u64, LEN as u64, T::width());
            lemma_mask_form(LEN as u64, SHIFT as u64, T::width());
        }
        ((x & mask) >> SHIFT as u64) as usize
    }

    /// Set a value to the field in a register with boundary check.
    ///
    /// Returns `None` when `val` does not fit in the field.
    pub fn checked_set(self, val: usize) -> (r: Option<T>)
        requires
            Self::well_placed(),
        ensures
            val as u64 > low_mask64(LEN as u64) <==> r is None,
            r matches Some(w) ==> {
                &&& field64(w.wide(), SHIFT as u64, LEN as u64) == val as u64
                &&& same_outside64(self.v.wide(), w.wide(), SHIFT as u64, LEN as u64)
            },
    {
        let x = self.v.to_u64();
        let mask = self.mask();
        proof {
            lemma_field64(x, val as u64, SHIFT as u64, LEN as u64, T::width());
        }
        let data = x & !mask | (((val as u64) << SHIFT as u64) & mask);
        if val as u64 > (mask >> SHIFT as u64) {
            None
        } else {
            Some(T::from_u64(data))
        }
    }

    /// Enable the function controlled by the field in a register.
    pub fn enable(self) -> (r: T)
        requires
            Self::well_placed(),
            LEN == 1,
        ensures
            field64(r.wide(), SHIFT as u64, 1) == 1,
            same_outside64(self.v.wide(), r.wide(), SHIFT as u64, 1),
    {
        let x = self.v.to_u64();
        proof {
            lemma_field64(x, 0, SHIFT as u64, 1, T::width());
        }
        T::from_u64(x | (1u64 << SHIFT as u64))
    }

    /// Disable the function controlled by the field in a register.
    pub fn disable(self) -> (r: T)
        requires
            Self::well_placed(),
            LEN == 1,
        ensures
            field64(r.wide(), SHIFT as u64, 1) == 0,
            same_outside64(self.v.wide(), r.wide(), SHIFT as u64, 1),
    {
        let x = self.v.to_u64();
        proof {
            lemma_field64(x, 0, SHIFT as u64, 1, T::width());
        }
        T::from_u64(x & !(1u64 << SHIFT as u64))
    }

    /// Check if the function controlled by the field in a register is enabled.
    pub fn is_enabled(self) -> (r: bool)
        requires
            Self::well_placed(),
            LEN == 1,
        ensures
            r == (self.value() == 1),
    {
        let x = self.v.to_u64();
        proof {
            lemma_field64(x, 0, SHIFT as u64, 1, T::width());
        }
        self.get() != 0
    }

    /// Toggle the value of the field in a register.
    pub fn toggle(self) -> (r: T)
        requires
            Self::well_placed(),
            LEN == 1,
        ensures
            field64(r.wide(), SHIFT as u64, 1) == 1 - self.value(),
            same_outside64(self.v.wide(), r.wide(), SHIFT as u64, 1),
    {
        let x = self.v.to_u64();
        proof {
            lemma_field64(x, 0, SHIFT as u64, 1, T::width());
        }
        T::from_u64(x ^ (1u64 << SHIFT as u64))
    }

    /// Clear the value of the field in a register.
    pub fn clear(self) -> (r: T)
        requires
            Self::well_placed(),
        ensures
            field64(r.wide(), SHIFT as u64, LEN as u64) == 0,
            same_outside64(self.v.wide(), r.wide(), SHIFT as u64, LEN as u64),
    {
        let x = self.v.to_u64();
        proof {
            lemma_field64(x, 0, SHIFT as u64, LEN as u64, T::width());
        }
        self.set(0)
    }

    /// Get the mask bits of the field in a register.
    pub fn get_mask(self) -> (r: usize)
        requires
            Self::well_placed(),
        ensures
            r as u64 == low_mask64(LEN as u64) << SHIFT as u64,
    {
        proof {
            lemma_mask_form(LEN as u64, SHIFT as u64, T::width());
        }
        (((1u64 << LEN as u64) - 1) << SHIFT as u64) as usize
    }

    fn mask(self) -> (r: u64)
        requires
            Self::well_placed(),
        ensures
            r == low_mask64(LEN as u64) << SHIFT as u64,
    {
        proof {
            lemma_mask_form(LEN as u64, SHIFT as u64, T::width());
        }
        ((1u64 << LEN as u64) - 1) << SHIFT as u64
    }

    /// Get the shift of the field in a register.
    pub fn get_shift(self) -> (r: usize)
        ensures
            r == SHIFT,
    {
        SHIFT
    }

    /// Get the length of the field in a register.
    pub fn get_len(self) -> (r: usize)
        ensures
            r == LEN,
    {
        LEN
    }
}

} // verus!
