use vstd::prelude::*;
use vstd::string::StringExecFns;
use vstd::std_specs::ops::{
    BitAndSpecImpl, BitOrSpecImpl, BitXorSpecImpl, NotSpecImpl, SubSpecImpl,
};

verus! {

/// Bit of the XIM input style that asks the IM server to report preedit
/// changes through callbacks (`XCB_IM_PreeditCallbacks`).
pub const XIM_PREEDIT_CALLBACKS: u32 = 0x0002;

/// How the IME integrates into the application.
///
/// A set of flags; the only flag is the one that enables the preedit
/// callbacks. The empty set is the default style: the IME composes on its own
/// and only the committed string reaches the application.
#[derive(Clone, Copy, PartialEq, Eq, Structural, PartialOrd, Ord, Hash, Debug)]
pub struct InputStyle {
    bits: u32,
}

/// The bit value of a style holds no bit other than the known flag.
pub open spec fn style_bits_valid(bits: u32) -> bool {
    bits == 0 || bits == XIM_PREEDIT_CALLBACKS
}

/// What remains of `bits` once every unknown bit is cleared.
pub open spec fn truncate_style_bits(bits: u32) -> u32 {
    if (bits / 2) % 2 == 1 {
        XIM_PREEDIT_CALLBACKS
    } else {
        0
    }
}

impl View for InputStyle {
    type V = u32;

    closed spec fn view(&self) -> u32 {
        self.bits
    }
}

impl InputStyle {
    #[verifier::type_invariant]
    spec fn inv(self) -> bool {
        style_bits_valid(self.bits)
    }

    /// The default style: no flag set.
    pub fn empty() -> (r: InputStyle)
        ensures
            r@ == 0,
    {
        InputStyle { bits: 0 }
    }

    /// The style that enables the preedit callbacks.
    pub fn preedit_callbacks() -> (r: InputStyle)
        ensures
            r@ == XIM_PREEDIT_CALLBACKS,
    {
        InputStyle { bits: XIM_PREEDIT_CALLBACKS }
    }

    /// Every known flag.
    pub fn all() -> (r: InputStyle)
        ensures
            r@ == XIM_PREEDIT_CALLBACKS,
    {
        InputStyle { bits: XIM_PREEDIT_CALLBACKS }
    }

    /// The raw bit value of the style, as the IM server expects it.
    pub fn bits(&self) -> (r: u32)
        ensures
            r == self@,
            style_bits_valid(r),
    {
        proof {
            use_type_invariant(self);
        }
        self.bits
    }

    /// The style with exactly these bits, or `None` where `bits` holds an
    /// unknown bit.
    pub fn from_bits(bits: u32) -> (r: Option<InputStyle>)
        ensures
            r is Some <==> style_bits_valid(bits),
            r matches Some(s) ==> s@ == bits,
    {
        if bits == 0 || bits == XIM_PREEDIT_CALLBACKS {
            Some(InputStyle { bits })
        } else {
            None
        }
    }

    /// The style with the known bits of `bits`; unknown bits are dropped.
    pub fn from_bits_truncate(bits: u32) -> (r: InputStyle)
        ensures
            r@ == truncate_style_bits(bits),
            r@ == bits & XIM_PREEDIT_CALLBACKS,
    {
        let b: u32 = bits & XIM_PREEDIT_CALLBACKS;
        proof {
            assert((bits & 2u32 == 2u32) <==> ((bits / 2) % 2 == 1)) by (bit_vector);
            assert((bits & 2u32) == 2u32 || (bits & 2u32) == 0u32) by (bit_vector);
        }
        if b == XIM_PREEDIT_CALLBACKS {
            InputStyle { bits: XIM_PREEDIT_CALLBACKS }
        } else {
            InputStyle { bits: 0 }
        }
    }

    /// Whether no flag is set.
    pub fn is_empty(&self) -> (r: bool)
        ensures
            r <==> self@ == 0,
    {
        self.bits == 0
    }

    /// Whether every known flag is set.
    pub fn is_all(&self) -> (r: bool)
        ensures
            r <==> self@ == XIM_PREEDIT_CALLBACKS,
    {
        self.bits == XIM_PREEDIT_CALLBACKS
    }

    /// Whether some flag is set in both styles.
    pub fn intersects(&self, other: InputStyle) -> (r: bool)
        ensures
            r <==> (self@ & other@) != 0,
    {
        (self.bits & other.bits) != 0
    }

    /// Whether every flag of `other` is set in `self`.
    pub fn contains(&self, other: InputStyle) -> (r: bool)
        ensures
            r <==> (self@ & other@) == other@,
    {
        (self.bits & other.bits) == other.bits
    }

    /// Set the flags of `other`.
    pub fn insert(&mut self, other: InputStyle)
        ensures
            final(self)@ == old(self)@ | other@,
    {
        proof {
            use_type_invariant(&*self);
            use_type_invariant(&other);
            lemma_valid_bits_closed(self.bits, other.bits);
        }
        self.bits = self.bits | other.bits;
    }

    /// Clear the flags of `other`.
    pub fn remove(&mut self, other: InputStyle)
        ensures
            final(self)@ == old(self)@ & !other@,
    {
        proof {
            use_type_invariant(&*self);
            use_type_invariant(&other);
            lemma_valid_bits_closed(self.bits, other.bits);
        }
        self.bits = self.bits & !other.bits;
    }

    /// Flip the flags of `other`.
    pub fn toggle(&mut self, other: InputStyle)
        ensures
            final(self)@ == old(self)@ ^ other@,
    {
        proof {
            use_type_invariant(&*self);
            use_type_invariant(&other);
            lemma_valid_bits_closed(self.bits, other.bits);
        }
        self.bits = self.bits ^ other.bits;
    }

    /// Set the flags of `other` where `value` holds, clear them otherwise.
    pub fn set(&mut self, other: InputStyle, value: bool)
        ensures
            final(self)@ == (if value {
                old(self)@ | other@
            } else {
                old(self)@ & !other@
            }),
    {
        if value {
            self.insert(other);
        } else {
            self.remove(other);
        }
    }

    /// The flags set in both styles.
    pub fn intersection(self, other: InputStyle) -> (r: InputStyle)
        ensures
            r@ == self@ & other@,
    {
        proof {
            use_type_invariant(&self);
            use_type_invariant(&other);
            lemma_valid_bits_closed(self.bits, other.bits);
        }
        InputStyle { bits: self.bits & other.bits }
    }

    /// The flags set in either style.
    pub fn union(self, other: InputStyle) -> (r: InputStyle)
        ensures
            r@ == self@ | other@,
    {
        proof {
            use_type_invariant(&self);
            use_type_invariant(&other);
            lemma_valid_bits_closed(self.bits, other.bits);
        }
        InputStyle { bits: self.bits | other.bits }
    }

    /// The flags set in `self` and not in `other`.
    pub fn difference(self, other: InputStyle) -> (r: InputStyle)
        ensures
            r@ == self@ & !other@,
    {
        proof {
            use_type_invariant(&self);
            use_type_invariant(&other);
            lemma_valid_bits_closed(self.bits, other.bits);
        }
        InputStyle { bits: self.bits & !other.bits }
    }

    /// The flags set in exactly one of the styles.
    pub fn symmetric_difference(self, other: InputStyle) -> (r: InputStyle)
        ensures
            r@ == self@ ^ other@,
    {
        proof {
            use_type_invariant(&self);
            use_type_invariant(&other);
            lemma_valid_bits_closed(self.bits, other.bits);
        }
        InputStyle { bits: self.bits ^ other.bits }
    }

    /// The known flags that are not set in `self`.
    pub fn complement(self) -> (r: InputStyle)
        ensures
            r@ == !self@ & XIM_PREEDIT_CALLBACKS,
    {
        proof {
            use_type_invariant(&self);
            lemma_valid_bits_closed(self.bits, 0);
        }
        InputStyle { bits: !self.bits & XIM_PREEDIT_CALLBACKS }
    }
}

/// The debug text of a style: the names of its flags, as the flag set
/// prints them; the empty style is named `DEFAULT`.
pub open spec fn style_debug_chars(bits: u32) -> Seq<char> {
    if bits == 0 {
        "DEFAULT"@
    } else {
        "PREEDIT_CALLBACKS"@
    }
}

impl InputStyle {
    /// The debug text of the style: `DEFAULT` for the empty style,
    /// `PREEDIT_CALLBACKS` for the style with the preedit callbacks.
    pub fn debug_string(&self) -> (r: String)
        ensures
            r@ == style_debug_chars(self@),
            r@ == (if self@ == 0 {
                "DEFAULT"@
            } else {
                "PREEDIT_CALLBACKS"@
            }),
    {
        if self.bits == 0 {
            String::from_str("DEFAULT")
        } else {
            String::from_str("PREEDIT_CALLBACKS")
        }
    }
}

/// The style made of the given bits; only meaningful for valid bits.
spec fn style_of(bits: u32) -> InputStyle {
    InputStyle { bits }
}

impl core::ops::BitOr for InputStyle {
    type Output = InputStyle;

    /// The flags set in either style.
    fn bitor(self, rhs: InputStyle) -> (r: InputStyle)
        ensures
            r@ == self@ | rhs@,
    {
        self.union(rhs)
    }
}

impl BitOrSpecImpl for InputStyle {
    open spec fn obeys_bitor_spec() -> bool {
        true
    }

    open spec fn bitor_req(self, rhs: InputStyle) -> bool {
        true
    }

    closed spec fn bitor_spec(self, rhs: InputStyle) -> InputStyle {
        style_of(self.bits | rhs.bits)
    }
}

impl core::ops::BitAnd for InputStyle {
    type Output = InputStyle;

    /// The flags set in both styles.
    fn bitand(self, rhs: InputStyle) -> (r: InputStyle)
        ensures
            r@ == self@ & rhs@,
    {
        self.intersection(rhs)
    }
}

impl BitAndSpecImpl for InputStyle {
    open spec fn obeys_bitand_spec() -> bool {
        true
    }

    open spec fn bitand_req(self, rhs: InputStyle) -> bool {
        true
    }

    closed spec fn bitand_spec(self, rhs: InputStyle) -> InputStyle {
        style_of(self.bits & rhs.bits)
    }
}

impl core::ops::BitXor for InputStyle {
    type Output = InputStyle;

    /// The flags set in exactly one of the styles.
    fn bitxor(self, rhs: InputStyle) -> (r: InputStyle)
        ensures
            r@ == self@ ^ rhs@,
    {
        self.symmetric_difference(rhs)
    }
}

impl BitXorSpecImpl for InputStyle {
    open spec fn obeys_bitxor_spec() -> bool {
        true
    }

    open spec fn bitxor_req(self, rhs: InputStyle) -> bool {
        true
    }

    closed spec fn bitxor_spec(self, rhs: InputStyle) -> InputStyle {
        style_of(self.bits ^ rhs.bits)
    }
}

impl core::ops::Sub for InputStyle {
    type Output = InputStyle;

    /// The flags set in `self` and not in `rhs`.
    fn sub(self, rhs: InputStyle) -> (r: InputStyle)
        ensures
            r@ == self@ & !rhs@,
    {
        self.difference(rhs)
    }
}

impl SubSpecImpl for InputStyle {
    open spec fn obeys_sub_spec() -> bool {
        true
    }

    open spec fn sub_req(self, rhs: InputStyle) -> bool {
        true
    }

    closed spec fn sub_spec(self, rhs: InputStyle) -> InputStyle {
        style_of(self.bits & !rhs.bits)
    }
}

impl core::ops::Not for InputStyle {
    type Output = InputStyle;

    /// The known flags that are not set.
    fn not(self) -> (r: InputStyle)
        ensures
            r@ == !self@ & XIM_PREEDIT_CALLBACKS,
    {
        self.complement()
    }
}

impl NotSpecImpl for InputStyle {
    open spec fn obeys_not_spec() -> bool {
        true
    }

    open spec fn not_req(self) -> bool {
        true
    }

    closed spec fn not_spec(self) -> InputStyle {
        style_of(!self.bits & XIM_PREEDIT_CALLBACKS)
    }
}

impl core::ops::BitOrAssign for InputStyle {
    /// Set the flags of `rhs`.
    fn bitor_assign(&mut self, rhs: InputStyle)
        ensures
            final(self)@ == old(self)@ | rhs@,
    {
        self.insert(rhs);
    }
}

impl core::ops::BitAndAssign for InputStyle {
    /// Keep only the flags also set in `rhs`.
    fn bitand_assign(&mut self, rhs: InputStyle)
        ensures
            final(self)@ == old(self)@ & rhs@,
    {
        *self = self.intersection(rhs);
    }
}

impl core::ops::BitXorAssign for InputStyle {
    /// Flip the flags of `rhs`.
    fn bitxor_assign(&mut self, rhs: InputStyle)
        ensures
            final(self)@ == old(self)@ ^ rhs@,
    {
        self.toggle(rhs);
    }
}

impl core::ops::SubAssign for InputStyle {
    /// Clear the flags of `rhs`.
    fn sub_assign(&mut self, rhs: InputStyle)
        ensures
            final(self)@ == old(self)@ & !rhs@,
    {
        self.remove(rhs);
    }
}

/// The bitwise operations of the flags keep the bit values valid.
proof fn lemma_valid_bits_closed(x: u32, y: u32)
    requires
        style_bits_valid(x),
        style_bits_valid(y),
    ensures
        style_bits_valid(x & y),
        style_bits_valid(x | y),
        style_bits_valid(x & !y),
        style_bits_valid(x ^ y),
        style_bits_valid(!x & XIM_PREEDIT_CALLBACKS),
{
    assert(style_bits_valid(x) && style_bits_valid(y) ==> style_bits_valid(x & y)
        && style_bits_valid(x | y) && style_bits_valid(x & !y) && style_bits_valid(x ^ y)
        && style_bits_valid(!x & XIM_PREEDIT_CALLBACKS)) by (bit_vector);
}

/// On valid styles, each operation on the flags is a plain case split: with a
/// single known flag, a style either has it (`XIM_PREEDIT_CALLBACKS`) or is
/// empty (`0`). The bit value of every style is valid (see
/// [`InputStyle::bits`]).
pub proof fn lemma_style_ops_by_cases(x: u32, y: u32)
    requires
        style_bits_valid(x),
        style_bits_valid(y),
    ensures
        ((x & y) == y) <==> (y == 0 || x == y),
        ((x & y) != 0) <==> (x != 0 && y != 0),
        (x & y) == (if x != 0 && y != 0 {
            XIM_PREEDIT_CALLBACKS
        } else {
            0
        }),
        (x | y) == (if x != 0 || y != 0 {
            XIM_PREEDIT_CALLBACKS
        } else {
            0
        }),
        (x & !y) == (if x != 0 && y == 0 {
            XIM_PREEDIT_CALLBACKS
        } else {
            0
        }),
        (x ^ y) == (if (x != 0) != (y != 0) {
            XIM_PREEDIT_CALLBACKS
        } else {
            0
        }),
        (!x & XIM_PREEDIT_CALLBACKS) == (if x == 0 {
            XIM_PREEDIT_CALLBACKS
        } else {
            0
        }),
{
    assert(style_bits_valid(x) && style_bits_valid(y) ==> {
        &&& ((x & y) == y) == (y == 0 || x == y)
        &&& ((x & y) != 0) == (x != 0 && y != 0)
        &&& (x & y) == (if x != 0 && y != 0 {
            2u32
        } else {
            0u32
        })
        &&& (x | y) == (if x != 0 || y != 0 {
            2u32
        } else {
            0u32
        })
        &&& (x & !y) == (if x != 0 && y == 0 {
            2u32
        } else {
            0u32
        })
        &&& (x ^ y) == (if (x != 0) != (y != 0) {
            2u32
        } else {
            0u32
        })
        &&& (!x & 2u32) == (if x == 0 {
            2u32
        } else {
            0u32
        })
    }) by (bit_vector);
}

/// Truncating keeps exactly the known flags that are set in `bits`: the bit
/// value of the result is `bits & XIM_PREEDIT_CALLBACKS`, whatever other
/// bits `bits` holds; and a bit value is valid exactly when it holds no
/// bit outside the known flags.
pub proof fn lemma_truncate_is_masking(bits: u32)
    ensures
        truncate_style_bits(bits) == bits & XIM_PREEDIT_CALLBACKS,
        style_bits_valid(bits) <==> (bits & !XIM_PREEDIT_CALLBACKS) == 0,
{
    assert(((bits / 2) % 2 == 1) <==> ((bits & 2u32) == 2u32)) by (bit_vector);
    assert((bits & 2u32) == 2u32 || (bits & 2u32) == 0u32) by (bit_vector);
    assert((bits == 0u32 || bits == 2u32) <==> (bits & !2u32) == 0u32) by (bit_vector);
}

/// Truncating keeps exactly the valid styles as they are, always yields a
/// valid style, and truncating twice is truncating once.
pub proof fn lemma_truncate_style_bits(bits: u32)
    ensures
        style_bits_valid(truncate_style_bits(bits)),
        style_bits_valid(bits) <==> truncate_style_bits(bits) == bits,
        truncate_style_bits(truncate_style_bits(bits)) == truncate_style_bits(bits),
{
}

} // verus!
