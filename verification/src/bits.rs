//! Fixed-width unsigned bit-field types used as instruction operands.
//!
//! Each type wraps an integer constrained to `N` bits. The validating
//! constructor `new` rejects values outside `[0, 2^N)`; the truncating
//! constructor `from_wide` masks a wider value down to the low `N` bits,
//! matching the register-width wraparound of the source hardware.

use vstd::prelude::*;

use crate::text::{dec_str, u16_dec, u8_dec};

verus! {

/// A 2-bit unsigned value, in `[0, 4)`.
#[derive(Clone, Copy, PartialEq, Eq, Structural, Debug)]
pub struct U2 {
    value: u8,
}

impl U2 {
    #[verifier::type_invariant]
    pub open spec fn inv(self) -> bool {
        self.spec_value() < 4
    }

    /// The numeric value carried by this bit-field.
    pub closed spec fn spec_value(self) -> u8 {
        self.value
    }

    /// The bit-field holding the low 2 bits of `value`.
    pub closed spec fn spec_from_wide(value: u8) -> U2 {
        U2 { value: value & 0b11 }
    }

    /// Validating constructor: accepts exactly the values in `[0, 4)`.
    pub fn new(value: u8) -> (r: Option<U2>)
        ensures
            value < 4 <==> r is Some,
            r is Some ==> r->Some_0.spec_value() == value,
    {
        if value < 4 {
            Some(U2 { value })
        } else {
            None
        }
    }

    /// Truncating constructor: keeps the low 2 bits, never fails.
    pub fn from_wide(value: u8) -> (r: U2)
        ensures
            r == U2::spec_from_wide(value),
            r.spec_value() == value & 0b11,
            r.spec_value() < 4,
    {
        proof {
            assert(value & 0b11 < 4) by (bit_vector);
        }
        U2 { value: value & 0b11 }
    }

    /// The value as a plain integer; always within the 2-bit range.
    pub fn value(self) -> (r: u8)
        ensures
            r == self.spec_value(),
            r < 4,
    {
        proof {
            use_type_invariant(self);
        }
        self.value
    }

    /// Renders the value in decimal.
    pub fn render(&self) -> (r: String)
        ensures
            r@ == dec_str(self.spec_value() as int),
    {
        u8_dec(self.value())
    }
}

/// Truncation keeps exactly the low 2 bits.
pub proof fn lemma_u2_from_wide_value(value: u8)
    ensures
        U2::spec_from_wide(value).spec_value() == value & 0b11,
{
}

/// Two 2-bit fields carrying the same value are the same field.
pub proof fn lemma_u2_value_injective(a: U2, b: U2)
    requires
        a.spec_value() == b.spec_value(),
    ensures
        a == b,
{
}

/// A 3-bit unsigned value, in `[0, 8)`.
#[derive(Clone, Copy, PartialEq, Eq, Structural, Debug)]
pub struct U3 {
    value: u8,
}

impl U3 {
    #[verifier::type_invariant]
    pub open spec fn inv(self) -> bool {
        self.spec_value() < 8
    }

    /// The numeric value carried by this bit-field.
    pub closed spec fn spec_value(self) -> u8 {
        self.value
    }

    /// The bit-field holding the low 3 bits of `value`.
    pub closed spec fn spec_from_wide(value: u8) -> U3 {
        U3 { value: value & 0b111 }
    }

    /// Validating constructor: accepts exactly the values in `[0, 8)`.
    pub fn new(value: u8) -> (r: Option<U3>)
        ensures
            value < 8 <==> r is Some,
            r is Some ==> r->Some_0.spec_value() == value,
    {
        if value < 8 {
            Some(U3 { value })
        } else {
            None
        }
    }

    /// Truncating constructor: keeps the low 3 bits, never fails.
    pub fn from_wide(value: u8) -> (r: U3)
        ensures
            r == U3::spec_from_wide(value),
            r.spec_value() == value & 0b111,
            r.spec_value() < 8,
    {
        proof {
            assert(value & 0b111 < 8) by (bit_vector);
        }
        U3 { value: value & 0b111 }
    }

    /// The value as a plain integer; always within the 3-bit range.
    pub fn value(self) -> (r: u8)
        ensures
            r == self.spec_value(),
            r < 8,
    {
        proof {
            use_type_invariant(self);
        }
        self.value
    }

    /// Renders the value in decimal.
    pub fn render(&self) -> (r: String)
        ensures
            r@ == dec_str(self.spec_value() as int),
    {
        u8_dec(self.value())
    }
}

/// Truncation keeps exactly the low 3 bits.
pub proof fn lemma_u3_from_wide_value(value: u8)
    ensures
        U3::spec_from_wide(value).spec_value() == value & 0b111,
{
}

/// Two 3-bit fields carrying the same value are the same field.
pub proof fn lemma_u3_value_injective(a: U3, b: U3)
    requires
        a.spec_value() == b.spec_value(),
    ensures
        a == b,
{
}

/// A 7-bit unsigned value, in `[0, 128)`.
#[derive(Clone, Copy, PartialEq, Eq, Structural, Debug)]
pub struct U7 {
    value: u8,
}

impl U7 {
    #[verifier::type_invariant]
    pub open spec fn inv(self) -> bool {
        self.spec_value() < 128
    }

    /// The numeric value carried by this bit-field.
    pub closed spec fn spec_value(self) -> u8 {
        self.value
    }

    /// The bit-field holding the low 7 bits of `value`.
    pub closed spec fn spec_from_wide(value: u8) -> U7 {
        U7 { value: value & 0x7F }
    }

    /// Validating constructor: accepts exactly the values in `[0, 128)`.
    pub fn new(value: u8) -> (r: Option<U7>)
        ensures
            value < 128 <==> r is Some,
            r is Some ==> r->Some_0.spec_value() == value,
    {
        if value < 128 {
            Some(U7 { value })
        } else {
            None
        }
    }

    /// Truncating constructor: keeps the low 7 bits, never fails.
    pub fn from_wide(value: u8) -> (r: U7)
        ensures
            r == U7::spec_from_wide(value),
            r.spec_value() == value & 0x7F,
            r.spec_value() < 128,
    {
        proof {
            assert(value & 0x7F < 128) by (bit_vector);
        }
        U7 { value: value & 0x7F }
    }

    /// The value as a plain integer; always within the 7-bit range.
    pub fn value(self) -> (r: u8)
        ensures
            r == self.spec_value(),
            r < 128,
    {
        proof {
            use_type_invariant(self);
        }
        self.value
    }

    /// Renders the value in decimal.
    pub fn render(&self) -> (r: String)
        ensures
            r@ == dec_str(self.spec_value() as int),
    {
        u8_dec(self.value())
    }
}

/// Truncation keeps exactly the low 7 bits.
pub proof fn lemma_u7_from_wide_value(value: u8)
    ensures
        U7::spec_from_wide(value).spec_value() == value & 0x7F,
{
}

/// A 9-bit unsigned value, in `[0, 512)`.
#[derive(Clone, Copy, PartialEq, Eq, Structural, Debug)]
pub struct U9 {
    value: u16,
}

impl U9 {
    #[verifier::type_invariant]
    pub open spec fn inv(self) -> bool {
        self.spec_value() < 512
    }

    /// The numeric value carried by this bit-field.
    pub closed spec fn spec_value(self) -> u16 {
        self.value
    }

    /// The bit-field holding the low 9 bits of `value`.
    pub closed spec fn spec_from_wide(value: u16) -> U9 {
        U9 { value: value & 0x1FF }
    }

    /// Validating constructor: accepts exactly the values in `[0, 512)`.
    pub fn new(value: u16) -> (r: Option<U9>)
        ensures
            value < 512 <==> r is Some,
            r is Some ==> r->Some_0.spec_value() == value,
    {
        if value < 512 {
            Some(U9 { value })
        } else {
            None
        }
    }

    /// Truncating constructor: keeps the low 9 bits, never fails.
    pub fn from_wide(value: u16) -> (r: U9)
        ensures
            r == U9::spec_from_wide(value),
            r.spec_value() == value & 0x1FF,
            r.spec_value() < 512,
    {
        proof {
            assert(value & 0x1FF < 512) by (bit_vector);
        }
        U9 { value: value & 0x1FF }
    }

    /// The value as a plain integer; always within the 9-bit range.
    pub fn value(self) -> (r: u16)
        ensures
            r == self.spec_value(),
            r < 512,
    {
        proof {
            use_type_invariant(self);
        }
        self.value
    }

    /// Renders the value in decimal.
    pub fn render(&self) -> (r: String)
        ensures
            r@ == dec_str(self.spec_value() as int),
    {
        u16_dec(self.value())
    }
}

/// Truncation keeps exactly the low 9 bits.
pub proof fn lemma_u9_from_wide_value(value: u16)
    ensures
        U9::spec_from_wide(value).spec_value() == value & 0x1FF,
{
}

/// A 10-bit unsigned value, in `[0, 1024)`.
#[derive(Clone, Copy, PartialEq, Eq, Structural, Debug)]
pub struct U10 {
    value: u16,
}

impl U10 {
    #[verifier::type_invariant]
    pub open spec fn inv(self) -> bool {
        self.spec_value() < 1024
    }

    /// The numeric value carried by this bit-field.
    pub closed spec fn spec_value(self) -> u16 {
        self.value
    }

    /// The bit-field holding the low 10 bits of `value`.
    pub closed spec fn spec_from_wide(value: u16) -> U10 {
        U10 { value: value & 0x3FF }
    }

    /// Validating constructor: accepts exactly the values in `[0, 1024)`.
    pub fn new(value: u16) -> (r: Option<U10>)
        ensures
            value < 1024 <==> r is Some,
            r is Some ==> r->Some_0.spec_value() == value,
    {
        if value < 1024 {
            Some(U10 { value })
        } else {
            None
        }
    }

    /// Truncating constructor: keeps the low 10 bits, never fails.
    pub fn from_wide(value: u16) -> (r: U10)
        ensures
            r == U10::spec_from_wide(value),
            r.spec_value() == value & 0x3FF,
            r.spec_value() < 1024,
    {
        proof {
            assert(value & 0x3FF < 1024) by (bit_vector);
        }
        U10 { value: value & 0x3FF }
    }

    /// The value as a plain integer; always within the 10-bit range.
    pub fn value(self) -> (r: u16)
        ensures
            r == self.spec_value(),
            r < 1024,
    {
        proof {
            use_type_invariant(self);
        }
        self.value
    }

    /// Renders the value in decimal.
    pub fn render(&self) -> (r: String)
        ensures
            r@ == dec_str(self.spec_value() as int),
    {
        u16_dec(self.value())
    }
}

/// Truncation keeps exactly the low 10 bits.
pub proof fn lemma_u10_from_wide_value(value: u16)
    ensures
        U10::spec_from_wide(value).spec_value() == value & 0x3FF,
{
}

/// A 12-bit unsigned value, in `[0, 4096)`.
#[derive(Clone, Copy, PartialEq, Eq, Structural, Debug)]
pub struct U12 {
    value: u16,
}

impl U12 {
    #[verifier::type_invariant]
    pub open spec fn inv(self) -> bool {
        self.spec_value() < 4096
    }

    /// The numeric value carried by this bit-field.
    pub closed spec fn spec_value(self) -> u16 {
        self.value
    }

    /// The bit-field holding the low 12 bits of `value`.
    pub closed spec fn spec_from_wide(value: u16) -> U12 {
        U12 { value: value & 0xFFF }
    }

    /// Validating constructor: accepts exactly the values in `[0, 4096)`.
    pub fn new(value: u16) -> (r: Option<U12>)
        ensures
            value < 4096 <==> r is Some,
            r is Some ==> r->Some_0.spec_value() == value,
    {
        if value < 4096 {
            Some(U12 { value })
        } else {
            None
        }
    }

    /// Truncating constructor: keeps the low 12 bits, never fails.
    pub fn from_wide(value: u16) -> (r: U12)
        ensures
            r == U12::spec_from_wide(value),
            r.spec_value() == value & 0xFFF,
            r.spec_value() < 4096,
    {
        proof {
            assert(value & 0xFFF < 4096) by (bit_vector);
        }
        U12 { value: value & 0xFFF }
    }

    /// The value as a plain integer; always within the 12-bit range.
    pub fn value(self) -> (r: u16)
        ensures
            r == self.spec_value(),
            r < 4096,
    {
        proof {
            use_type_invariant(self);
        }
        self.value
    }

    /// Renders the value in decimal.
    pub fn render(&self) -> (r: String)
        ensures
            r@ == dec_str(self.spec_value() as int),
    {
        u16_dec(self.value())
    }
}

/// Truncation keeps exactly the low 12 bits.
pub proof fn lemma_u12_from_wide_value(value: u16)
    ensures
        U12::spec_from_wide(value).spec_value() == value & 0xFFF,
{
}

} // verus!
