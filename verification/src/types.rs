//! Instruction operand types: the destination selector, the four-way
//! bit-routing selectors, the wait-condition selector, control-transfer
//! labels, and register references.

use vstd::prelude::*;

use crate::bits::{U10, U12, U2, U3, U9};
use crate::regs::{spec_sfr_from_u8, SFR};
use crate::text::{dec_str, u16_dec, u8_dec};

verus! {

/// Destination selector: whether a result is written to the accumulator
/// (`A`) or back to the memory operand (`F`). Encoded as a single bit,
/// `0` for `A` and `1` for `F`.
#[derive(Clone, Copy, PartialEq, Eq, Structural, Debug)]
pub enum Dest {
    A,
    F,
}

/// The destination selected by one encoding bit: `false` is `A`, `true` is `F`.
pub open spec fn spec_dest_of_bool(value: bool) -> Dest {
    if value {
        Dest::F
    } else {
        Dest::A
    }
}

/// The encoding bit of a destination selector: `A` is `false`, `F` is `true`.
pub open spec fn spec_bool_of_dest(d: Dest) -> bool {
    d is F
}

impl From<bool> for Dest {
    fn from(value: bool) -> (r: Dest) {
        if value {
            Dest::F
        } else {
            Dest::A
        }
    }
}

impl vstd::std_specs::convert::FromSpecImpl<bool> for Dest {
    open spec fn obeys_from_spec() -> bool {
        true
    }

    open spec fn from_spec(v: bool) -> Dest {
        spec_dest_of_bool(v)
    }
}

impl From<Dest> for bool {
    fn from(value: Dest) -> (r: bool) {
        match value {
            Dest::A => false,
            Dest::F => true,
        }
    }
}

impl vstd::std_specs::convert::FromSpecImpl<Dest> for bool {
    open spec fn obeys_from_spec() -> bool {
        true
    }

    open spec fn from_spec(v: Dest) -> bool {
        spec_bool_of_dest(v)
    }
}

/// The selector round trip loses nothing: turning a bit into a destination
/// selector and back yields the same bit, and the converse round trip yields
/// the same selector.
pub proof fn lemma_dest_bool_bijection(value: bool, d: Dest)
    ensures
        spec_bool_of_dest(spec_dest_of_bool(value)) == value,
        spec_dest_of_bool(spec_bool_of_dest(d)) == d,
{
}

impl Dest {
    /// The textual spelling of this selector.
    pub open spec fn spec_name(self) -> Seq<char> {
        match self {
            Dest::A => "A"@,
            Dest::F => "F"@,
        }
    }

    /// The textual spelling, `A` or `F`.
    pub fn name(&self) -> (r: &'static str)
        ensures
            r@ == self.spec_name(),
    {
        match self {
            Dest::A => "A",
            Dest::F => "F",
        }
    }
}

/// The name of the bit-output sink selected by `v` (meaningful for `v < 4`).
pub open spec fn spec_bit_out_name(v: u8) -> Seq<char> {
    if v == 0 {
        "Status[FLAG_C]"@
    } else if v == 1 {
        "BitCycle[TX_O0]"@
    } else if v == 2 {
        "PortIO[OUT0]"@
    } else {
        "PortIO[OUT1]"@
    }
}

/// Bit-routing output sink, a 2-bit selector.
#[derive(Clone, Copy, PartialEq, Eq, Structural, Debug)]
pub struct BitOut(pub U2);

impl BitOut {
    /// The textual name of the selected sink.
    pub fn name(&self) -> (r: &'static str)
        ensures
            r@ == spec_bit_out_name(self.0.spec_value()),
    {
        match self.0.value() {
            0 => "Status[FLAG_C]",
            1 => "BitCycle[TX_O0]",
            2 => "PortIO[OUT0]",
            _ => "PortIO[OUT1]",
        }
    }
}

/// The name of the bit-input source selected by `v` (meaningful for `v < 4`).
pub open spec fn spec_bit_in_name(v: u8) -> Seq<char> {
    if v == 0 {
        "Status[FLAG_C]"@
    } else if v == 1 {
        "BitCycle[RX_I0]"@
    } else if v == 2 {
        "PortIO[IN0]"@
    } else {
        "PortIO[IN1]"@
    }
}

/// Bit-routing input source, a 2-bit selector.
#[derive(Clone, Copy, PartialEq, Eq, Structural, Debug)]
pub struct BitIn(pub U2);

impl BitIn {
    /// The textual name of the selected source.
    pub fn name(&self) -> (r: &'static str)
        ensures
            r@ == spec_bit_in_name(self.0.spec_value()),
    {
        match self.0.value() {
            0 => "Status[FLAG_C]",
            1 => "BitCycle[RX_I0]",
            2 => "PortIO[IN0]",
            _ => "PortIO[IN1]",
        }
    }
}

/// The name of the carry-test input selected by `v` (meaningful for `v < 4`).
pub open spec fn spec_bit_in_c_name(v: u8) -> Seq<char> {
    if v == 0 {
        "XOR_IN0"@
    } else if v == 1 {
        "BitCycle[RX_I0]"@
    } else if v == 2 {
        "PortIO[IN0]"@
    } else {
        "PortIO[IN1]"@
    }
}

/// Bit-input source for the carry-test instruction, a 2-bit selector.
#[derive(Clone, Copy, PartialEq, Eq, Structural, Debug)]
pub struct BitInC(pub U2);

impl BitInC {
    /// The textual name of the selected source.
    pub fn name(&self) -> (r: &'static str)
        ensures
            r@ == spec_bit_in_c_name(self.0.spec_value()),
    {
        match self.0.value() {
            0 => "XOR_IN0",
            1 => "BitCycle[RX_I0]",
            2 => "PortIO[IN0]",
            _ => "PortIO[IN1]",
        }
    }
}

/// The name of the wait condition selected by `v` (meaningful for `v < 8`).
pub open spec fn spec_wait_bit_name(v: u8) -> Seq<char> {
    if v == 0 {
        "WB_DATA_SW_MR_0"@
    } else if v == 1 {
        "WB_BIT_CYC_TAIL_1"@
    } else if v == 2 {
        "WB_PORT_I0_FALL"@
    } else if v == 3 {
        "WB_PORT_I0_RISE"@
    } else if v == 4 {
        "WB_DATA_MW_SR_1"@
    } else if v == 5 {
        "WB_PORT_XOR1_1"@
    } else if v == 6 {
        "WB_PORT_XOR0_0"@
    } else {
        "WB_PORT_XOR0_1"@
    }
}

/// Wait condition for the wait instruction, a 3-bit selector.
#[derive(Clone, Copy, PartialEq, Eq, Structural, Debug)]
pub struct WaitBit(pub U3);

impl WaitBit {
    /// The textual name of the selected wait condition.
    pub fn name(&self) -> (r: &'static str)
        ensures
            r@ == spec_wait_bit_name(self.0.spec_value()),
    {
        match self.0.value() {
            0 => "WB_DATA_SW_MR_0",
            1 => "WB_BIT_CYC_TAIL_1",
            2 => "WB_PORT_I0_FALL",
            3 => "WB_PORT_I0_RISE",
            4 => "WB_DATA_MW_SR_1",
            5 => "WB_PORT_XOR1_1",
            6 => "WB_PORT_XOR0_0",
            _ => "WB_PORT_XOR0_1",
        }
    }
}

/// The rendering of a label whose numeric field value is `v`: the prefix
/// `.L` followed by the value in decimal.
pub open spec fn spec_label_str(v: int) -> Seq<char> {
    ".L"@ + dec_str(v)
}

/// A control-transfer target: a raw numeric word address of 8, 10 or 12
/// bits, rendered with the `.L` prefix. It carries no symbol resolution.
#[derive(Clone, Copy, PartialEq, Eq, Structural, Debug)]
pub struct Label<T>(pub T);

impl Label<u8> {
    /// Renders this 8-bit label as `.L` followed by its value in decimal.
    pub fn render(&self) -> (r: String)
        ensures
            r@ == spec_label_str(self.0 as int),
    {
        let mut s = String::new();
        s.append(".L");
        s.append(u8_dec(self.0).as_str());
        s
    }
}

impl Label<U10> {
    /// Renders this 10-bit label as `.L` followed by its value in decimal.
    pub fn render(&self) -> (r: String)
        ensures
            r@ == spec_label_str(self.0.spec_value() as int),
    {
        let mut s = String::new();
        s.append(".L");
        s.append(u16_dec(self.0.value()).as_str());
        s
    }
}

impl Label<U12> {
    /// Renders this 12-bit label as `.L` followed by its value in decimal.
    pub fn render(&self) -> (r: String)
        ensures
            r@ == spec_label_str(self.0.spec_value() as int),
    {
        let mut s = String::new();
        s.append(".L");
        s.append(u16_dec(self.0.value()).as_str());
        s
    }
}

/// The rendering of a register reference with 8-bit address `v`: a `$`
/// prefix followed by the short name of the resolved identity.
pub open spec fn spec_reg8_str(v: u8) -> Seq<char> {
    seq!['$'] + spec_sfr_from_u8(v).spec_name()
}

/// A register reference: a special-function register or RAM location, in
/// the 8-bit direct form or the 9-bit extended form.
#[derive(Clone, Copy, PartialEq, Eq, Structural, Debug)]
pub struct Reg<T>(pub T);

impl Reg<U9> {
    /// Collapses the 9-bit extended form to the 8-bit direct form by
    /// dropping the high bit.
    pub fn normalize(&self) -> (r: Reg<u8>)
        ensures
            r.0 == self.0.spec_value() as u8,
    {
        Reg(self.0.value() as u8)
    }

    /// Renders this reference like its normalized 8-bit form.
    pub fn render(&self) -> (r: String)
        ensures
            r@ == spec_reg8_str(self.0.spec_value() as u8),
    {
        self.normalize().render()
    }
}

impl Reg<u8> {
    /// Resolves this reference to its symbolic register identity.
    pub fn to_sfr(&self) -> (r: SFR)
        ensures
            r == spec_sfr_from_u8(self.0),
    {
        SFR::from_u8(self.0)
    }

    /// Renders this reference as `$` followed by the short register name.
    pub fn render(&self) -> (r: String)
        ensures
            r@ == spec_reg8_str(self.0),
    {
        proof {
            reveal_strlit("$");
        }
        let mut s = String::new();
        s.append("$");
        s.append(self.to_sfr().to_name());
        proof {
            assert(s@ =~= spec_reg8_str(self.0));
        }
        s
    }
}

} // verus!
