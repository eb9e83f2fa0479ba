//! The special-function-register namespace: maps an 8-bit register address
//! (`0x00`–`0x3F`) to a symbolic identity and to two textual spellings, the
//! short mnemonic form and the vendor macro form. Addresses above `0x3F`
//! resolve to the `Error` sentinel rather than failing, so disassembly can
//! proceed over malformed programs.

use vstd::prelude::*;

use crate::text::{dec_str, eq_ignore_ascii_case, lemma_parse_u8_upper, parse_u8_dec, spec_parse_u8_dec, upper_char_exec, upper_seq};

verus! {

/// Special-function registers, addresses `0x00` to `0x3F`, plus the
/// `Error` sentinel for unmapped addresses.
#[derive(Clone, Copy, PartialEq, Eq, Structural, Debug)]
pub enum SFR {
    IndirPort1,
    IndirPort2,
    ProgramCounter,
    Status,
    /// Indirect Address Register 1, aka. F1
    IndirAddr1,
    TimerCount,
    TimerCtrl,
    TimerInit,
    /// Encoding Bit Period Register, readable and writable by Host MCU
    BitCycle,
    /// Indirect Address Register 2, auto-incremented after each access
    IndirAddr2,
    PortDir,
    PortIO,
    BitConfig,
    SysConf,
    CtrlRead,
    CtrlWrite,
    /// Data Exchange Register, aka. F2
    DataExch,
    Data0,
    Data1,
    Data2,
    Data3,
    Data4,
    Data5,
    Data6,
    Data7,
    Data8,
    Data9,
    Data10,
    Data11,
    Data12,
    Data13,
    Data14,
    Data15,
    Data16,
    Data17,
    Data18,
    Data19,
    Data20,
    Data21,
    Data22,
    Data23,
    Data24,
    Data25,
    Data26,
    Data27,
    Data28,
    Data29,
    Data30,
    Data31,
    /// Sentinel identity for register addresses outside `0x00`–`0x3F`.
    Error,
}

/// The register identity at address `val`: one of the 45 named registers
/// for `val <= 0x3F`, the `Error` sentinel for every other address.
pub open spec fn spec_sfr_from_u8(val: u8) -> SFR {
    if val == 0x00 {
        SFR::IndirPort1
    } else if val == 0x01 {
        SFR::IndirPort2
    } else if val == 0x02 {
        SFR::ProgramCounter
    } else if val == 0x03 {
        SFR::Status
    } else if val == 0x04 {
        SFR::IndirAddr1
    } else if val == 0x05 {
        SFR::TimerCount
    } else if val == 0x06 {
        SFR::TimerCtrl
    } else if val == 0x07 {
        SFR::TimerInit
    } else if val == 0x08 {
        SFR::BitCycle
    } else if val == 0x09 {
        SFR::IndirAddr2
    } else if val == 0x0A {
        SFR::PortDir
    } else if val == 0x0B {
        SFR::PortIO
    } else if val == 0x0C {
        SFR::BitConfig
    } else if val == 0x1C {
        SFR::SysConf
    } else if val == 0x1D {
        SFR::CtrlRead
    } else if val == 0x1E {
        SFR::CtrlWrite
    } else if val == 0x1F {
        SFR::DataExch
    } else if val == 0x20 {
        SFR::Data0
    } else if val == 0x21 {
        SFR::Data1
    } else if val == 0x22 {
        SFR::Data2
    } else if val == 0x23 {
        SFR::Data3
    } else if val == 0x24 {
        SFR::Data4
    } else if val == 0x25 {
        SFR::Data5
    } else if val == 0x26 {
        SFR::Data6
    } else if val == 0x27 {
        SFR::Data7
    } else if val == 0x28 {
        SFR::Data8
    } else if val == 0x29 {
        SFR::Data9
    } else if val == 0x2A {
        SFR::Data10
    } else if val == 0x2B {
        SFR::Data11
    } else if val == 0x2C {
        SFR::Data12
    } else if val == 0x2D {
        SFR::Data13
    } else if val == 0x2E {
        SFR::Data14
    } else if val == 0x2F {
        SFR::Data15
    } else if val == 0x30 {
        SFR::Data16
    } else if val == 0x31 {
        SFR::Data17
    } else if val == 0x32 {
        SFR::Data18
    } else if val == 0x33 {
        SFR::Data19
    } else if val == 0x34 {
        SFR::Data20
    } else if val == 0x35 {
        SFR::Data21
    } else if val == 0x36 {
        SFR::Data22
    } else if val == 0x37 {
        SFR::Data23
    } else if val == 0x38 {
        SFR::Data24
    } else if val == 0x39 {
        SFR::Data25
    } else if val == 0x3A {
        SFR::Data26
    } else if val == 0x3B {
        SFR::Data27
    } else if val == 0x3C {
        SFR::Data28
    } else if val == 0x3D {
        SFR::Data29
    } else if val == 0x3E {
        SFR::Data30
    } else if val == 0x3F {
        SFR::Data31
    } else {
        SFR::Error
    }
}

impl SFR {
    /// The short mnemonic spelling of this register identity.
    pub open spec fn spec_name(self) -> Seq<char> {
        match self {
            SFR::IndirPort1 => "IP1"@,
            SFR::IndirPort2 => "IP2"@,
            SFR::ProgramCounter => "PC"@,
            SFR::Status => "SR"@,
            SFR::IndirAddr1 => "IA1"@,
            SFR::TimerCount => "TMRCNT"@,
            SFR::TimerCtrl => "TMRCTL"@,
            SFR::TimerInit => "TMRINIT"@,
            SFR::BitCycle => "BITCYC"@,
            SFR::IndirAddr2 => "IA2"@,
            SFR::PortDir => "PDIR"@,
            SFR::PortIO => "PIO"@,
            SFR::BitConfig => "BITCFG"@,
            SFR::SysConf => "SYSCFG"@,
            SFR::CtrlRead => "CTLRD"@,
            SFR::CtrlWrite => "CTLWR"@,
            SFR::DataExch => "DEXCH"@,
            SFR::Data0 => "D0"@,
            SFR::Data1 => "D1"@,
            SFR::Data2 => "D2"@,
            SFR::Data3 => "D3"@,
            SFR::Data4 => "D4"@,
            SFR::Data5 => "D5"@,
            SFR::Data6 => "D6"@,
            SFR::Data7 => "D7"@,
            SFR::Data8 => "D8"@,
            SFR::Data9 => "D9"@,
            SFR::Data10 => "D10"@,
            SFR::Data11 => "D11"@,
            SFR::Data12 => "D12"@,
            SFR::Data13 => "D13"@,
            SFR::Data14 => "D14"@,
            SFR::Data15 => "D15"@,
            SFR::Data16 => "D16"@,
            SFR::Data17 => "D17"@,
            SFR::Data18 => "D18"@,
            SFR::Data19 => "D19"@,
            SFR::Data20 => "D20"@,
            SFR::Data21 => "D21"@,
            SFR::Data22 => "D22"@,
            SFR::Data23 => "D23"@,
            SFR::Data24 => "D24"@,
            SFR::Data25 => "D25"@,
            SFR::Data26 => "D26"@,
            SFR::Data27 => "D27"@,
            SFR::Data28 => "D28"@,
            SFR::Data29 => "D29"@,
            SFR::Data30 => "D30"@,
            SFR::Data31 => "D31"@,
            SFR::Error => "ERR"@,
        }
    }

    /// The vendor macro spelling of this register identity.
    pub open spec fn spec_vendor_name(self) -> Seq<char> {
        match self {
            SFR::IndirPort1 => "SFR_INDIR_PORT"@,
            SFR::IndirPort2 => "SFR_INDIR_PORT2"@,
            SFR::ProgramCounter => "SFR_PRG_COUNT"@,
            SFR::Status => "SFR_STATUS_REG"@,
            SFR::IndirAddr1 => "SFR_INDIR_ADDR"@,
            SFR::TimerCount => "SFR_TMR0_COUNT"@,
            SFR::TimerCtrl => "SFR_TIMER_CTRL"@,
            SFR::TimerInit => "SFR_TMR0_INIT"@,
            SFR::BitCycle => "SFR_BIT_CYCLE"@,
            SFR::IndirAddr2 => "SFR_INDIR_ADDR2"@,
            SFR::PortDir => "SFR_PORT_DIR"@,
            SFR::PortIO => "SFR_PORT_IO"@,
            SFR::BitConfig => "SFR_BIT_CONFIG"@,
            SFR::SysConf => "SFR_SYS_CFG"@,
            SFR::CtrlRead => "SFR_CTRL_RD"@,
            SFR::CtrlWrite => "SFR_CTRL_WR"@,
            SFR::DataExch => "SFR_DATA_EXCH"@,
            SFR::Data0 => "SFR_DATA_REG0"@,
            SFR::Data1 => "SFR_DATA_REG1"@,
            SFR::Data2 => "SFR_DATA_REG2"@,
            SFR::Data3 => "SFR_DATA_REG3"@,
            SFR::Data4 => "SFR_DATA_REG4"@,
            SFR::Data5 => "SFR_DATA_REG5"@,
            SFR::Data6 => "SFR_DATA_REG6"@,
            SFR::Data7 => "SFR_DATA_REG7"@,
            SFR::Data8 => "SFR_DATA_REG8"@,
            SFR::Data9 => "SFR_DATA_REG9"@,
            SFR::Data10 => "SFR_DATA_REG10"@,
            SFR::Data11 => "SFR_DATA_REG11"@,
            SFR::Data12 => "SFR_DATA_REG12"@,
            SFR::Data13 => "SFR_DATA_REG13"@,
            SFR::Data14 => "SFR_DATA_REG14"@,
            SFR::Data15 => "SFR_DATA_REG15"@,
            SFR::Data16 => "SFR_DATA_REG16"@,
            SFR::Data17 => "SFR_DATA_REG17"@,
            SFR::Data18 => "SFR_DATA_REG18"@,
            SFR::Data19 => "SFR_DATA_REG19"@,
            SFR::Data20 => "SFR_DATA_REG20"@,
            SFR::Data21 => "SFR_DATA_REG21"@,
            SFR::Data22 => "SFR_DATA_REG22"@,
            SFR::Data23 => "SFR_DATA_REG23"@,
            SFR::Data24 => "SFR_DATA_REG24"@,
            SFR::Data25 => "SFR_DATA_REG25"@,
            SFR::Data26 => "SFR_DATA_REG26"@,
            SFR::Data27 => "SFR_DATA_REG27"@,
            SFR::Data28 => "SFR_DATA_REG28"@,
            SFR::Data29 => "SFR_DATA_REG29"@,
            SFR::Data30 => "SFR_DATA_REG30"@,
            SFR::Data31 => "SFR_DATA_REG31"@,
            SFR::Error => "!!SFR_ERROR!!"@,
        }
    }

    /// Total register resolution: a named identity for every address at or
    /// below `0x3F`, the `Error` sentinel for every address above it.
    pub fn from_u8(val: u8) -> (r: SFR)
        ensures
            r == spec_sfr_from_u8(val),
    {
        match val {
            0x00 => SFR::IndirPort1,
            0x01 => SFR::IndirPort2,
            0x02 => SFR::ProgramCounter,
            0x03 => SFR::Status,
            0x04 => SFR::IndirAddr1,
            0x05 => SFR::TimerCount,
            0x06 => SFR::TimerCtrl,
            0x07 => SFR::TimerInit,
            0x08 => SFR::BitCycle,
            0x09 => SFR::IndirAddr2,
            0x0A => SFR::PortDir,
            0x0B => SFR::PortIO,
            0x0C => SFR::BitConfig,
            0x1C => SFR::SysConf,
            0x1D => SFR::CtrlRead,
            0x1E => SFR::CtrlWrite,
            0x1F => SFR::DataExch,
            0x20 => SFR::Data0,
            0x21 => SFR::Data1,
            0x22 => SFR::Data2,
            0x23 => SFR::Data3,
            0x24 => SFR::Data4,
            0x25 => SFR::Data5,
            0x26 => SFR::Data6,
            0x27 => SFR::Data7,
            0x28 => SFR::Data8,
            0x29 => SFR::Data9,
            0x2A => SFR::Data10,
            0x2B => SFR::Data11,
            0x2C => SFR::Data12,
            0x2D => SFR::Data13,
            0x2E => SFR::Data14,
            0x2F => SFR::Data15,
            0x30 => SFR::Data16,
            0x31 => SFR::Data17,
            0x32 => SFR::Data18,
            0x33 => SFR::Data19,
            0x34 => SFR::Data20,
            0x35 => SFR::Data21,
            0x36 => SFR::Data22,
            0x37 => SFR::Data23,
            0x38 => SFR::Data24,
            0x39 => SFR::Data25,
            0x3A => SFR::Data26,
            0x3B => SFR::Data27,
            0x3C => SFR::Data28,
            0x3D => SFR::Data29,
            0x3E => SFR::Data30,
            0x3F => SFR::Data31,
            _ => SFR::Error,
        }
    }

    /// The short mnemonic spelling, e.g. `PC`, `SR`, `D0`.
    pub fn to_name(&self) -> (r: &'static str)
        ensures
            r@ == self.spec_name(),
    {
        match self {
            SFR::IndirPort1 => "IP1",
            SFR::IndirPort2 => "IP2",
            SFR::ProgramCounter => "PC",
            SFR::Status => "SR",
            SFR::IndirAddr1 => "IA1",
            SFR::TimerCount => "TMRCNT",
            SFR::TimerCtrl => "TMRCTL",
            SFR::TimerInit => "TMRINIT",
            SFR::BitCycle => "BITCYC",
            SFR::IndirAddr2 => "IA2",
            SFR::PortDir => "PDIR",
            SFR::PortIO => "PIO",
            SFR::BitConfig => "BITCFG",
            SFR::SysConf => "SYSCFG",
            SFR::CtrlRead => "CTLRD",
            SFR::CtrlWrite => "CTLWR",
            SFR::DataExch => "DEXCH",
            SFR::Data0 => "D0",
            SFR::Data1 => "D1",
            SFR::Data2 => "D2",
            SFR::Data3 => "D3",
            SFR::Data4 => "D4",
            SFR::Data5 => "D5",
            SFR::Data6 => "D6",
            SFR::Data7 => "D7",
            SFR::Data8 => "D8",
            SFR::Data9 => "D9",
            SFR::Data10 => "D10",
            SFR::Data11 => "D11",
            SFR::Data12 => "D12",
            SFR::Data13 => "D13",
            SFR::Data14 => "D14",
            SFR::Data15 => "D15",
            SFR::Data16 => "D16",
            SFR::Data17 => "D17",
            SFR::Data18 => "D18",
            SFR::Data19 => "D19",
            SFR::Data20 => "D20",
            SFR::Data21 => "D21",
            SFR::Data22 => "D22",
            SFR::Data23 => "D23",
            SFR::Data24 => "D24",
            SFR::Data25 => "D25",
            SFR::Data26 => "D26",
            SFR::Data27 => "D27",
            SFR::Data28 => "D28",
            SFR::Data29 => "D29",
            SFR::Data30 => "D30",
            SFR::Data31 => "D31",
            SFR::Error => "ERR",
        }
    }

    /// The vendor macro spelling, e.g. `SFR_PRG_COUNT`, `SFR_DATA_REG0`.
    pub fn to_wch_risc8b_name(&self) -> (r: &'static str)
        ensures
            r@ == self.spec_vendor_name(),
    {
        match self {
            SFR::IndirPort1 => "SFR_INDIR_PORT",
            SFR::IndirPort2 => "SFR_INDIR_PORT2",
            SFR::ProgramCounter => "SFR_PRG_COUNT",
            SFR::Status => "SFR_STATUS_REG",
            SFR::IndirAddr1 => "SFR_INDIR_ADDR",
            SFR::TimerCount => "SFR_TMR0_COUNT",
            SFR::TimerCtrl => "SFR_TIMER_CTRL",
            SFR::TimerInit => "SFR_TMR0_INIT",
            SFR::BitCycle => "SFR_BIT_CYCLE",
            SFR::IndirAddr2 => "SFR_INDIR_ADDR2",
            SFR::PortDir => "SFR_PORT_DIR",
            SFR::PortIO => "SFR_PORT_IO",
            SFR::BitConfig => "SFR_BIT_CONFIG",
            SFR::SysConf => "SFR_SYS_CFG",
            SFR::CtrlRead => "SFR_CTRL_RD",
            SFR::CtrlWrite => "SFR_CTRL_WR",
            SFR::DataExch => "SFR_DATA_EXCH",
            SFR::Data0 => "SFR_DATA_REG0",
            SFR::Data1 => "SFR_DATA_REG1",
            SFR::Data2 => "SFR_DATA_REG2",
            SFR::Data3 => "SFR_DATA_REG3",
            SFR::Data4 => "SFR_DATA_REG4",
            SFR::Data5 => "SFR_DATA_REG5",
            SFR::Data6 => "SFR_DATA_REG6",
            SFR::Data7 => "SFR_DATA_REG7",
            SFR::Data8 => "SFR_DATA_REG8",
            SFR::Data9 => "SFR_DATA_REG9",
            SFR::Data10 => "SFR_DATA_REG10",
            SFR::Data11 => "SFR_DATA_REG11",
            SFR::Data12 => "SFR_DATA_REG12",
            SFR::Data13 => "SFR_DATA_REG13",
            SFR::Data14 => "SFR_DATA_REG14",
            SFR::Data15 => "SFR_DATA_REG15",
            SFR::Data16 => "SFR_DATA_REG16",
            SFR::Data17 => "SFR_DATA_REG17",
            SFR::Data18 => "SFR_DATA_REG18",
            SFR::Data19 => "SFR_DATA_REG19",
            SFR::Data20 => "SFR_DATA_REG20",
            SFR::Data21 => "SFR_DATA_REG21",
            SFR::Data22 => "SFR_DATA_REG22",
            SFR::Data23 => "SFR_DATA_REG23",
            SFR::Data24 => "SFR_DATA_REG24",
            SFR::Data25 => "SFR_DATA_REG25",
            SFR::Data26 => "SFR_DATA_REG26",
            SFR::Data27 => "SFR_DATA_REG27",
            SFR::Data28 => "SFR_DATA_REG28",
            SFR::Data29 => "SFR_DATA_REG29",
            SFR::Data30 => "SFR_DATA_REG30",
            SFR::Data31 => "SFR_DATA_REG31",
            SFR::Error => "!!SFR_ERROR!!",
        }
    }
}

/// Register resolution is total and collapses every address above `0x3F`
/// to the `Error` identity.
pub proof fn lemma_resolve_out_of_range(code: u8)
    requires
        code > 0x3F,
    ensures
        spec_sfr_from_u8(code) == SFR::Error,
{
}

/// Every data-register address `0x20 + i` resolves to an identity whose
/// short name is the letter `D` followed by `i` in decimal.
pub proof fn lemma_data_reg_name(code: u8)
    requires
        0x20 <= code <= 0x3F,
    ensures
        spec_sfr_from_u8(code).spec_name() == seq!['D'] + dec_str(code - 0x20),
{
    reveal_with_fuel(dec_str, 3);
    if code == 0x20 {
        reveal_strlit("D0");
        assert(spec_sfr_from_u8(code).spec_name() =~= seq!['D'] + dec_str(code - 0x20));
    } else if code == 0x21 {
        reveal_strlit("D1");
        assert(spec_sfr_from_u8(code).spec_name() =~= seq!['D'] + dec_str(code - 0x20));
    } else if code == 0x22 {
        reveal_strlit("D2");
        assert(spec_sfr_from_u8(code).spec_name() =~= seq!['D'] + dec_str(code - 0x20));
    } else if code == 0x23 {
        reveal_strlit("D3");
        assert(spec_sfr_from_u8(code).spec_name() =~= seq!['D'] + dec_str(code - 0x20));
    } else if code == 0x24 {
        reveal_strlit("D4");
        assert(spec_sfr_from_u8(code).spec_name() =~= seq!['D'] + dec_str(code - 0x20));
    } else if code == 0x25 {
        reveal_strlit("D5");
        assert(spec_sfr_from_u8(code).spec_name() =~= seq!['D'] + dec_str(code - 0x20));
    } else if code == 0x26 {
        reveal_strlit("D6");
        assert(spec_sfr_from_u8(code).spec_name() =~= seq!['D'] + dec_str(code - 0x20));
    } else if code == 0x27 {
        reveal_strlit("D7");
        assert(spec_sfr_from_u8(code).spec_name() =~= seq!['D'] + dec_str(code - 0x20));
    } else if code == 0x28 {
        reveal_strlit("D8");
        assert(spec_sfr_from_u8(code).spec_name() =~= seq!['D'] + dec_str(code - 0x20));
    } else if code == 0x29 {
        reveal_strlit("D9");
        assert(spec_sfr_from_u8(code).spec_name() =~= seq!['D'] + dec_str(code - 0x20));
    } else if code == 0x2A {
        reveal_strlit("D10");
        assert(spec_sfr_from_u8(code).spec_name() =~= seq!['D'] + dec_str(code - 0x20));
    } else if code == 0x2B {
        reveal_strlit("D11");
        assert(spec_sfr_from_u8(code).spec_name() =~= seq!['D'] + dec_str(code - 0x20));
    } else if code == 0x2C {
        reveal_strlit("D12");
        assert(spec_sfr_from_u8(code).spec_name() =~= seq!['D'] + dec_str(code - 0x20));
    } else if code == 0x2D {
        reveal_strlit("D13");
        assert(spec_sfr_from_u8(code).spec_name() =~= seq!['D'] + dec_str(code - 0x20));
    } else if code == 0x2E {
        reveal_strlit("D14");
        assert(spec_sfr_from_u8(code).spec_name() =~= seq!['D'] + dec_str(code - 0x20));
    } else if code == 0x2F {
        reveal_strlit("D15");
        assert(spec_sfr_from_u8(code).spec_name() =~= seq!['D'] + dec_str(code - 0x20));
    } else if code == 0x30 {
        reveal_strlit("D16");
        assert(spec_sfr_from_u8(code).spec_name() =~= seq!['D'] + dec_str(code - 0x20));
    } else if code == 0x31 {
        reveal_strlit("D17");
        assert(spec_sfr_from_u8(code).spec_name() =~= seq!['D'] + dec_str(code - 0x20));
    } else if code == 0x32 {
        reveal_strlit("D18");
        assert(spec_sfr_from_u8(code).spec_name() =~= seq!['D'] + dec_str(code - 0x20));
    } else if code == 0x33 {
        reveal_strlit("D19");
        assert(spec_sfr_from_u8(code).spec_name() =~= seq!['D'] + dec_str(code - 0x20));
    } else if code == 0x34 {
        reveal_strlit("D20");
        assert(spec_sfr_from_u8(code).spec_name() =~= seq!['D'] + dec_str(code - 0x20));
    } else if code == 0x35 {
        reveal_strlit("D21");
        assert(spec_sfr_from_u8(code).spec_name() =~= seq!['D'] + dec_str(code - 0x20));
    } else if code == 0x36 {
        reveal_strlit("D22");
        assert(spec_sfr_from_u8(code).spec_name() =~= seq!['D'] + dec_str(code - 0x20));
    } else if code == 0x37 {
        reveal_strlit("D23");
        assert(spec_sfr_from_u8(code).spec_name() =~= seq!['D'] + dec_str(code - 0x20));
    } else if code == 0x38 {
        reveal_strlit("D24");
        assert(spec_sfr_from_u8(code).spec_name() =~= seq!['D'] + dec_str(code - 0x20));
    } else if code == 0x39 {
        reveal_strlit("D25");
        assert(spec_sfr_from_u8(code).spec_name() =~= seq!['D'] + dec_str(code - 0x20));
    } else if code == 0x3A {
        reveal_strlit("D26");
        assert(spec_sfr_from_u8(code).spec_name() =~= seq!['D'] + dec_str(code - 0x20));
    } else if code == 0x3B {
        reveal_strlit("D27");
        assert(spec_sfr_from_u8(code).spec_name() =~= seq!['D'] + dec_str(code - 0x20));
    } else if code == 0x3C {
        reveal_strlit("D28");
        assert(spec_sfr_from_u8(code).spec_name() =~= seq!['D'] + dec_str(code - 0x20));
    } else if code == 0x3D {
        reveal_strlit("D29");
        assert(spec_sfr_from_u8(code).spec_name() =~= seq!['D'] + dec_str(code - 0x20));
    } else if code == 0x3E {
        reveal_strlit("D30");
        assert(spec_sfr_from_u8(code).spec_name() =~= seq!['D'] + dec_str(code - 0x20));
    } else if code == 0x3F {
        reveal_strlit("D31");
        assert(spec_sfr_from_u8(code).spec_name() =~= seq!['D'] + dec_str(code - 0x20));
    }
}

/// The register identity spelled by `s`, read case-insensitively: one of
/// the fixed short names, or the letter `D` followed by a data-register
/// number below 32.
pub open spec fn spec_sfr_parse(s: Seq<char>) -> Option<SFR> {
    let u = upper_seq(s);
    if u == "PC"@ {
        Some(SFR::ProgramCounter)
    } else if u == "SR"@ {
        Some(SFR::Status)
    } else if u == "IP1"@ {
        Some(SFR::IndirPort1)
    } else if u == "IP2"@ {
        Some(SFR::IndirPort2)
    } else if u == "IA1"@ {
        Some(SFR::IndirAddr1)
    } else if u == "IA2"@ {
        Some(SFR::IndirAddr2)
    } else if u == "TMRCNT"@ {
        Some(SFR::TimerCount)
    } else if u == "TMRCTL"@ {
        Some(SFR::TimerCtrl)
    } else if u == "TMRINIT"@ {
        Some(SFR::TimerInit)
    } else if u == "BITCYC"@ {
        Some(SFR::BitCycle)
    } else if u == "PDIR"@ {
        Some(SFR::PortDir)
    } else if u == "PIO"@ {
        Some(SFR::PortIO)
    } else if u == "BITCFG"@ {
        Some(SFR::BitConfig)
    } else if u == "SYSCFG"@ {
        Some(SFR::SysConf)
    } else if u == "CTLRD"@ {
        Some(SFR::CtrlRead)
    } else if u == "CTLWR"@ {
        Some(SFR::CtrlWrite)
    } else if u == "DEXCH"@ {
        Some(SFR::DataExch)
    } else if u.len() > 0 && u[0] == 'D' {
        match spec_parse_u8_dec(u.skip(1)) {
            Some(num) => if num < 32 {
                Some(spec_sfr_from_u8((0x20 + num) as u8))
            } else {
                None
            },
            None => None,
        }
    } else if u == "ERR"@ {
        Some(SFR::Error)
    } else {
        None
    }
}

impl SFR {
    /// Reads a register identity from its short name, case-insensitively.
    /// The left inverse of the short-name rendering, plus the numeric
    /// data-register path `D0` to `D31`.
    pub fn parse(s: &str) -> (r: Option<SFR>)
        ensures
            r == spec_sfr_parse(s@),
    {
        if eq_ignore_ascii_case(s, "PC") {
            Some(SFR::ProgramCounter)
        } else if eq_ignore_ascii_case(s, "SR") {
            Some(SFR::Status)
        } else if eq_ignore_ascii_case(s, "IP1") {
            Some(SFR::IndirPort1)
        } else if eq_ignore_ascii_case(s, "IP2") {
            Some(SFR::IndirPort2)
        } else if eq_ignore_ascii_case(s, "IA1") {
            Some(SFR::IndirAddr1)
        } else if eq_ignore_ascii_case(s, "IA2") {
            Some(SFR::IndirAddr2)
        } else if eq_ignore_ascii_case(s, "TMRCNT") {
            Some(SFR::TimerCount)
        } else if eq_ignore_ascii_case(s, "TMRCTL") {
            Some(SFR::TimerCtrl)
        } else if eq_ignore_ascii_case(s, "TMRINIT") {
            Some(SFR::TimerInit)
        } else if eq_ignore_ascii_case(s, "BITCYC") {
            Some(SFR::BitCycle)
        } else if eq_ignore_ascii_case(s, "PDIR") {
            Some(SFR::PortDir)
        } else if eq_ignore_ascii_case(s, "PIO") {
            Some(SFR::PortIO)
        } else if eq_ignore_ascii_case(s, "BITCFG") {
            Some(SFR::BitConfig)
        } else if eq_ignore_ascii_case(s, "SYSCFG") {
            Some(SFR::SysConf)
        } else if eq_ignore_ascii_case(s, "CTLRD") {
            Some(SFR::CtrlRead)
        } else if eq_ignore_ascii_case(s, "CTLWR") {
            Some(SFR::CtrlWrite)
        } else if eq_ignore_ascii_case(s, "DEXCH") {
            Some(SFR::DataExch)
        } else {
            let n = s.unicode_len();
            if n > 0 && upper_char_exec(s.get_char(0)) == 'D' {
                let rest = s.substring_char(1, n);
                proof {
                    assert(rest@ =~= s@.skip(1));
                    assert(upper_seq(s@).skip(1) =~= upper_seq(s@.skip(1)));
                    lemma_parse_u8_upper(s@.skip(1));
                }
                match parse_u8_dec(rest) {
                    Some(num) => if num < 32 {
                        Some(SFR::from_u8(0x20 + num))
                    } else {
                        None
                    },
                    None => None,
                }
            } else if eq_ignore_ascii_case(s, "ERR") {
                Some(SFR::Error)
            } else {
                None
            }
        }
    }
}

/// Reading a short register name back yields the identity it renders:
/// parsing is the left inverse of the short-name rendering, for every
/// register identity including the sentinel.
#[verifier::spinoff_prover]
#[verifier::rlimit(100)]
pub proof fn lemma_parse_name_round_trip(sfr: SFR)
    ensures
        spec_sfr_parse(sfr.spec_name()) == Some(sfr),
{
    match sfr {
        SFR::IndirPort1 => {
            assert(spec_sfr_parse(sfr.spec_name()) == Some(sfr)) by {
                reveal_strlit("PC");
                reveal_strlit("SR");
                reveal_strlit("IP1");
                reveal_strlit("IP2");
                reveal_strlit("IA1");
                reveal_strlit("IA2");
                reveal_strlit("TMRCNT");
                reveal_strlit("TMRCTL");
                reveal_strlit("TMRINIT");
                reveal_strlit("BITCYC");
                reveal_strlit("PDIR");
                reveal_strlit("PIO");
                reveal_strlit("BITCFG");
                reveal_strlit("SYSCFG");
                reveal_strlit("CTLRD");
                reveal_strlit("CTLWR");
                reveal_strlit("DEXCH");
                reveal_strlit("ERR");
                assert(upper_seq("IP1"@) =~= "IP1"@);
            };
        },
        SFR::IndirPort2 => {
            assert(spec_sfr_parse(sfr.spec_name()) == Some(sfr)) by {
                reveal_strlit("IP1");
                reveal_strlit("IP2");
                assert("IP2"@[2] != "IP1"@[2]);
                assert("IP2"@ != "IP1"@);
                reveal_strlit("PC");
                reveal_strlit("SR");
                reveal_strlit("IA1");
                reveal_strlit("IA2");
                reveal_strlit("TMRCNT");
                reveal_strlit("TMRCTL");
                reveal_strlit("TMRINIT");
                reveal_strlit("BITCYC");
                reveal_strlit("PDIR");
                reveal_strlit("PIO");
                reveal_strlit("BITCFG");
                reveal_strlit("SYSCFG");
                reveal_strlit("CTLRD");
                reveal_strlit("CTLWR");
                reveal_strlit("DEXCH");
                reveal_strlit("ERR");
                assert(upper_seq("IP2"@) =~= "IP2"@);
            };
        },
        SFR::ProgramCounter => {
            assert(spec_sfr_parse(sfr.spec_name()) == Some(sfr)) by {
                reveal_strlit("PC");
                reveal_strlit("SR");
                reveal_strlit("IP1");
                reveal_strlit("IP2");
                reveal_strlit("IA1");
                reveal_strlit("IA2");
                reveal_strlit("TMRCNT");
                reveal_strlit("TMRCTL");
                reveal_strlit("TMRINIT");
                reveal_strlit("BITCYC");
                reveal_strlit("PDIR");
                reveal_strlit("PIO");
                reveal_strlit("BITCFG");
                reveal_strlit("SYSCFG");
                reveal_strlit("CTLRD");
                reveal_strlit("CTLWR");
                reveal_strlit("DEXCH");
                reveal_strlit("ERR");
                assert(upper_seq("PC"@) =~= "PC"@);
            };
        },
        SFR::Status => {
            assert(spec_sfr_parse(sfr.spec_name()) == Some(sfr)) by {
                reveal_strlit("PC");
                reveal_strlit("SR");
                reveal_strlit("IP1");
                reveal_strlit("IP2");
                reveal_strlit("IA1");
                reveal_strlit("IA2");
                reveal_strlit("TMRCNT");
                reveal_strlit("TMRCTL");
                reveal_strlit("TMRINIT");
                reveal_strlit("BITCYC");
                reveal_strlit("PDIR");
                reveal_strlit("PIO");
                reveal_strlit("BITCFG");
                reveal_strlit("SYSCFG");
                reveal_strlit("CTLRD");
                reveal_strlit("CTLWR");
                reveal_strlit("DEXCH");
                reveal_strlit("ERR");
                assert(upper_seq("SR"@) =~= "SR"@);
            };
        },
        SFR::IndirAddr1 => {
            assert(spec_sfr_parse(sfr.spec_name()) == Some(sfr)) by {
                reveal_strlit("PC");
                reveal_strlit("SR");
                reveal_strlit("IP1");
                reveal_strlit("IP2");
                reveal_strlit("IA1");
                reveal_strlit("IA2");
                reveal_strlit("TMRCNT");
                reveal_strlit("TMRCTL");
                reveal_strlit("TMRINIT");
                reveal_strlit("BITCYC");
                reveal_strlit("PDIR");
                reveal_strlit("PIO");
                reveal_strlit("BITCFG");
                reveal_strlit("SYSCFG");
                reveal_strlit("CTLRD");
                reveal_strlit("CTLWR");
                reveal_strlit("DEXCH");
                reveal_strlit("ERR");
                assert(upper_seq("IA1"@) =~= "IA1"@);
            };
        },
        SFR::TimerCount => {
            assert(spec_sfr_parse(sfr.spec_name()) == Some(sfr)) by {
                reveal_strlit("PC");
                reveal_strlit("SR");
                reveal_strlit("IP1");
                reveal_strlit("IP2");
                reveal_strlit("IA1");
                reveal_strlit("IA2");
                reveal_strlit("TMRCNT");
                reveal_strlit("TMRCTL");
                reveal_strlit("TMRINIT");
                reveal_strlit("BITCYC");
                reveal_strlit("PDIR");
                reveal_strlit("PIO");
                reveal_strlit("BITCFG");
                reveal_strlit("SYSCFG");
                reveal_strlit("CTLRD");
                reveal_strlit("CTLWR");
                reveal_strlit("DEXCH");
                reveal_strlit("ERR");
                assert(upper_seq("TMRCNT"@) =~= "TMRCNT"@);
            };
        },
        SFR::TimerCtrl => {
            assert(spec_sfr_parse(sfr.spec_name()) == Some(sfr)) by {
                reveal_strlit("TMRCTL");
                reveal_strlit("TMRCNT");
                assert("TMRCTL"@[4] != "TMRCNT"@[4]);
                assert("TMRCTL"@ != "TMRCNT"@);
                reveal_strlit("PC");
                reveal_strlit("SR");
                reveal_strlit("IP1");
                reveal_strlit("IP2");
                reveal_strlit("IA1");
                reveal_strlit("IA2");
                reveal_strlit("TMRINIT");
                reveal_strlit("BITCYC");
                reveal_strlit("PDIR");
                reveal_strlit("PIO");
                reveal_strlit("BITCFG");
                reveal_strlit("SYSCFG");
                reveal_strlit("CTLRD");
                reveal_strlit("CTLWR");
                reveal_strlit("DEXCH");
                reveal_strlit("ERR");
                assert(upper_seq("TMRCTL"@) =~= "TMRCTL"@);
            };
        },
        SFR::TimerInit => {
            assert(spec_sfr_parse(sfr.spec_name()) == Some(sfr)) by {
                reveal_strlit("PC");
                reveal_strlit("SR");
                reveal_strlit("IP1");
                reveal_strlit("IP2");
                reveal_strlit("IA1");
                reveal_strlit("IA2");
                reveal_strlit("TMRCNT");
                reveal_strlit("TMRCTL");
                reveal_strlit("TMRINIT");
                reveal_strlit("BITCYC");
                reveal_strlit("PDIR");
                reveal_strlit("PIO");
                reveal_strlit("BITCFG");
                reveal_strlit("SYSCFG");
                reveal_strlit("CTLRD");
                reveal_strlit("CTLWR");
                reveal_strlit("DEXCH");
                reveal_strlit("ERR");
                assert(upper_seq("TMRINIT"@) =~= "TMRINIT"@);
            };
        },
        SFR::BitCycle => {
            assert(spec_sfr_parse(sfr.spec_name()) == Some(sfr)) by {
                reveal_strlit("PC");
                reveal_strlit("SR");
                reveal_strlit("IP1");
                reveal_strlit("IP2");
                reveal_strlit("IA1");
                reveal_strlit("IA2");
                reveal_strlit("TMRCNT");
                reveal_strlit("TMRCTL");
                reveal_strlit("TMRINIT");
                reveal_strlit("BITCYC");
                reveal_strlit("PDIR");
                reveal_strlit("PIO");
                reveal_strlit("BITCFG");
                reveal_strlit("SYSCFG");
                reveal_strlit("CTLRD");
                reveal_strlit("CTLWR");
                reveal_strlit("DEXCH");
                reveal_strlit("ERR");
                assert(upper_seq("BITCYC"@) =~= "BITCYC"@);
            };
        },
        SFR::IndirAddr2 => {
            assert(spec_sfr_parse(sfr.spec_name()) == Some(sfr)) by {
                reveal_strlit("IA2");
                reveal_strlit("IA1");
                assert("IA2"@[2] != "IA1"@[2]);
                assert("IA2"@ != "IA1"@);
                reveal_strlit("PC");
                reveal_strlit("SR");
                reveal_strlit("IP1");
                reveal_strlit("IP2");
                reveal_strlit("TMRCNT");
                reveal_strlit("TMRCTL");
                reveal_strlit("TMRINIT");
                reveal_strlit("BITCYC");
                reveal_strlit("PDIR");
                reveal_strlit("PIO");
                reveal_strlit("BITCFG");
                reveal_strlit("SYSCFG");
                reveal_strlit("CTLRD");
                reveal_strlit("CTLWR");
                reveal_strlit("DEXCH");
                reveal_strlit("ERR");
                assert(upper_seq("IA2"@) =~= "IA2"@);
            };
        },
        SFR::PortDir => {
            assert(spec_sfr_parse(sfr.spec_name()) == Some(sfr)) by {
                reveal_strlit("PC");
                reveal_strlit("SR");
                reveal_strlit("IP1");
                reveal_strlit("IP2");
                reveal_strlit("IA1");
                reveal_strlit("IA2");
                reveal_strlit("TMRCNT");
                reveal_strlit("TMRCTL");
                reveal_strlit("TMRINIT");
                reveal_strlit("BITCYC");
                reveal_strlit("PDIR");
                reveal_strlit("PIO");
                reveal_strlit("BITCFG");
                reveal_strlit("SYSCFG");
                reveal_strlit("CTLRD");
                reveal_strlit("CTLWR");
                reveal_strlit("DEXCH");
                reveal_strlit("ERR");
                assert(upper_seq("PDIR"@) =~= "PDIR"@);
            };
        },
        SFR::PortIO => {
            assert(spec_sfr_parse(sfr.spec_name()) == Some(sfr)) by {
                reveal_strlit("PC");
                reveal_strlit("SR");
                reveal_strlit("IP1");
                reveal_strlit("IP2");
                reveal_strlit("IA1");
                reveal_strlit("IA2");
                reveal_strlit("TMRCNT");
                reveal_strlit("TMRCTL");
                reveal_strlit("TMRINIT");
                reveal_strlit("BITCYC");
                reveal_strlit("PDIR");
                reveal_strlit("PIO");
                reveal_strlit("BITCFG");
                reveal_strlit("SYSCFG");
                reveal_strlit("CTLRD");
                reveal_strlit("CTLWR");
                reveal_strlit("DEXCH");
                reveal_strlit("ERR");
                assert(upper_seq("PIO"@) =~= "PIO"@);
            };
        },
        SFR::BitConfig => {
            assert(spec_sfr_parse(sfr.spec_name()) == Some(sfr)) by {
                reveal_strlit("BITCFG");
                reveal_strlit("BITCYC");
                assert("BITCFG"@[4] != "BITCYC"@[4]);
                assert("BITCFG"@ != "BITCYC"@);
                reveal_strlit("PC");
                reveal_strlit("SR");
                reveal_strlit("IP1");
                reveal_strlit("IP2");
                reveal_strlit("IA1");
                reveal_strlit("IA2");
                reveal_strlit("TMRCNT");
                reveal_strlit("TMRCTL");
                reveal_strlit("TMRINIT");
                reveal_strlit("PDIR");
                reveal_strlit("PIO");
                reveal_strlit("SYSCFG");
                reveal_strlit("CTLRD");
                reveal_strlit("CTLWR");
                reveal_strlit("DEXCH");
                reveal_strlit("ERR");
                assert(upper_seq("BITCFG"@) =~= "BITCFG"@);
            };
        },
        SFR::SysConf => {
            assert(spec_sfr_parse(sfr.spec_name()) == Some(sfr)) by {
                reveal_strlit("PC");
                reveal_strlit("SR");
                reveal_strlit("IP1");
                reveal_strlit("IP2");
                reveal_strlit("IA1");
                reveal_strlit("IA2");
                reveal_strlit("TMRCNT");
                reveal_strlit("TMRCTL");
                reveal_strlit("TMRINIT");
                reveal_strlit("BITCYC");
                reveal_strlit("PDIR");
                reveal_strlit("PIO");
                reveal_strlit("BITCFG");
                reveal_strlit("SYSCFG");
                reveal_strlit("CTLRD");
                reveal_strlit("CTLWR");
                reveal_strlit("DEXCH");
                reveal_strlit("ERR");
                assert(upper_seq("SYSCFG"@) =~= "SYSCFG"@);
            };
        },
        SFR::CtrlRead => {
            assert(spec_sfr_parse(sfr.spec_name()) == Some(sfr)) by {
                reveal_strlit("PC");
                reveal_strlit("SR");
                reveal_strlit("IP1");
                reveal_strlit("IP2");
                reveal_strlit("IA1");
                reveal_strlit("IA2");
                reveal_strlit("TMRCNT");
                reveal_strlit("TMRCTL");
                reveal_strlit("TMRINIT");
                reveal_strlit("BITCYC");
                reveal_strlit("PDIR");
                reveal_strlit("PIO");
                reveal_strlit("BITCFG");
                reveal_strlit("SYSCFG");
                reveal_strlit("CTLRD");
                reveal_strlit("CTLWR");
                reveal_strlit("DEXCH");
                reveal_strlit("ERR");
                assert(upper_seq("CTLRD"@) =~= "CTLRD"@);
            };
        },
        SFR::CtrlWrite => {
            assert(spec_sfr_parse(sfr.spec_name()) == Some(sfr)) by {
                reveal_strlit("CTLWR");
                reveal_strlit("CTLRD");
                assert("CTLWR"@[3] != "CTLRD"@[3]);
                assert("CTLWR"@ != "CTLRD"@);
                reveal_strlit("PC");
                reveal_strlit("SR");
                reveal_strlit("IP1");
                reveal_strlit("IP2");
                reveal_strlit("IA1");
                reveal_strlit("IA2");
                reveal_strlit("TMRCNT");
                reveal_strlit("TMRCTL");
                reveal_strlit("TMRINIT");
                reveal_strlit("BITCYC");
                reveal_strlit("PDIR");
                reveal_strlit("PIO");
                reveal_strlit("BITCFG");
                reveal_strlit("SYSCFG");
                reveal_strlit("DEXCH");
                reveal_strlit("ERR");
                assert(upper_seq("CTLWR"@) =~= "CTLWR"@);
            };
        },
        SFR::DataExch => {
            assert(spec_sfr_parse(sfr.spec_name()) == Some(sfr)) by {
                reveal_strlit("PC");
                reveal_strlit("SR");
                reveal_strlit("IP1");
                reveal_strlit("IP2");
                reveal_strlit("IA1");
                reveal_strlit("IA2");
                reveal_strlit("TMRCNT");
                reveal_strlit("TMRCTL");
                reveal_strlit("TMRINIT");
                reveal_strlit("BITCYC");
                reveal_strlit("PDIR");
                reveal_strlit("PIO");
                reveal_strlit("BITCFG");
                reveal_strlit("SYSCFG");
                reveal_strlit("CTLRD");
                reveal_strlit("CTLWR");
                reveal_strlit("DEXCH");
                reveal_strlit("ERR");
                assert(upper_seq("DEXCH"@) =~= "DEXCH"@);
            };
        },
        SFR::Error => {
            assert(spec_sfr_parse(sfr.spec_name()) == Some(sfr)) by {
                reveal_strlit("PC");
                reveal_strlit("SR");
                reveal_strlit("IP1");
                reveal_strlit("IP2");
                reveal_strlit("IA1");
                reveal_strlit("IA2");
                reveal_strlit("TMRCNT");
                reveal_strlit("TMRCTL");
                reveal_strlit("TMRINIT");
                reveal_strlit("BITCYC");
                reveal_strlit("PDIR");
                reveal_strlit("PIO");
                reveal_strlit("BITCFG");
                reveal_strlit("SYSCFG");
                reveal_strlit("CTLRD");
                reveal_strlit("CTLWR");
                reveal_strlit("DEXCH");
                reveal_strlit("ERR");
                assert(upper_seq("ERR"@) =~= "ERR"@);
            };
        },
        SFR::Data0 => {
            assert(spec_sfr_parse(sfr.spec_name()) == Some(sfr)) by {
                reveal_with_fuel(crate::text::digits_val, 5);
                reveal_strlit("PC");
                reveal_strlit("SR");
                reveal_strlit("IP1");
                reveal_strlit("IP2");
                reveal_strlit("IA1");
                reveal_strlit("IA2");
                reveal_strlit("TMRCNT");
                reveal_strlit("TMRCTL");
                reveal_strlit("TMRINIT");
                reveal_strlit("BITCYC");
                reveal_strlit("PDIR");
                reveal_strlit("PIO");
                reveal_strlit("BITCFG");
                reveal_strlit("SYSCFG");
                reveal_strlit("CTLRD");
                reveal_strlit("CTLWR");
                reveal_strlit("DEXCH");
                reveal_strlit("ERR");
                reveal_strlit("D0");
                assert(upper_seq("D0"@) =~= "D0"@);
                assert("D0"@.skip(1) =~= seq!['0']);
                assert(spec_parse_u8_dec(seq!['0']) == Some(0u8));
            };
        },
        SFR::Data1 => {
            assert(spec_sfr_parse(sfr.spec_name()) == Some(sfr)) by {
                reveal_with_fuel(crate::text::digits_val, 5);
                reveal_strlit("PC");
                reveal_strlit("SR");
                reveal_strlit("IP1");
                reveal_strlit("IP2");
                reveal_strlit("IA1");
                reveal_strlit("IA2");
                reveal_strlit("TMRCNT");
                reveal_strlit("TMRCTL");
                reveal_strlit("TMRINIT");
                reveal_strlit("BITCYC");
                reveal_strlit("PDIR");
                reveal_strlit("PIO");
                reveal_strlit("BITCFG");
                reveal_strlit("SYSCFG");
                reveal_strlit("CTLRD");
                reveal_strlit("CTLWR");
                reveal_strlit("DEXCH");
                reveal_strlit("ERR");
                reveal_strlit("D1");
                assert(upper_seq("D1"@) =~= "D1"@);
                assert("D1"@.skip(1) =~= seq!['1']);
                assert(spec_parse_u8_dec(seq!['1']) == Some(1u8));
            };
        },
        SFR::Data2 => {
            assert(spec_sfr_parse(sfr.spec_name()) == Some(sfr)) by {
                reveal_with_fuel(crate::text::digits_val, 5);
                reveal_strlit("PC");
                reveal_strlit("SR");
                reveal_strlit("IP1");
                reveal_strlit("IP2");
                reveal_strlit("IA1");
                reveal_strlit("IA2");
                reveal_strlit("TMRCNT");
                reveal_strlit("TMRCTL");
                reveal_strlit("TMRINIT");
                reveal_strlit("BITCYC");
                reveal_strlit("PDIR");
                reveal_strlit("PIO");
                reveal_strlit("BITCFG");
                reveal_strlit("SYSCFG");
                reveal_strlit("CTLRD");
                reveal_strlit("CTLWR");
                reveal_strlit("DEXCH");
                reveal_strlit("ERR");
                reveal_strlit("D2");
                assert(upper_seq("D2"@) =~= "D2"@);
                assert("D2"@.skip(1) =~= seq!['2']);
                assert(spec_parse_u8_dec(seq!['2']) == Some(2u8));
            };
        },
        SFR::Data3 => {
            assert(spec_sfr_parse(sfr.spec_name()) == Some(sfr)) by {
                reveal_with_fuel(crate::text::digits_val, 5);
                reveal_strlit("PC");
                reveal_strlit("SR");
                reveal_strlit("IP1");
                reveal_strlit("IP2");
                reveal_strlit("IA1");
                reveal_strlit("IA2");
                reveal_strlit("TMRCNT");
                reveal_strlit("TMRCTL");
                reveal_strlit("TMRINIT");
                reveal_strlit("BITCYC");
                reveal_strlit("PDIR");
                reveal_strlit("PIO");
                reveal_strlit("BITCFG");
                reveal_strlit("SYSCFG");
                reveal_strlit("CTLRD");
                reveal_strlit("CTLWR");
                reveal_strlit("DEXCH");
                reveal_strlit("ERR");
                reveal_strlit("D3");
                assert(upper_seq("D3"@) =~= "D3"@);
                assert("D3"@.skip(1) =~= seq!['3']);
                assert(spec_parse_u8_dec(seq!['3']) == Some(3u8));
            };
        },
        SFR::Data4 => {
            assert(spec_sfr_parse(sfr.spec_name()) == Some(sfr)) by {
                reveal_with_fuel(crate::text::digits_val, 5);
                reveal_strlit("PC");
                reveal_strlit("SR");
                reveal_strlit("IP1");
                reveal_strlit("IP2");
                reveal_strlit("IA1");
                reveal_strlit("IA2");
                reveal_strlit("TMRCNT");
                reveal_strlit("TMRCTL");
                reveal_strlit("TMRINIT");
                reveal_strlit("BITCYC");
                reveal_strlit("PDIR");
                reveal_strlit("PIO");
                reveal_strlit("BITCFG");
                reveal_strlit("SYSCFG");
                reveal_strlit("CTLRD");
                reveal_strlit("CTLWR");
                reveal_strlit("DEXCH");
                reveal_strlit("ERR");
                reveal_strlit("D4");
                assert(upper_seq("D4"@) =~= "D4"@);
                assert("D4"@.skip(1) =~= seq!['4']);
                assert(spec_parse_u8_dec(seq!['4']) == Some(4u8));
            };
        },
        SFR::Data5 => {
            assert(spec_sfr_parse(sfr.spec_name()) == Some(sfr)) by {
                reveal_with_fuel(crate::text::digits_val, 5);
                reveal_strlit("PC");
                reveal_strlit("SR");
                reveal_strlit("IP1");
                reveal_strlit("IP2");
                reveal_strlit("IA1");
                reveal_strlit("IA2");
                reveal_strlit("TMRCNT");
                reveal_strlit("TMRCTL");
                reveal_strlit("TMRINIT");
                reveal_strlit("BITCYC");
                reveal_strlit("PDIR");
                reveal_strlit("PIO");
                reveal_strlit("BITCFG");
                reveal_strlit("SYSCFG");
                reveal_strlit("CTLRD");
                reveal_strlit("CTLWR");
                reveal_strlit("DEXCH");
                reveal_strlit("ERR");
                reveal_strlit("D5");
                assert(upper_seq("D5"@) =~= "D5"@);
                assert("D5"@.skip(1) =~= seq!['5']);
                assert(spec_parse_u8_dec(seq!['5']) == Some(5u8));
            };
        },
        SFR::Data6 => {
            assert(spec_sfr_parse(sfr.spec_name()) == Some(sfr)) by {
                reveal_with_fuel(crate::text::digits_val, 5);
                reveal_strlit("PC");
                reveal_strlit("SR");
                reveal_strlit("IP1");
                reveal_strlit("IP2");
                reveal_strlit("IA1");
                reveal_strlit("IA2");
                reveal_strlit("TMRCNT");
                reveal_strlit("TMRCTL");
                reveal_strlit("TMRINIT");
                reveal_strlit("BITCYC");
                reveal_strlit("PDIR");
                reveal_strlit("PIO");
                reveal_strlit("BITCFG");
                reveal_strlit("SYSCFG");
                reveal_strlit("CTLRD");
                reveal_strlit("CTLWR");
                reveal_strlit("DEXCH");
                reveal_strlit("ERR");
                reveal_strlit("D6");
                assert(upper_seq("D6"@) =~= "D6"@);
                assert("D6"@.skip(1) =~= seq!['6']);
                assert(spec_parse_u8_dec(seq!['6']) == Some(6u8));
            };
        },
        SFR::Data7 => {
            assert(spec_sfr_parse(sfr.spec_name()) == Some(sfr)) by {
                reveal_with_fuel(crate::text::digits_val, 5);
                reveal_strlit("PC");
                reveal_strlit("SR");
                reveal_strlit("IP1");
                reveal_strlit("IP2");
                reveal_strlit("IA1");
                reveal_strlit("IA2");
                reveal_strlit("TMRCNT");
                reveal_strlit("TMRCTL");
                reveal_strlit("TMRINIT");
                reveal_strlit("BITCYC");
                reveal_strlit("PDIR");
                reveal_strlit("PIO");
                reveal_strlit("BITCFG");
                reveal_strlit("SYSCFG");
                reveal_strlit("CTLRD");
                reveal_strlit("CTLWR");
                reveal_strlit("DEXCH");
                reveal_strlit("ERR");
                reveal_strlit("D7");
                assert(upper_seq("D7"@) =~= "D7"@);
                assert("D7"@.skip(1) =~= seq!['7']);
                assert(spec_parse_u8_dec(seq!['7']) == Some(7u8));
            };
        },
        SFR::Data8 => {
            assert(spec_sfr_parse(sfr.spec_name()) == Some(sfr)) by {
                reveal_with_fuel(crate::text::digits_val, 5);
                reveal_strlit("PC");
                reveal_strlit("SR");
                reveal_strlit("IP1");
                reveal_strlit("IP2");
                reveal_strlit("IA1");
                reveal_strlit("IA2");
                reveal_strlit("TMRCNT");
                reveal_strlit("TMRCTL");
                reveal_strlit("TMRINIT");
                reveal_strlit("BITCYC");
                reveal_strlit("PDIR");
                reveal_strlit("PIO");
                reveal_strlit("BITCFG");
                reveal_strlit("SYSCFG");
                reveal_strlit("CTLRD");
                reveal_strlit("CTLWR");
                reveal_strlit("DEXCH");
                reveal_strlit("ERR");
                reveal_strlit("D8");
                assert(upper_seq("D8"@) =~= "D8"@);
                assert("D8"@.skip(1) =~= seq!['8']);
                assert(spec_parse_u8_dec(seq!['8']) == Some(8u8));
            };
        },
        SFR::Data9 => {
            assert(spec_sfr_parse(sfr.spec_name()) == Some(sfr)) by {
                reveal_with_fuel(crate::text::digits_val, 5);
                reveal_strlit("PC");
                reveal_strlit("SR");
                reveal_strlit("IP1");
                reveal_strlit("IP2");
                reveal_strlit("IA1");
                reveal_strlit("IA2");
                reveal_strlit("TMRCNT");
                reveal_strlit("TMRCTL");
                reveal_strlit("TMRINIT");
                reveal_strlit("BITCYC");
                reveal_strlit("PDIR");
                reveal_strlit("PIO");
                reveal_strlit("BITCFG");
                reveal_strlit("SYSCFG");
                reveal_strlit("CTLRD");
                reveal_strlit("CTLWR");
                reveal_strlit("DEXCH");
                reveal_strlit("ERR");
                reveal_strlit("D9");
                assert(upper_seq("D9"@) =~= "D9"@);
                assert("D9"@.skip(1) =~= seq!['9']);
                assert(spec_parse_u8_dec(seq!['9']) == Some(9u8));
            };
        },
        SFR::Data10 => {
            assert(spec_sfr_parse(sfr.spec_name()) == Some(sfr)) by {
                reveal_with_fuel(crate::text::digits_val, 5);
                reveal_strlit("PC");
                reveal_strlit("SR");
                reveal_strlit("IP1");
                reveal_strlit("IP2");
                reveal_strlit("IA1");
                reveal_strlit("IA2");
                reveal_strlit("TMRCNT");
                reveal_strlit("TMRCTL");
                reveal_strlit("TMRINIT");
                reveal_strlit("BITCYC");
                reveal_strlit("PDIR");
                reveal_strlit("PIO");
                reveal_strlit("BITCFG");
                reveal_strlit("SYSCFG");
                reveal_strlit("CTLRD");
                reveal_strlit("CTLWR");
                reveal_strlit("DEXCH");
                reveal_strlit("ERR");
                reveal_strlit("D10");
                assert(upper_seq("D10"@) =~= "D10"@);
                assert("D10"@.skip(1) =~= seq!['1', '0']);
                assert(spec_parse_u8_dec(seq!['1', '0']) == Some(10u8));
            };
        },
        SFR::Data11 => {
            assert(spec_sfr_parse(sfr.spec_name()) == Some(sfr)) by {
                reveal_with_fuel(crate::text::digits_val, 5);
                reveal_strlit("PC");
                reveal_strlit("SR");
                reveal_strlit("IP1");
                reveal_strlit("IP2");
                reveal_strlit("IA1");
                reveal_strlit("IA2");
                reveal_strlit("TMRCNT");
                reveal_strlit("TMRCTL");
                reveal_strlit("TMRINIT");
                reveal_strlit("BITCYC");
                reveal_strlit("PDIR");
                reveal_strlit("PIO");
                reveal_strlit("BITCFG");
                reveal_strlit("SYSCFG");
                reveal_strlit("CTLRD");
                reveal_strlit("CTLWR");
                reveal_strlit("DEXCH");
                reveal_strlit("ERR");
                reveal_strlit("D11");
                assert(upper_seq("D11"@) =~= "D11"@);
                assert("D11"@.skip(1) =~= seq!['1', '1']);
                assert(spec_parse_u8_dec(seq!['1', '1']) == Some(11u8));
            };
        },
        SFR::Data12 => {
            assert(spec_sfr_parse(sfr.spec_name()) == Some(sfr)) by {
                reveal_with_fuel(crate::text::digits_val, 5);
                reveal_strlit("PC");
                reveal_strlit("SR");
                reveal_strlit("IP1");
                reveal_strlit("IP2");
                reveal_strlit("IA1");
                reveal_strlit("IA2");
                reveal_strlit("TMRCNT");
                reveal_strlit("TMRCTL");
                reveal_strlit("TMRINIT");
                reveal_strlit("BITCYC");
                reveal_strlit("PDIR");
                reveal_strlit("PIO");
                reveal_strlit("BITCFG");
                reveal_strlit("SYSCFG");
                reveal_strlit("CTLRD");
                reveal_strlit("CTLWR");
                reveal_strlit("DEXCH");
                reveal_strlit("ERR");
                reveal_strlit("D12");
                assert(upper_seq("D12"@) =~= "D12"@);
                assert("D12"@.skip(1) =~= seq!['1', '2']);
                assert(spec_parse_u8_dec(seq!['1', '2']) == Some(12u8));
            };
        },
        SFR::Data13 => {
            assert(spec_sfr_parse(sfr.spec_name()) == Some(sfr)) by {
                reveal_with_fuel(crate::text::digits_val, 5);
                reveal_strlit("PC");
                reveal_strlit("SR");
                reveal_strlit("IP1");
                reveal_strlit("IP2");
                reveal_strlit("IA1");
                reveal_strlit("IA2");
                reveal_strlit("TMRCNT");
                reveal_strlit("TMRCTL");
                reveal_strlit("TMRINIT");
                reveal_strlit("BITCYC");
                reveal_strlit("PDIR");
                reveal_strlit("PIO");
                reveal_strlit("BITCFG");
                reveal_strlit("SYSCFG");
                reveal_strlit("CTLRD");
                reveal_strlit("CTLWR");
                reveal_strlit("DEXCH");
                reveal_strlit("ERR");
                reveal_strlit("D13");
                assert(upper_seq("D13"@) =~= "D13"@);
                assert("D13"@.skip(1) =~= seq!['1', '3']);
                assert(spec_parse_u8_dec(seq!['1', '3']) == Some(13u8));
            };
        },
        SFR::Data14 => {
            assert(spec_sfr_parse(sfr.spec_name()) == Some(sfr)) by {
                reveal_with_fuel(crate::text::digits_val, 5);
                reveal_strlit("PC");
                reveal_strlit("SR");
                reveal_strlit("IP1");
                reveal_strlit("IP2");
                reveal_strlit("IA1");
                reveal_strlit("IA2");
                reveal_strlit("TMRCNT");
                reveal_strlit("TMRCTL");
                reveal_strlit("TMRINIT");
                reveal_strlit("BITCYC");
                reveal_strlit("PDIR");
                reveal_strlit("PIO");
                reveal_strlit("BITCFG");
                reveal_strlit("SYSCFG");
                reveal_strlit("CTLRD");
                reveal_strlit("CTLWR");
                reveal_strlit("DEXCH");
                reveal_strlit("ERR");
                reveal_strlit("D14");
                assert(upper_seq("D14"@) =~= "D14"@);
                assert("D14"@.skip(1) =~= seq!['1', '4']);
                assert(spec_parse_u8_dec(seq!['1', '4']) == Some(14u8));
            };
        },
        SFR::Data15 => {
            assert(spec_sfr_parse(sfr.spec_name()) == Some(sfr)) by {
                reveal_with_fuel(crate::text::digits_val, 5);
                reveal_strlit("PC");
                reveal_strlit("SR");
                reveal_strlit("IP1");
                reveal_strlit("IP2");
                reveal_strlit("IA1");
                reveal_strlit("IA2");
                reveal_strlit("TMRCNT");
                reveal_strlit("TMRCTL");
                reveal_strlit("TMRINIT");
                reveal_strlit("BITCYC");
                reveal_strlit("PDIR");
                reveal_strlit("PIO");
                reveal_strlit("BITCFG");
                reveal_strlit("SYSCFG");
                reveal_strlit("CTLRD");
                reveal_strlit("CTLWR");
                reveal_strlit("DEXCH");
                reveal_strlit("ERR");
                reveal_strlit("D15");
                assert(upper_seq("D15"@) =~= "D15"@);
                assert("D15"@.skip(1) =~= seq!['1', '5']);
                assert(spec_parse_u8_dec(seq!['1', '5']) == Some(15u8));
            };
        },
        SFR::Data16 => {
            assert(spec_sfr_parse(sfr.spec_name()) == Some(sfr)) by {
                reveal_with_fuel(crate::text::digits_val, 5);
                reveal_strlit("PC");
                reveal_strlit("SR");
                reveal_strlit("IP1");
                reveal_strlit("IP2");
                reveal_strlit("IA1");
                reveal_strlit("IA2");
                reveal_strlit("TMRCNT");
                reveal_strlit("TMRCTL");
                reveal_strlit("TMRINIT");
                reveal_strlit("BITCYC");
                reveal_strlit("PDIR");
                reveal_strlit("PIO");
                reveal_strlit("BITCFG");
                reveal_strlit("SYSCFG");
                reveal_strlit("CTLRD");
                reveal_strlit("CTLWR");
                reveal_strlit("DEXCH");
                reveal_strlit("ERR");
                reveal_strlit("D16");
                assert(upper_seq("D16"@) =~= "D16"@);
                assert("D16"@.skip(1) =~= seq!['1', '6']);
                assert(spec_parse_u8_dec(seq!['1', '6']) == Some(16u8));
            };
        },
        SFR::Data17 => {
            assert(spec_sfr_parse(sfr.spec_name()) == Some(sfr)) by {
                reveal_with_fuel(crate::text::digits_val, 5);
                reveal_strlit("PC");
                reveal_strlit("SR");
                reveal_strlit("IP1");
                reveal_strlit("IP2");
                reveal_strlit("IA1");
                reveal_strlit("IA2");
                reveal_strlit("TMRCNT");
                reveal_strlit("TMRCTL");
                reveal_strlit("TMRINIT");
                reveal_strlit("BITCYC");
                reveal_strlit("PDIR");
                reveal_strlit("PIO");
                reveal_strlit("BITCFG");
                reveal_strlit("SYSCFG");
                reveal_strlit("CTLRD");
                reveal_strlit("CTLWR");
                reveal_strlit("DEXCH");
                reveal_strlit("ERR");
                reveal_strlit("D17");
                assert(upper_seq("D17"@) =~= "D17"@);
                assert("D17"@.skip(1) =~= seq!['1', '7']);
                assert(spec_parse_u8_dec(seq!['1', '7']) == Some(17u8));
            };
        },
        SFR::Data18 => {
            assert(spec_sfr_parse(sfr.spec_name()) == Some(sfr)) by {
                reveal_with_fuel(crate::text::digits_val, 5);
                reveal_strlit("PC");
                reveal_strlit("SR");
                reveal_strlit("IP1");
                reveal_strlit("IP2");
                reveal_strlit("IA1");
                reveal_strlit("IA2");
                reveal_strlit("TMRCNT");
                reveal_strlit("TMRCTL");
                reveal_strlit("TMRINIT");
                reveal_strlit("BITCYC");
                reveal_strlit("PDIR");
                reveal_strlit("PIO");
                reveal_strlit("BITCFG");
                reveal_strlit("SYSCFG");
                reveal_strlit("CTLRD");
                reveal_strlit("CTLWR");
                reveal_strlit("DEXCH");
                reveal_strlit("ERR");
                reveal_strlit("D18");
                assert(upper_seq("D18"@) =~= "D18"@);
                assert("D18"@.skip(1) =~= seq!['1', '8']);
                assert(spec_parse_u8_dec(seq!['1', '8']) == Some(18u8));
            };
        },
        SFR::Data19 => {
            assert(spec_sfr_parse(sfr.spec_name()) == Some(sfr)) by {
                reveal_with_fuel(crate::text::digits_val, 5);
                reveal_strlit("PC");
                reveal_strlit("SR");
                reveal_strlit("IP1");
                reveal_strlit("IP2");
                reveal_strlit("IA1");
                reveal_strlit("IA2");
                reveal_strlit("TMRCNT");
                reveal_strlit("TMRCTL");
                reveal_strlit("TMRINIT");
                reveal_strlit("BITCYC");
                reveal_strlit("PDIR");
                reveal_strlit("PIO");
                reveal_strlit("BITCFG");
                reveal_strlit("SYSCFG");
                reveal_strlit("CTLRD");
                reveal_strlit("CTLWR");
                reveal_strlit("DEXCH");
                reveal_strlit("ERR");
                reveal_strlit("D19");
                assert(upper_seq("D19"@) =~= "D19"@);
                assert("D19"@.skip(1) =~= seq!['1', '9']);
                assert(spec_parse_u8_dec(seq!['1', '9']) == Some(19u8));
            };
        },
        SFR::Data20 => {
            assert(spec_sfr_parse(sfr.spec_name()) == Some(sfr)) by {
                reveal_with_fuel(crate::text::digits_val, 5);
                reveal_strlit("PC");
                reveal_strlit("SR");
                reveal_strlit("IP1");
                reveal_strlit("IP2");
                reveal_strlit("IA1");
                reveal_strlit("IA2");
                reveal_strlit("TMRCNT");
                reveal_strlit("TMRCTL");
                reveal_strlit("TMRINIT");
                reveal_strlit("BITCYC");
                reveal_strlit("PDIR");
                reveal_strlit("PIO");
                reveal_strlit("BITCFG");
                reveal_strlit("SYSCFG");
                reveal_strlit("CTLRD");
                reveal_strlit("CTLWR");
                reveal_strlit("DEXCH");
                reveal_strlit("ERR");
                reveal_strlit("D20");
                assert(upper_seq("D20"@) =~= "D20"@);
                assert("D20"@.skip(1) =~= seq!['2', '0']);
                assert(spec_parse_u8_dec(seq!['2', '0']) == Some(20u8));
            };
        },
        SFR::Data21 => {
            assert(spec_sfr_parse(sfr.spec_name()) == Some(sfr)) by {
                reveal_with_fuel(crate::text::digits_val, 5);
                reveal_strlit("PC");
                reveal_strlit("SR");
                reveal_strlit("IP1");
                reveal_strlit("IP2");
                reveal_strlit("IA1");
                reveal_strlit("IA2");
                reveal_strlit("TMRCNT");
                reveal_strlit("TMRCTL");
                reveal_strlit("TMRINIT");
                reveal_strlit("BITCYC");
                reveal_strlit("PDIR");
                reveal_strlit("PIO");
                reveal_strlit("BITCFG");
                reveal_strlit("SYSCFG");
                reveal_strlit("CTLRD");
                reveal_strlit("CTLWR");
                reveal_strlit("DEXCH");
                reveal_strlit("ERR");
                reveal_strlit("D21");
                assert(upper_seq("D21"@) =~= "D21"@);
                assert("D21"@.skip(1) =~= seq!['2', '1']);
                assert(spec_parse_u8_dec(seq!['2', '1']) == Some(21u8));
            };
        },
        SFR::Data22 => {
            assert(spec_sfr_parse(sfr.spec_name()) == Some(sfr)) by {
                reveal_with_fuel(crate::text::digits_val, 5);
                reveal_strlit("PC");
                reveal_strlit("SR");
                reveal_strlit("IP1");
                reveal_strlit("IP2");
                reveal_strlit("IA1");
                reveal_strlit("IA2");
                reveal_strlit("TMRCNT");
                reveal_strlit("TMRCTL");
                reveal_strlit("TMRINIT");
                reveal_strlit("BITCYC");
                reveal_strlit("PDIR");
                reveal_strlit("PIO");
                reveal_strlit("BITCFG");
                reveal_strlit("SYSCFG");
                reveal_strlit("CTLRD");
                reveal_strlit("CTLWR");
                reveal_strlit("DEXCH");
                reveal_strlit("ERR");
                reveal_strlit("D22");
                assert(upper_seq("D22"@) =~= "D22"@);
                assert("D22"@.skip(1) =~= seq!['2', '2']);
                assert(spec_parse_u8_dec(seq!['2', '2']) == Some(22u8));
            };
        },
        SFR::Data23 => {
            assert(spec_sfr_parse(sfr.spec_name()) == Some(sfr)) by {
                reveal_with_fuel(crate::text::digits_val, 5);
                reveal_strlit("PC");
                reveal_strlit("SR");
                reveal_strlit("IP1");
                reveal_strlit("IP2");
                reveal_strlit("IA1");
                reveal_strlit("IA2");
                reveal_strlit("TMRCNT");
                reveal_strlit("TMRCTL");
                reveal_strlit("TMRINIT");
                reveal_strlit("BITCYC");
                reveal_strlit("PDIR");
                reveal_strlit("PIO");
                reveal_strlit("BITCFG");
                reveal_strlit("SYSCFG");
                reveal_strlit("CTLRD");
                reveal_strlit("CTLWR");
                reveal_strlit("DEXCH");
                reveal_strlit("ERR");
                reveal_strlit("D23");
                assert(upper_seq("D23"@) =~= "D23"@);
                assert("D23"@.skip(1) =~= seq!['2', '3']);
                assert(spec_parse_u8_dec(seq!['2', '3']) == Some(23u8));
            };
        },
        SFR::Data24 => {
            assert(spec_sfr_parse(sfr.spec_name()) == Some(sfr)) by {
                reveal_with_fuel(crate::text::digits_val, 5);
                reveal_strlit("PC");
                reveal_strlit("SR");
                reveal_strlit("IP1");
                reveal_strlit("IP2");
                reveal_strlit("IA1");
                reveal_strlit("IA2");
                reveal_strlit("TMRCNT");
                reveal_strlit("TMRCTL");
                reveal_strlit("TMRINIT");
                reveal_strlit("BITCYC");
                reveal_strlit("PDIR");
                reveal_strlit("PIO");
                reveal_strlit("BITCFG");
                reveal_strlit("SYSCFG");
                reveal_strlit("CTLRD");
                reveal_strlit("CTLWR");
                reveal_strlit("DEXCH");
                reveal_strlit("ERR");
                reveal_strlit("D24");
                assert(upper_seq("D24"@) =~= "D24"@);
                assert("D24"@.skip(1) =~= seq!['2', '4']);
                assert(spec_parse_u8_dec(seq!['2', '4']) == Some(24u8));
            };
        },
        SFR::Data25 => {
            assert(spec_sfr_parse(sfr.spec_name()) == Some(sfr)) by {
                reveal_with_fuel(crate::text::digits_val, 5);
                reveal_strlit("PC");
                reveal_strlit("SR");
                reveal_strlit("IP1");
                reveal_strlit("IP2");
                reveal_strlit("IA1");
                reveal_strlit("IA2");
                reveal_strlit("TMRCNT");
                reveal_strlit("TMRCTL");
                reveal_strlit("TMRINIT");
                reveal_strlit("BITCYC");
                reveal_strlit("PDIR");
                reveal_strlit("PIO");
                reveal_strlit("BITCFG");
                reveal_strlit("SYSCFG");
                reveal_strlit("CTLRD");
                reveal_strlit("CTLWR");
                reveal_strlit("DEXCH");
                reveal_strlit("ERR");
                reveal_strlit("D25");
                assert(upper_seq("D25"@) =~= "D25"@);
                assert("D25"@.skip(1) =~= seq!['2', '5']);
                assert(spec_parse_u8_dec(seq!['2', '5']) == Some(25u8));
            };
        },
        SFR::Data26 => {
            assert(spec_sfr_parse(sfr.spec_name()) == Some(sfr)) by {
                reveal_with_fuel(crate::text::digits_val, 5);
                reveal_strlit("PC");
                reveal_strlit("SR");
                reveal_strlit("IP1");
                reveal_strlit("IP2");
                reveal_strlit("IA1");
                reveal_strlit("IA2");
                reveal_strlit("TMRCNT");
                reveal_strlit("TMRCTL");
                reveal_strlit("TMRINIT");
                reveal_strlit("BITCYC");
                reveal_strlit("PDIR");
                reveal_strlit("PIO");
                reveal_strlit("BITCFG");
                reveal_strlit("SYSCFG");
                reveal_strlit("CTLRD");
                reveal_strlit("CTLWR");
                reveal_strlit("DEXCH");
                reveal_strlit("ERR");
                reveal_strlit("D26");
                assert(upper_seq("D26"@) =~= "D26"@);
                assert("D26"@.skip(1) =~= seq!['2', '6']);
                assert(spec_parse_u8_dec(seq!['2', '6']) == Some(26u8));
            };
        },
        SFR::Data27 => {
            assert(spec_sfr_parse(sfr.spec_name()) == Some(sfr)) by {
                reveal_with_fuel(crate::text::digits_val, 5);
                reveal_strlit("PC");
                reveal_strlit("SR");
                reveal_strlit("IP1");
                reveal_strlit("IP2");
                reveal_strlit("IA1");
                reveal_strlit("IA2");
                reveal_strlit("TMRCNT");
                reveal_strlit("TMRCTL");
                reveal_strlit("TMRINIT");
                reveal_strlit("BITCYC");
                reveal_strlit("PDIR");
                reveal_strlit("PIO");
                reveal_strlit("BITCFG");
                reveal_strlit("SYSCFG");
                reveal_strlit("CTLRD");
                reveal_strlit("CTLWR");
                reveal_strlit("DEXCH");
                reveal_strlit("ERR");
                reveal_strlit("D27");
                assert(upper_seq("D27"@) =~= "D27"@);
                assert("D27"@.skip(1) =~= seq!['2', '7']);
                assert(spec_parse_u8_dec(seq!['2', '7']) == Some(27u8));
            };
        },
        SFR::Data28 => {
            assert(spec_sfr_parse(sfr.spec_name()) == Some(sfr)) by {
                reveal_with_fuel(crate::text::digits_val, 5);
                reveal_strlit("PC");
                reveal_strlit("SR");
                reveal_strlit("IP1");
                reveal_strlit("IP2");
                reveal_strlit("IA1");
                reveal_strlit("IA2");
                reveal_strlit("TMRCNT");
                reveal_strlit("TMRCTL");
                reveal_strlit("TMRINIT");
                reveal_strlit("BITCYC");
                reveal_strlit("PDIR");
                reveal_strlit("PIO");
                reveal_strlit("BITCFG");
                reveal_strlit("SYSCFG");
                reveal_strlit("CTLRD");
                reveal_strlit("CTLWR");
                reveal_strlit("DEXCH");
                reveal_strlit("ERR");
                reveal_strlit("D28");
                assert(upper_seq("D28"@) =~= "D28"@);
                assert("D28"@.skip(1) =~= seq!['2', '8']);
                assert(spec_parse_u8_dec(seq!['2', '8']) == Some(28u8));
            };
        },
        SFR::Data29 => {
            assert(spec_sfr_parse(sfr.spec_name()) == Some(sfr)) by {
                reveal_with_fuel(crate::text::digits_val, 5);
                reveal_strlit("PC");
                reveal_strlit("SR");
                reveal_strlit("IP1");
                reveal_strlit("IP2");
                reveal_strlit("IA1");
                reveal_strlit("IA2");
                reveal_strlit("TMRCNT");
                reveal_strlit("TMRCTL");
                reveal_strlit("TMRINIT");
                reveal_strlit("BITCYC");
                reveal_strlit("PDIR");
                reveal_strlit("PIO");
                reveal_strlit("BITCFG");
                reveal_strlit("SYSCFG");
                reveal_strlit("CTLRD");
                reveal_strlit("CTLWR");
                reveal_strlit("DEXCH");
                reveal_strlit("ERR");
                reveal_strlit("D29");
                assert(upper_seq("D29"@) =~= "D29"@);
                assert("D29"@.skip(1) =~= seq!['2', '9']);
                assert(spec_parse_u8_dec(seq!['2', '9']) == Some(29u8));
            };
        },
        SFR::Data30 => {
            assert(spec_sfr_parse(sfr.spec_name()) == Some(sfr)) by {
                reveal_with_fuel(crate::text::digits_val, 5);
                reveal_strlit("PC");
                reveal_strlit("SR");
                reveal_strlit("IP1");
                reveal_strlit("IP2");
                reveal_strlit("IA1");
                reveal_strlit("IA2");
                reveal_strlit("TMRCNT");
                reveal_strlit("TMRCTL");
                reveal_strlit("TMRINIT");
                reveal_strlit("BITCYC");
                reveal_strlit("PDIR");
                reveal_strlit("PIO");
                reveal_strlit("BITCFG");
                reveal_strlit("SYSCFG");
                reveal_strlit("CTLRD");
                reveal_strlit("CTLWR");
                reveal_strlit("DEXCH");
                reveal_strlit("ERR");
                reveal_strlit("D30");
                assert(upper_seq("D30"@) =~= "D30"@);
                assert("D30"@.skip(1) =~= seq!['3', '0']);
                assert(spec_parse_u8_dec(seq!['3', '0']) == Some(30u8));
            };
        },
        SFR::Data31 => {
            assert(spec_sfr_parse(sfr.spec_name()) == Some(sfr)) by {
                reveal_with_fuel(crate::text::digits_val, 5);
                reveal_strlit("PC");
                reveal_strlit("SR");
                reveal_strlit("IP1");
                reveal_strlit("IP2");
                reveal_strlit("IA1");
                reveal_strlit("IA2");
                reveal_strlit("TMRCNT");
                reveal_strlit("TMRCTL");
                reveal_strlit("TMRINIT");
                reveal_strlit("BITCYC");
                reveal_strlit("PDIR");
                reveal_strlit("PIO");
                reveal_strlit("BITCFG");
                reveal_strlit("SYSCFG");
                reveal_strlit("CTLRD");
                reveal_strlit("CTLWR");
                reveal_strlit("DEXCH");
                reveal_strlit("ERR");
                reveal_strlit("D31");
                assert(upper_seq("D31"@) =~= "D31"@);
                assert("D31"@.skip(1) =~= seq!['3', '1']);
                assert(spec_parse_u8_dec(seq!['3', '1']) == Some(31u8));
            };
        },
    }
}

} // verus!

