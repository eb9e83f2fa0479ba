use pioc::regs::SFR;
use pioc::types::{Label, Reg};
use pioc::bits::{U12, U9};

#[test]
fn resolve_is_total() {
    for code in 0u8..=0xFF {
        let sfr = SFR::from_u8(code);
        if code > 0x3F || (0x0D..=0x1B).contains(&code) {
            // Above the register space, and in the unpopulated gap of it,
            // resolution yields the sentinel rather than failing.
            assert_eq!(sfr, SFR::Error);
        } else {
            assert_ne!(sfr, SFR::Error);
        }
    }
}

#[test]
fn resolve_fixed_addresses() {
    assert_eq!(SFR::from_u8(0x00), SFR::IndirPort1);
    assert_eq!(SFR::from_u8(0x01), SFR::IndirPort2);
    assert_eq!(SFR::from_u8(0x02), SFR::ProgramCounter);
    assert_eq!(SFR::from_u8(0x03), SFR::Status);
    assert_eq!(SFR::from_u8(0x04), SFR::IndirAddr1);
    assert_eq!(SFR::from_u8(0x09), SFR::IndirAddr2);
    assert_eq!(SFR::from_u8(0x1C), SFR::SysConf);
    assert_eq!(SFR::from_u8(0x1F), SFR::DataExch);
    assert_eq!(SFR::from_u8(0x20), SFR::Data0);
    assert_eq!(SFR::from_u8(0x3F), SFR::Data31);
    // The gap 0x0D..=0x1B carries no register and resolves to the sentinel.
    for code in 0x0Du8..=0x1B {
        assert_eq!(SFR::from_u8(code), SFR::Error);
    }
}

#[test]
fn data_register_names_follow_the_address() {
    for i in 0u8..32 {
        let sfr = SFR::from_u8(0x20 + i);
        assert_eq!(sfr.to_name(), format!("D{}", i));
        assert_eq!(sfr.to_wch_risc8b_name(), format!("SFR_DATA_REG{}", i));
    }
}

#[test]
fn short_names_of_named_registers() {
    assert_eq!(SFR::ProgramCounter.to_name(), "PC");
    assert_eq!(SFR::Status.to_name(), "SR");
    assert_eq!(SFR::IndirPort1.to_name(), "IP1");
    assert_eq!(SFR::IndirPort2.to_name(), "IP2");
    assert_eq!(SFR::IndirAddr1.to_name(), "IA1");
    assert_eq!(SFR::IndirAddr2.to_name(), "IA2");
    assert_eq!(SFR::TimerCount.to_name(), "TMRCNT");
    assert_eq!(SFR::TimerCtrl.to_name(), "TMRCTL");
    assert_eq!(SFR::TimerInit.to_name(), "TMRINIT");
    assert_eq!(SFR::BitCycle.to_name(), "BITCYC");
    assert_eq!(SFR::PortDir.to_name(), "PDIR");
    assert_eq!(SFR::PortIO.to_name(), "PIO");
    assert_eq!(SFR::BitConfig.to_name(), "BITCFG");
    assert_eq!(SFR::SysConf.to_name(), "SYSCFG");
    assert_eq!(SFR::CtrlRead.to_name(), "CTLRD");
    assert_eq!(SFR::CtrlWrite.to_name(), "CTLWR");
    assert_eq!(SFR::DataExch.to_name(), "DEXCH");
    assert_eq!(SFR::Error.to_name(), "ERR");
}

#[test]
fn vendor_names_of_named_registers() {
    assert_eq!(SFR::ProgramCounter.to_wch_risc8b_name(), "SFR_PRG_COUNT");
    assert_eq!(SFR::Status.to_wch_risc8b_name(), "SFR_STATUS_REG");
    assert_eq!(SFR::IndirPort1.to_wch_risc8b_name(), "SFR_INDIR_PORT");
    assert_eq!(SFR::IndirPort2.to_wch_risc8b_name(), "SFR_INDIR_PORT2");
    assert_eq!(SFR::IndirAddr1.to_wch_risc8b_name(), "SFR_INDIR_ADDR");
    assert_eq!(SFR::IndirAddr2.to_wch_risc8b_name(), "SFR_INDIR_ADDR2");
    assert_eq!(SFR::TimerCount.to_wch_risc8b_name(), "SFR_TMR0_COUNT");
    assert_eq!(SFR::TimerCtrl.to_wch_risc8b_name(), "SFR_TIMER_CTRL");
    assert_eq!(SFR::TimerInit.to_wch_risc8b_name(), "SFR_TMR0_INIT");
    assert_eq!(SFR::BitCycle.to_wch_risc8b_name(), "SFR_BIT_CYCLE");
    assert_eq!(SFR::PortDir.to_wch_risc8b_name(), "SFR_PORT_DIR");
    assert_eq!(SFR::PortIO.to_wch_risc8b_name(), "SFR_PORT_IO");
    assert_eq!(SFR::BitConfig.to_wch_risc8b_name(), "SFR_BIT_CONFIG");
    assert_eq!(SFR::SysConf.to_wch_risc8b_name(), "SFR_SYS_CFG");
    assert_eq!(SFR::CtrlRead.to_wch_risc8b_name(), "SFR_CTRL_RD");
    assert_eq!(SFR::CtrlWrite.to_wch_risc8b_name(), "SFR_CTRL_WR");
    assert_eq!(SFR::DataExch.to_wch_risc8b_name(), "SFR_DATA_EXCH");
    assert_eq!(SFR::Error.to_wch_risc8b_name(), "!!SFR_ERROR!!");
}

#[test]
fn parse_short_is_left_inverse_of_rendering() {
    for code in 0u8..=0x3F {
        let sfr = SFR::from_u8(code);
        assert_eq!(SFR::parse(sfr.to_name()), Some(sfr));
    }
    assert_eq!(SFR::parse(SFR::Error.to_name()), Some(SFR::Error));
}

#[test]
fn parse_short_is_case_insensitive() {
    assert_eq!(SFR::parse("pc"), Some(SFR::ProgramCounter));
    assert_eq!(SFR::parse("Sr"), Some(SFR::Status));
    assert_eq!(SFR::parse("tmrcnt"), Some(SFR::TimerCount));
    assert_eq!(SFR::parse("dexch"), Some(SFR::DataExch));
    assert_eq!(SFR::parse("d15"), Some(SFR::Data15));
    assert_eq!(SFR::parse("err"), Some(SFR::Error));
}

#[test]
fn parse_short_numeric_suffix_path() {
    assert_eq!(SFR::parse("D0"), Some(SFR::Data0));
    assert_eq!(SFR::parse("D31"), Some(SFR::Data31));
    assert_eq!(SFR::parse("D32"), None);
    assert_eq!(SFR::parse("D255"), None);
    assert_eq!(SFR::parse("D256"), None);
    assert_eq!(SFR::parse("D"), None);
    assert_eq!(SFR::parse("Dx"), None);
    // Faithful to integer parsing: leading zeros and a plus sign pass.
    assert_eq!(SFR::parse("D007"), Some(SFR::Data7));
    assert_eq!(SFR::parse("D+3"), Some(SFR::Data3));
}

#[test]
fn parse_short_rejects_unknown_names() {
    assert_eq!(SFR::parse(""), None);
    assert_eq!(SFR::parse("XYZ"), None);
    assert_eq!(SFR::parse("PC "), None);
}

#[test]
fn register_reference_rendering() {
    assert_eq!(Reg::<u8>(0x02).render(), "$PC");
    assert_eq!(Reg::<u8>(0x20).render(), "$D0");
    assert_eq!(Reg::<u8>(0xAB).render(), "$ERR");
    assert_eq!(Reg::<u8>(0x02).to_sfr(), SFR::ProgramCounter);
}

#[test]
fn extended_register_normalizes_by_truncation() {
    let wide = Reg::<U9>(pioc::bits::U9::new(0x103).unwrap());
    assert_eq!(wide.normalize().0, 0x03);
    assert_eq!(wide.render(), "$SR");
}

#[test]
fn label_rendering_prefixes() {
    assert_eq!(Label::<u8>(5).render(), ".L5");
    assert_eq!(Label::<pioc::bits::U10>(pioc::bits::U10::new(5).unwrap()).render(), ".L5");
    assert_eq!(Label::<U12>(U12::new(5).unwrap()).render(), ".L5");
    assert_eq!(Label::<U12>(U12::new(4095).unwrap()).render(), ".L4095");
}
