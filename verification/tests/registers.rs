//! Register bitfield views: decoding, write-value construction, and
//! write-1-to-clear isolation, on concrete values.

use ahci_driver::generic_host_controller::bohc::BiosOsHandoffControl;
use ahci_driver::generic_host_controller::capabilities::Capabilities;
use ahci_driver::generic_host_controller::ex_capabilities::CapabilitiesExtended;
use ahci_driver::generic_host_controller::global_hba_control::GlobalHbaControl;
use ahci_driver::generic_host_controller::interrupt_status::InterruptStatus as HbaInterruptStatus;
use ahci_driver::generic_host_controller::ports_implemented::PortsImplemented;
use ahci_driver::ports::command::Command;
use ahci_driver::ports::command::IccState;
use ahci_driver::ports::interrupt_enable::InterruptEnable;
use ahci_driver::ports::interrupt_status::InterruptStatus;
use ahci_driver::ports::interrupt_status::INTERRUPT_STATUS_ALL_CLEARABLE;

/// Rebuilds a capabilities register from its decoded fields, as a pure
/// observer would.
fn reencode_capabilities(c: Capabilities) -> u32 {
    let mut v: u32 = 0;
    if c.get_s64a() {
        v |= 1 << 31;
    }
    if c.get_sncq() {
        v |= 1 << 30;
    }
    if c.get_ssntf() {
        v |= 1 << 29;
    }
    if c.get_smps() {
        v |= 1 << 28;
    }
    if c.get_sss() {
        v |= 1 << 27;
    }
    if c.get_salp() {
        v |= 1 << 26;
    }
    if c.get_sal() {
        v |= 1 << 25;
    }
    if c.get_sclo() {
        v |= 1 << 24;
    }
    v |= (c.get_iss().get_raw() as u32) << 20;
    if c.get_sam() {
        v |= 1 << 18;
    }
    if c.get_spm() {
        v |= 1 << 17;
    }
    if c.get_fbss() {
        v |= 1 << 16;
    }
    if c.get_pmd() {
        v |= 1 << 15;
    }
    if c.get_ssc() {
        v |= 1 << 14;
    }
    if c.get_psc() {
        v |= 1 << 13;
    }
    v |= (c.get_ncs() as u32) << 8;
    if c.get_cccs() {
        v |= 1 << 7;
    }
    if c.get_ems() {
        v |= 1 << 6;
    }
    if c.get_sxs() {
        v |= 1 << 5;
    }
    v |= c.get_np() as u32;
    v
}

#[test]
fn capabilities_roundtrip_all_ones() {
    // Every defined bit survives the decode; only the reserved bit 19
    // is dropped.
    let c = Capabilities::from_raw(0xffff_ffff);
    assert_eq!(reencode_capabilities(c), 0xfff7_ffff);
}

#[test]
fn capabilities_roundtrip_mixed() {
    let raw = 0x8830_0401;
    let c = Capabilities::from_raw(raw);
    assert_eq!(reencode_capabilities(c), raw);
    // A value with the reserved bit set loses exactly that bit.
    let c2 = Capabilities::from_raw(raw | (1 << 19));
    assert_eq!(reencode_capabilities(c2), raw);
}

#[test]
fn capabilities_field_decoding() {
    let c = Capabilities::from_raw(0x8830_0401);
    assert!(c.get_s64a());
    assert!(!c.get_sncq());
    assert!(c.get_sss());
    assert_eq!(c.get_iss().get_raw(), 3);
    assert!(!c.get_sam());
    assert_eq!(c.get_ncs(), 4);
    assert_eq!(c.get_np(), 1);
}

#[test]
fn adjusted_counts_exceed_raw_by_one() {
    for raw in [0u32, 1, 7, 0x1f] {
        let c = Capabilities::from_raw(raw << 8 | raw);
        assert_eq!(c.get_ncs_adjusted(), c.get_ncs() + 1);
        assert_eq!(c.get_np_adjusted(), c.get_np() + 1);
        assert!((1..=32).contains(&c.get_ncs_adjusted()));
        assert!((1..=32).contains(&c.get_np_adjusted()));
    }
    assert_eq!(Capabilities::from_raw(0).get_np_adjusted(), 1);
    assert_eq!(Capabilities::from_raw(0x1f00 | 0x1f).get_ncs_adjusted(), 32);
    assert_eq!(Capabilities::from_raw(0x1f00 | 0x1f).get_np_adjusted(), 32);
}

#[test]
fn extended_capabilities_decoding() {
    let c = CapabilitiesExtended::from_raw(0b10_1101);
    assert!(c.get_deso());
    assert!(!c.get_sadm());
    assert!(c.get_sds());
    assert!(c.get_apst());
    assert!(!c.get_nvmp());
    assert!(c.get_boh());
    assert!(!CapabilitiesExtended::from_raw(0).get_boh());
}

#[test]
fn global_control_clear_ae_writes_whole_register_zero() {
    // Clearing AE must write the entire register as zero in that one
    // operation; no other bit may ride along.
    let mut ghc = GlobalHbaControl::from_raw(0x8000_0003);
    ghc.set_ae(false);
    assert_eq!(ghc.get_raw(), 0);
}

#[test]
fn global_control_set_ae_and_ie() {
    let mut ghc = GlobalHbaControl::from_raw(0);
    ghc.set_ae(true);
    assert_eq!(ghc.get_raw(), 0x8000_0000);
    assert!(ghc.get_ae());
    // Enabling interrupts must write 0 to the self-clearing reset
    // strobe, whatever was read.
    let mut ghc2 = GlobalHbaControl::from_raw(0xffff_ffff);
    ghc2.set_ie(true);
    assert_eq!(ghc2.get_raw(), 0xffff_fffe);
    let mut ghc3 = GlobalHbaControl::from_raw(0x8000_0003);
    ghc3.set_ie(false);
    assert_eq!(ghc3.get_raw(), 0x8000_0000);
}

#[test]
fn global_control_reset_strobe() {
    let ghc = GlobalHbaControl::from_raw(0x8000_0002);
    assert_eq!(ghc.with_hr().get_raw(), 0x8000_0003);
    assert!(ghc.with_hr().get_hr());
}

#[test]
fn bohc_semaphores() {
    let bohc = BiosOsHandoffControl::from_raw(0);
    let claimed = bohc.with_oos(true);
    assert_eq!(claimed.get_raw(), 0b10);
    assert!(claimed.get_oos());
    assert!(!claimed.get_bos());
    let b = BiosOsHandoffControl::from_raw(0b1_0001);
    assert!(b.get_bb());
    assert!(b.get_bos());
    assert!(!b.get_ooc());
    let mut cleared = b;
    cleared.set_bb(false);
    assert_eq!(cleared.get_raw(), 0b0001);
}

#[test]
fn hba_interrupt_status_clear_writes_single_port_bit() {
    let mut is = HbaInterruptStatus::from_raw(0xffff_ffff);
    is.clear(5);
    assert_eq!(is.get_raw(), 1 << 5);
    assert!(HbaInterruptStatus::from_raw(0x20).get(5));
    assert!(!HbaInterruptStatus::from_raw(0x20).get(4));
}

#[test]
fn ports_implemented_bits() {
    let pi = PortsImplemented::from_raw(0x05);
    assert!(pi.get(0));
    assert!(!pi.get(1));
    assert!(pi.get(2));
    assert!(!pi.get(31));
}

#[test]
fn w1c_clear_writes_only_own_mask() {
    // Each clear operation produces exactly the acknowledged flag's
    // mask, never a read-modify-written value.
    let mut is = InterruptStatus::from_raw(0xffff_ffff);
    is.clear_tfes();
    assert_eq!(is.get_raw(), 1 << 30);
    let mut is = InterruptStatus::from_raw(0xffff_ffff);
    is.clear_dhrs();
    assert_eq!(is.get_raw(), 1 << 0);
    let mut is = InterruptStatus::from_raw(0xffff_ffff);
    is.clear_ifs();
    assert_eq!(is.get_raw(), 1 << 27);
}

#[test]
fn w1c_isolation_preserves_sibling_flags() {
    // Hardware applies a write-1-to-clear store as status & !written:
    // acknowledging one flag must leave the raw value of every other
    // flag bit unchanged.
    let observed: u32 = 0xfd80_00af;
    let clear_bits = [31u32, 30, 29, 28, 27, 26, 24, 23, 7, 5, 3, 2, 1, 0];
    for &cleared in &clear_bits {
        let written = 1u32 << cleared;
        let after = observed & !written;
        for bit in 0..32u32 {
            if bit == cleared {
                assert_eq!(after & (1 << bit), 0);
            } else {
                assert_eq!(after & (1 << bit), observed & (1 << bit));
            }
        }
    }
}

#[test]
fn interrupt_status_clear_all_value() {
    let mut is = InterruptStatus::from_raw(0);
    is.clear_all();
    assert_eq!(is.get_raw(), INTERRUPT_STATUS_ALL_CLEARABLE);
    assert_eq!(INTERRUPT_STATUS_ALL_CLEARABLE, 0xfd80_00af);
}

#[test]
fn interrupt_status_getters() {
    let is = InterruptStatus::from_raw((1 << 30) | (1 << 22) | (1 << 4) | 1);
    assert!(is.get_tfes());
    assert!(is.get_prcs());
    assert!(is.get_ufs());
    assert!(is.get_dhrs());
    assert!(!is.get_hbfs());
    assert!(!is.get_sdbs());
}

#[test]
fn interrupt_enable_set_and_get() {
    let mut ie = InterruptEnable::from_raw(0);
    ie.set_hbfs(true);
    ie.set_hdbs(true);
    ie.set_ifs(true);
    ie.set_infs(true);
    ie.set_ufe(true);
    ie.set_imps(true);
    assert_eq!(ie.get_raw(), 0x3c80_0010);
    assert!(ie.get_hbfs());
    assert!(ie.get_hbds());
    assert!(ie.get_ifs());
    assert!(ie.get_infs());
    assert!(ie.get_ufe());
    assert!(ie.get_ipms());
    ie.set_hbfs(false);
    assert_eq!(ie.get_raw(), 0x1c80_0010);
    let mut ie2 = InterruptEnable::from_raw(0);
    ie2.set_cpds(true);
    assert_eq!(ie2.get_raw(), 1 << 31);
    assert!(ie2.get_cpds());
}

#[test]
fn command_writes_never_assert_override() {
    // Bit 3 is write-1-to-set; every ordinary write must carry it as
    // 0, even when it was observed set.
    let mut cmd = Command::from_raw(0xffff_ffff);
    cmd.set_st(false);
    assert_eq!(cmd.get_raw(), 0xffff_fff6);
    let mut cmd2 = Command::from_raw(0x8);
    cmd2.set_atapi(true);
    assert_eq!(cmd2.get_raw(), 1 << 24);
}

#[test]
fn command_override_strobe_sets_its_bit() {
    let mut cmd = Command::from_raw(0x10);
    cmd.set_clo();
    assert_eq!(cmd.get_raw(), 0x18);
    assert!(cmd.get_clo());
}

#[test]
fn command_field_decoding() {
    let raw = (5u32 << 28) | (1 << 15) | (1 << 14) | (9 << 8) | (1 << 4) | 1;
    let cmd = Command::from_raw(raw);
    assert_eq!(cmd.get_icc().get_raw(), 5);
    assert!(cmd.get_cr());
    assert!(cmd.get_fr());
    assert_eq!(cmd.get_ccs(), 9);
    assert!(cmd.get_fre());
    assert!(cmd.get_st());
    assert!(!cmd.get_sud());
}

#[test]
fn command_set_icc_keeps_low_bits() {
    let mut cmd = Command::from_raw(0xffff_ffff);
    cmd.set_icc(IccState(ahci_driver::ports::command::ICC_ACTIVE));
    assert_eq!(cmd.get_raw(), 0x1fff_fff7);
    assert_eq!(cmd.get_icc().get_raw(), 1);
}

#[test]
fn icc_state_range() {
    assert_eq!(IccState::from_raw(8).map(|s| s.get_raw()), Some(8));
    assert!(IccState::from_raw(0x10).is_none());
    assert!(IccState::from_raw(0xff).is_none());
}
