//! Frame information structures, command headers, command tables and
//! the PRDT byte-count encoding, on concrete values.

use ahci_driver::fis::command_list_structure::CommandListStructure;
use ahci_driver::fis::command_table::CommandTable2;
use ahci_driver::fis::command_table::PhysicalRegionDescriptorTable;
use ahci_driver::fis::command_table::MAX_PRDT_ENTRIES;
use ahci_driver::fis::command_table::MAX_PRDT_ENTRIES_ON_ONE_PAGE;
use ahci_driver::fis::dma_setup::DmaSetup;
use ahci_driver::fis::pio_setup::PioSetup;
use ahci_driver::fis::regd2h::RegD2H;
use ahci_driver::fis::regh2d::RegH2D;
use ahci_driver::fis::ReceivedFis;
use ahci_driver::fis::Type;

#[test]
fn fis_type_codes() {
    assert_eq!(Type::REG_H2D.value(), 0x27);
    assert_eq!(Type::REG_D2H.value(), 0x34);
    assert_eq!(Type::DMA_ACT.value(), 0x39);
    assert_eq!(Type::DMA_SETUP.value(), 0x41);
    assert_eq!(Type::DATA.value(), 0x46);
    assert_eq!(Type::BIST.value(), 0x58);
    assert_eq!(Type::PIO_SETUP.value(), 0x5f);
    assert_eq!(Type::DEV_BITS.value(), 0xa1);
    assert_eq!(Type::from_value(0x27), Some(Type::REG_H2D));
    assert_eq!(Type::from_value(0x00), None);
}

#[test]
fn regh2d_default_is_typed_and_zero() {
    let fis = RegH2D::default();
    assert_eq!(fis.fis_type, 0x27);
    assert_eq!(fis.command, 0);
    assert_eq!(fis.pmport_cc, 0);
    assert_eq!(fis.countl, 0);
    assert_eq!(fis.control, 0);
}

#[test]
fn regh2d_serialization_layout() {
    let mut fis = RegH2D::default();
    fis.pmport_cc = 0x80;
    fis.command = 0xec;
    fis.featurel = 0x11;
    fis.lba0 = 0x22;
    fis.device = 0x33;
    fis.featureh = 0x44;
    fis.countl = 1;
    fis.counth = 2;
    fis.control = 0x55;
    let mut out: Vec<u8> = Vec::new();
    fis.copy_into(&mut out);
    assert_eq!(out.len(), 64);
    assert_eq!(out[0], 0x27);
    assert_eq!(out[1], 0x80);
    assert_eq!(out[2], 0xec);
    assert_eq!(out[3], 0x11);
    assert_eq!(out[4], 0x22);
    assert_eq!(out[7], 0x33);
    assert_eq!(out[11], 0x44);
    assert_eq!(out[12], 1);
    assert_eq!(out[13], 2);
    assert_eq!(out[15], 0x55);
    for i in 16..64 {
        assert_eq!(out[i], 0);
    }
}

#[test]
fn regd2h_and_setup_defaults() {
    assert_eq!(RegD2H::default().fis_type, 0x34);
    assert_eq!(RegD2H::default().status, 0);
    assert_eq!(PioSetup::default().fis_type, 0x5f);
    assert_eq!(PioSetup::default().tc, 0);
    assert_eq!(DmaSetup::default().fis_type, 0x41);
    assert_eq!(DmaSetup::default().transfer_count, 0);
}

#[test]
fn dma_setup_buffer_id_split() {
    let mut fis = DmaSetup::default();
    fis.set_dma_buffer(0x1234_5678_9abc_def0);
    assert_eq!(fis.dma_buffer_id_low, 0x9abc_def0);
    assert_eq!(fis.dma_buffer_id_high, 0x1234_5678);
    assert_eq!(fis.get_dma_buffer(), 0x1234_5678_9abc_def0);
}

#[test]
fn received_fis_default_is_zeroed() {
    let rf = ReceivedFis::default();
    assert_eq!(rf.dsfis.fis_type, 0x41);
    assert_eq!(rf.psfis.fis_type, 0x5f);
    assert_eq!(rf.rfis.fis_type, 0x34);
    assert!(rf.sdbfis.iter().all(|&b| b == 0));
    assert!(rf.ufis.iter().all(|&b| b == 0));
}

#[test]
fn command_header_fields() {
    let mut h = CommandListStructure::new();
    assert_eq!(h.dw0, 0);
    h.set_prdtl(3);
    h.set_pmp(2);
    h.set_clear_busy(true);
    h.set_write(true);
    h.set_cfl(5);
    assert_eq!(h.get_prdtl(), 3);
    assert_eq!(h.get_pmp(), 2);
    assert!(h.get_clear_busy());
    assert!(h.get_write());
    assert!(!h.get_atapi());
    assert_eq!(h.get_cfl(), 5);
    h.set_prdbc(0x200);
    assert_eq!(h.get_prdbc(), 0x200);
    h.set_ctba(0xfee0_0080);
    h.set_ctbau(0x1);
    assert_eq!(h.get_ctba(), 0xfee0_0080);
    assert_eq!(h.get_ctbau(), 0x1);
    h.reset();
    assert_eq!(h.dw0, 0);
    assert_eq!(h.get_prdbc(), 0);
    assert_eq!(h.get_ctba(), 0);
}

#[test]
fn prdt_byte_count_roundtrip() {
    // Encoding an even transfer length as count-minus-one with bit 0
    // forced decodes back to the same length, across the whole range.
    for n in [2u32, 4, 6, 512, 4096, 0x10_0000, 4_194_302, 4_194_304] {
        let p = PhysicalRegionDescriptorTable::new(0x1000, false, n - 1);
        assert_eq!(p.get_dbc_adjusted(), n);
    }
}

#[test]
fn prdt_encoding_details() {
    let p = PhysicalRegionDescriptorTable::new(0x1_2345_6788, true, 511);
    assert_eq!(p.get_dba(), 0x2345_6788);
    assert_eq!(p.get_dbau(), 0x1);
    assert!(p.get_interrupt_on_completion());
    assert_eq!(p.get_dbc(), 511);
    assert_eq!(p.get_dbc_adjusted(), 512);
    // Bit 0 is forced set: an even count field stores as the odd value
    // one above it and decodes one higher.
    let q = PhysicalRegionDescriptorTable::new(0x1000, false, 0);
    assert_eq!(q.i_dbc, 1);
    assert_eq!(q.get_dbc_adjusted(), 2);
}

#[test]
fn prdt_setters() {
    let mut p = PhysicalRegionDescriptorTable::default();
    p.set_dba(0x2000);
    p.set_dbau(0x5);
    p.set_dbc(0x1ff);
    p.set_interrupt_on_completion(true);
    assert_eq!(p.get_dba(), 0x2000);
    assert_eq!(p.get_dbau(), 0x5);
    assert_eq!(p.get_dbc(), 0x1ff);
    assert!(p.get_interrupt_on_completion());
    p.set_interrupt_on_completion(false);
    assert!(!p.get_interrupt_on_completion());
    assert_eq!(p.get_dbc(), 0x1ff);
}

#[test]
fn command_table_zeroed() {
    let mut t = CommandTable2::new(4);
    assert_eq!(t.cfis.len(), 64);
    assert_eq!(t.acmd.len(), 16);
    assert_eq!(t.prdt.len(), 4);
    t.prdt[2] = PhysicalRegionDescriptorTable::new(0x8000, false, 511);
    t.cfis[0] = 0x27;
    t.zeroed();
    assert_eq!(t.prdt.len(), 4);
    assert!(t.cfis.iter().all(|&b| b == 0));
    assert!(t.acmd.iter().all(|&b| b == 0));
    assert_eq!(t.prdt[2].get_dba(), 0);
    assert_eq!(t.prdt[2].i_dbc, 0);
}

#[test]
fn prdt_entry_limits() {
    assert_eq!(MAX_PRDT_ENTRIES, 65535);
    assert_eq!(MAX_PRDT_ENTRIES_ON_ONE_PAGE, 248);
}
