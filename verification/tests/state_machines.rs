//! The bring-up, stop and submission protocols, driven against a
//! small register simulator.

use ahci_driver::generic_host_controller::bohc::BiosOsHandoffControl;
use ahci_driver::generic_host_controller::capabilities::Capabilities;
use ahci_driver::generic_host_controller::ex_capabilities::CapabilitiesExtended;
use ahci_driver::generic_host_controller::global_hba_control::GlobalHbaControl;
use ahci_driver::generic_host_controller::ports_implemented::PortsImplemented;
use ahci_driver::hba::bios_os_handoff_step;
use ahci_driver::hba::checked_ports_slice_size;
use ahci_driver::hba::classify_signature;
use ahci_driver::hba::enable_ahci_mode;
use ahci_driver::hba::enable_interrupts;
use ahci_driver::hba::is_ahci_device;
use ahci_driver::hba::on_interrupt;
use ahci_driver::hba::pci_init;
use ahci_driver::hba::reset_step;
use ahci_driver::hba::AhciDevice2;
use ahci_driver::hba::BiosOsHandoffState;
use ahci_driver::hba::HandoffAction;
use ahci_driver::hba::ResetAction;
use ahci_driver::hba::ResetState;
use ahci_driver::hba::SignatureKind;
use ahci_driver::pci::BarValue;
use ahci_driver::pci::HeaderType;
use ahci_driver::port::stop_step;
use ahci_driver::port::AhciPort2;
use ahci_driver::port::PortStopAction;
use ahci_driver::port::PortStopState;
use ahci_driver::port_init::PortInitAction;
use ahci_driver::port_init::PortInitMachine;
use ahci_driver::port_init::PortInitState;
use ahci_driver::ports::command::Command;
use ahci_driver::ports::interrupt_enable::InterruptEnable;
use ahci_driver::ports::interrupt_status::InterruptStatus;
use ahci_driver::ports::PortRegister;
use ahci_driver::registry::DeviceRegistry;

/// PxCMD.POD and PxCMD.SUD read as 1 on hardware without cold
/// presence detection or staggered spin-up.
const CMD_IDLE: u32 = (1 << 2) | (1 << 1);

fn port_regs(cmd: u32, tfd: u32, ssts: u32, sig: u32) -> PortRegister {
    PortRegister {
        clb: 0,
        clbu: 0,
        fb: 0,
        fbu: 0,
        is: InterruptStatus(0),
        ie: InterruptEnable(0),
        cmd: Command(cmd),
        tfd,
        sig,
        ssts,
        sctl: 0,
        serr: 0,
        sact: 0,
        ci: 0,
        sntf: 0,
        fbs: 0,
        devslp: 0,
    }
}

/// A port register file that honors the machine's writes; the
/// detection state, signature and task file are fixed by the test.
struct SimPort {
    regs: PortRegister,
    sleeps: Vec<u32>,
    writes: u32,
    released_pages: u32,
    hba_clears: Vec<u8>,
}

impl SimPort {
    fn new(regs: PortRegister) -> Self {
        SimPort { regs, sleeps: Vec::new(), writes: 0, released_pages: 0, hba_clears: Vec::new() }
    }

    fn apply(&mut self, action: PortInitAction) {
        match action {
            PortInitAction::WriteClb(v) => {
                self.regs.clb = v;
                self.writes += 1;
            }
            PortInitAction::WriteClbu(v) => {
                self.regs.clbu = v;
                self.writes += 1;
            }
            PortInitAction::WriteFb(v) => {
                self.regs.fb = v;
                self.writes += 1;
            }
            PortInitAction::WriteFbu(v) => {
                self.regs.fbu = v;
                self.writes += 1;
            }
            PortInitAction::WriteCmd(v) => {
                // CR and FR are read-only status bits the device owns;
                // on this quiet device they follow ST and FRE at once.
                self.regs.cmd = v;
                self.writes += 1;
            }
            PortInitAction::WriteSctl(v) => {
                self.regs.sctl = v;
                self.writes += 1;
            }
            PortInitAction::WriteSerr(v) => {
                self.regs.serr = v;
                self.writes += 1;
            }
            PortInitAction::WriteIs(v) => {
                self.regs.is = v;
                self.writes += 1;
            }
            PortInitAction::WriteIe(v) => {
                self.regs.ie = v;
                self.writes += 1;
            }
            PortInitAction::ClearHbaInterrupt(idx) => self.hba_clears.push(idx),
            PortInitAction::SleepMs(ms) => self.sleeps.push(ms),
            PortInitAction::ReleaseDmaPage => self.released_pages += 1,
            PortInitAction::Nothing => {}
        }
    }
}

fn run_port_init(machine: &mut PortInitMachine, sim: &mut SimPort) -> PortInitState {
    for _ in 0..10_000 {
        match machine.state {
            PortInitState::Complete
            | PortInitState::Abandoned
            | PortInitState::AbandonedStuck
            | PortInitState::Fatal => return machine.state,
            _ => {}
        }
        let action = machine.step(&sim.regs.clone());
        sim.apply(action);
    }
    panic!("port bring-up did not reach a terminal state");
}

#[test]
fn stop_already_stopped_port_finishes_without_spinning() {
    // With ST, CR, FRE and FR all clear the machine reaches Stopped in
    // four observations, never writing and never sleeping.
    let cmd = Command(CMD_IDLE);
    let mut state = AhciPort2::stop();
    let mut steps = 0;
    while state != PortStopState::Stopped {
        let (next, action) = stop_step(state, cmd);
        assert_eq!(action, PortStopAction::Nothing);
        state = next;
        steps += 1;
        assert!(steps <= 4);
    }
    assert_eq!(steps, 4);
}

#[test]
fn stop_clears_start_then_polls() {
    let running = Command(CMD_IDLE | 1 | (1 << 15));
    let (state, action) = stop_step(AhciPort2::stop(), running);
    // The first write clears ST and nothing else it may not touch.
    match action {
        PortStopAction::WriteCmd(v) => {
            assert!(!v.get_st());
            assert!(!v.get_clo());
            assert!(v.get_pod());
        }
        other => panic!("expected a PxCMD write, got {:?}", other),
    }
    // CR still set: the machine sleeps between polls.
    let (state2, action2) = stop_step(state, running);
    assert_eq!(action2, PortStopAction::SleepMs(1000));
    match state2 {
        PortStopState::AwaitCommandListStop { retries } => assert_eq!(retries, 59),
        other => panic!("unexpected state {:?}", other),
    }
}

#[test]
fn stop_times_out_when_command_list_never_stops() {
    let stuck = Command(CMD_IDLE | (1 << 15));
    let mut state = AhciPort2::stop();
    let mut sleeps = 0;
    for _ in 0..200 {
        let (next, action) = stop_step(state, stuck);
        if let PortStopAction::SleepMs(_) = action {
            sleeps += 1;
        }
        state = next;
        if state == PortStopState::TimedOut {
            break;
        }
    }
    assert_eq!(state, PortStopState::TimedOut);
    assert_eq!(sleeps, 60);
}

#[test]
fn is_stopped_checks_all_four_bits() {
    assert!(AhciPort2::is_stopped(Command(CMD_IDLE)));
    assert!(!AhciPort2::is_stopped(Command(CMD_IDLE | 1)));
    assert!(!AhciPort2::is_stopped(Command(CMD_IDLE | (1 << 15))));
    assert!(!AhciPort2::is_stopped(Command(CMD_IDLE | (1 << 4))));
    assert!(!AhciPort2::is_stopped(Command(CMD_IDLE | (1 << 14))));
}

#[test]
fn start_sets_fre_and_st() {
    let started = AhciPort2::start(Command(CMD_IDLE));
    assert!(started.get_fre());
    assert!(started.get_st());
    assert!(!started.get_clo());
}

#[test]
fn clean_single_device_bring_up() {
    // One HBA: CAP.NP raw 1 (reports 1, adjusted 2), ports implemented
    // 0b10, a SATA device on port 1.
    let cap = Capabilities::from_raw(1);
    assert_eq!(cap.get_np(), 1);
    assert_eq!(cap.get_np_adjusted(), 2);
    let pi = PortsImplemented::from_raw(0b10);

    // PCI level: the function is recognized and the window mapped.
    let plan = pci_init(
        HeaderType(0),
        0x01,
        0x06,
        0x01,
        BarValue(0xfebf_1000),
        0x200,
        ahci_driver::pci::Command(0x0400),
    )
    .expect("an AHCI function");
    assert_eq!(plan.abar_base, 0xfebf_1000);
    assert_eq!(plan.port_count, 2);
    assert_eq!(plan.size_page_aligned, 0x1000);
    assert_eq!(plan.map_page_count, 1);
    assert_eq!(plan.interrupt_line, 11);

    // No handoff requested.
    let cap2 = CapabilitiesExtended::from_raw(0);
    let (h, _) = bios_os_handoff_step(BiosOsHandoffState::CheckSupport, cap2, BiosOsHandoffControl(0));
    assert_eq!(h, BiosOsHandoffState::NotNeeded);

    // Reset: the strobe is written, the hardware clears it.
    let mut ghc = GlobalHbaControl::from_raw(0);
    let (r1, a1) = reset_step(ResetState::RequestReset, ghc);
    match a1 {
        ResetAction::WriteGhc(v) => {
            assert!(v.get_hr());
            ghc = GlobalHbaControl::from_raw(v.get_raw() & !1);
        }
        other => panic!("expected a GHC write, got {:?}", other),
    }
    let (r2, _) = reset_step(r1, ghc);
    assert_eq!(r2, ResetState::Complete);

    // AHCI mode: not AHCI-only, AE clear, so one write is needed.
    let value = enable_ahci_mode(cap, ghc).expect("a mode-enable write");
    ghc = value;
    assert!(ghc.get_ae());
    assert!(enable_ahci_mode(cap, ghc).is_none());

    // Ports: only port 1 is probed.
    let mut device = AhciDevice2::new(0, 0x200);
    assert!(!AhciDevice2::should_probe_port(pi, 0));
    assert!(AhciDevice2::should_probe_port(pi, 1));
    for i in 2..32 {
        assert!(!AhciDevice2::should_probe_port(pi, i));
    }

    // Port 1 carries a present, communicating SATA device.
    let mut sim = SimPort::new(port_regs(CMD_IDLE, 0, 3, 0x0101));
    let mut machine = PortInitMachine::start(0x0010_0000, 0x0010_0400, cap.get_s64a(), cap.get_sss(), 1);
    let outcome = run_port_init(&mut machine, &mut sim);
    assert_eq!(outcome, PortInitState::Complete);
    assert_eq!(sim.regs.clb, 0x0010_0000);
    assert_eq!(sim.regs.clbu, 0);
    assert_eq!(sim.regs.fb, 0x0010_0400);
    assert_eq!(sim.released_pages, 0);
    assert_eq!(sim.hba_clears, vec![1]);
    assert!(sim.regs.cmd.get_st());
    assert!(sim.regs.cmd.get_fre());
    assert_eq!(sim.regs.ie.get_raw(), 0x3c80_0010);
    assert_eq!(sim.regs.serr, 0x07ff_0f03);
    assert_eq!(classify_signature(sim.regs.sig), SignatureKind::Sata);

    // The port driver is kept, indexed at 1, and identify fills in a
    // non-zero capacity.
    let mut port = AhciPort2::init_memory(0, 1, cap.get_ncs_adjusted(), cap.get_s64a());
    let mut data = vec![0u16; 256];
    data[100] = 0x5678;
    data[101] = 0x1234;
    port.identify(&data);
    assert_eq!(port.lba, 48);
    assert_eq!(port.size, 0x1234_5678u64 * 512);
    assert!(port.size > 0);
    device.install_port(1, port);
    assert!(device.port_at(1).is_some());
    assert!(device.port_at(0).is_none());
    for i in 2..32 {
        assert!(device.port_at(i).is_none());
    }

    // Interrupts are enabled only after the ports are up.
    let after = enable_interrupts(ghc);
    assert!(after.get_ie());
    assert!(after.get_ae());
}

#[test]
fn bios_handoff_timeout_is_fatal() {
    // The firmware never clears BIOS-busy: after the grace period and
    // the full retry budget the machine lands in the fatal timeout and
    // bring-up constructs no ports.
    let cap2 = CapabilitiesExtended::from_raw(1);
    let stuck = BiosOsHandoffControl::from_raw(1 << 4);
    let mut state = BiosOsHandoffState::CheckSupport;
    let mut sleeps: Vec<u32> = Vec::new();
    let mut wrote_oos = false;
    for _ in 0..100 {
        let (next, action) = bios_os_handoff_step(state, cap2, stuck);
        match action {
            HandoffAction::SleepMs(ms) => sleeps.push(ms),
            HandoffAction::WriteBohc(v) => {
                wrote_oos = true;
                assert!(v.get_oos());
            }
            HandoffAction::Nothing => {}
        }
        state = next;
        if state == BiosOsHandoffState::TimedOut {
            break;
        }
    }
    assert!(wrote_oos);
    assert_eq!(state, BiosOsHandoffState::TimedOut);
    assert_eq!(sleeps.first(), Some(&30));
    assert_eq!(sleeps.len(), 11);
    assert!(sleeps[1..].iter().all(|&ms| ms == 2000));
    let device = AhciDevice2::new(3, 0x180);
    for i in 0..32 {
        assert!(device.port_at(i).is_none());
    }
}

#[test]
fn handoff_succeeds_once_bios_releases() {
    let cap2 = CapabilitiesExtended::from_raw(1);
    let idle = BiosOsHandoffControl::from_raw(0);
    let mut state = BiosOsHandoffState::CheckSupport;
    for _ in 0..10 {
        let (next, _) = bios_os_handoff_step(state, cap2, idle);
        state = next;
        if state == BiosOsHandoffState::Complete {
            break;
        }
    }
    assert_eq!(state, BiosOsHandoffState::Complete);
}

#[test]
fn no_device_on_implemented_port_releases_page() {
    // The ports-implemented bit is set, but detection stays 0: the
    // port is abandoned, its registers cleared and its one DMA page
    // freed, and no driver is retained.
    let mut sim = SimPort::new(port_regs(CMD_IDLE, 0, 0, 0xffff_ffff));
    let mut machine = PortInitMachine::start(0x0020_0000, 0x0020_0400, true, false, 2);
    let outcome = run_port_init(&mut machine, &mut sim);
    assert_eq!(outcome, PortInitState::Abandoned);
    assert_eq!(sim.released_pages, 1);
    assert_eq!(sim.regs.clb, 0);
    assert_eq!(sim.regs.clbu, 0);
    assert_eq!(sim.regs.fb, 0);
    assert_eq!(sim.regs.fbu, 0);
    // The port never got its interrupt enables or a start.
    assert!(!sim.regs.cmd.get_st());
    assert_eq!(sim.regs.ie.get_raw(), 0);
    assert_eq!(sim.hba_clears, Vec::<u8>::new());
}

#[test]
fn non_sata_signature_is_abandoned() {
    let mut sim = SimPort::new(port_regs(CMD_IDLE, 0, 3, 0xeb14_0101));
    let mut machine = PortInitMachine::start(0x0020_0000, 0x0020_0400, true, false, 0);
    let outcome = run_port_init(&mut machine, &mut sim);
    assert_eq!(outcome, PortInitState::Abandoned);
    assert_eq!(sim.released_pages, 1);
    assert_eq!(classify_signature(0xeb14_0101), SignatureKind::Other);
    assert_eq!(classify_signature(0xffff_ffff), SignatureKind::Uninitialized);
}

#[test]
fn wide_address_without_64bit_support_is_fatal() {
    let mut sim = SimPort::new(port_regs(CMD_IDLE, 0, 3, 0x0101));
    let mut machine = PortInitMachine::start(0x1_0000_0000, 0x1_0000_0400, false, false, 0);
    let outcome = run_port_init(&mut machine, &mut sim);
    assert_eq!(outcome, PortInitState::Fatal);
    // The 64-bit address was never programmed.
    assert_eq!(sim.regs.clb, 0);
    assert_eq!(sim.regs.clbu, 0);
}

#[test]
fn command_slot_exhaustion_prepares_nothing() {
    // Every negotiated slot is busy in CI or SACT: no slot is found
    // and submission fails without preparing a command, so no register
    // is ever touched.
    let mut regs = port_regs(CMD_IDLE | 1 | (1 << 4), 0, 3, 0x0101);
    regs.ci = 0x0000_ffff;
    regs.sact = 0xffff_0000;
    let port = AhciPort2::init_memory(0, 1, 32, true);
    assert_eq!(AhciPort2::find_empty_slot(&regs, 32), None);
    let fis = AhciPort2::build_identify_fis();
    let prepared = port.handle_fis(&regs, 0x3000, 0x4000, 512, &fis);
    assert!(prepared.is_none());
    // A partial exhaustion: only the slots below the negotiated count
    // matter.
    let mut low = port_regs(CMD_IDLE, 0, 3, 0x0101);
    low.ci = 0b1111;
    assert_eq!(AhciPort2::find_empty_slot(&low, 4), None);
    assert_eq!(AhciPort2::find_empty_slot(&low, 5), Some(4));
}

#[test]
fn prepared_identify_command_layout() {
    let mut regs = port_regs(CMD_IDLE, 0, 3, 0x0101);
    regs.ci = 0b1;
    let port = AhciPort2::init_memory(0, 1, 32, true);
    let fis = AhciPort2::build_identify_fis();
    assert_eq!(fis.command, 0xec);
    assert_eq!(fis.pmport_cc, 0x80);
    assert_eq!(fis.countl, 1);
    let prepared = port
        .handle_fis(&regs, 0x0001_2345_6780, 0x9000, 512, &fis)
        .expect("a free slot");
    assert_eq!(prepared.slot, 1);
    assert_eq!(prepared.header.get_prdtl(), 1);
    assert_eq!(prepared.header.get_cfl(), 5);
    assert_eq!(prepared.header.get_prdbc(), 0);
    assert_eq!(prepared.header.get_ctba(), 0x2345_6780);
    assert_eq!(prepared.header.get_ctbau(), 0x1);
    assert_eq!(prepared.table.cfis[0], 0x27);
    assert_eq!(prepared.table.cfis[1], 0x80);
    assert_eq!(prepared.table.cfis[2], 0xec);
    assert_eq!(prepared.table.cfis[12], 1);
    assert_eq!(prepared.table.prdt.len(), 1);
    assert_eq!(prepared.table.prdt[0].get_dba(), 0x9000);
    assert_eq!(prepared.table.prdt[0].get_dbc_adjusted(), 512);
    assert!(!prepared.table.prdt[0].get_interrupt_on_completion());
    assert_eq!(AhciPort2::ci_value_for_slot(prepared.slot), 0b10);
    assert!(AhciPort2::tfd_ready(0));
    assert!(!AhciPort2::tfd_ready(0x80));
    assert!(!AhciPort2::tfd_ready(0x08));
    assert!(AhciPort2::command_complete(0b01, 1));
    assert!(!AhciPort2::command_complete(0b10, 1));
}

#[test]
fn identify_falls_back_to_28_bit_count() {
    let mut port = AhciPort2::init_memory(0, 0, 1, false);
    let mut data = vec![0u16; 256];
    data[60] = 0x1111;
    data[61] = 0x2222;
    port.identify(&data);
    assert_eq!(port.lba, 28);
    assert_eq!(port.size, 0x2222_1111u64 * 512);
    port.reset_identify();
    assert_eq!(port.lba, 0);
    assert_eq!(port.size, 0);
}

#[test]
fn is_ahci_device_matches_class_triplet() {
    assert!(is_ahci_device(HeaderType(0), 0x01, 0x06, 0x01));
    // A multi-function flag does not change the layout type.
    assert!(is_ahci_device(HeaderType(0x80), 0x01, 0x06, 0x01));
    assert!(!is_ahci_device(HeaderType(1), 0x01, 0x06, 0x01));
    assert!(!is_ahci_device(HeaderType(0), 0x02, 0x06, 0x01));
    assert!(!is_ahci_device(HeaderType(0), 0x01, 0x05, 0x01));
    assert!(!is_ahci_device(HeaderType(0), 0x01, 0x06, 0x00));
}

#[test]
fn pci_init_refuses_other_classes() {
    let r = pci_init(
        HeaderType(0),
        0x02,
        0x00,
        0x00,
        BarValue(0xfebf_1000),
        0x200,
        ahci_driver::pci::Command(0),
    );
    assert!(r.is_none());
}

#[test]
fn ports_slice_sizing() {
    // The computed capacity is exactly the space past the generic host
    // control block split into 0x80-byte port blocks.
    assert_eq!(AhciDevice2::new(0, 0x100).calc_ports_slice_size(), 0);
    assert_eq!(AhciDevice2::new(0, 0x180).calc_ports_slice_size(), 1);
    assert_eq!(AhciDevice2::new(0, 0x200).calc_ports_slice_size(), 2);
    assert_eq!(AhciDevice2::new(0, 0x1100).calc_ports_slice_size(), 32);
    assert_eq!(checked_ports_slice_size(0x100), Some(0));
    assert_eq!(checked_ports_slice_size(0x1100), Some(32));
    // Misaligned or undersized windows are rejected, never truncated.
    assert_eq!(checked_ports_slice_size(0x1c0), None);
    assert_eq!(checked_ports_slice_size(0x1ff), None);
    assert_eq!(checked_ports_slice_size(0xff), None);
    assert_eq!(checked_ports_slice_size(0), None);
}

#[test]
fn interrupt_verdict_over_port_statuses() {
    assert!(!on_interrupt(&vec![]));
    assert!(!on_interrupt(&vec![0, 0, 0]));
    // The overflow and task-file-error bits are in the fatal class.
    assert!(on_interrupt(&vec![0, 1 << 30]));
    assert!(on_interrupt(&vec![1 << 24, 0]));
    // Data-arrival causes are not.
    assert!(!on_interrupt(&vec![1, 1 << 2, 1 << 5]));
}

#[test]
fn registry_initializes_once() {
    let mut registry = DeviceRegistry::new();
    assert!(!registry.is_initialized());
    assert_eq!(registry.len(), 0);
    let devices = vec![AhciDevice2::new(7, 0x200)];
    registry.init(devices);
    assert!(registry.is_initialized());
    assert_eq!(registry.len(), 1);
    assert_eq!(registry.device_at(0).pci_idx, 7);
}

#[test]
fn reset_times_out_on_a_hung_hba() {
    let stuck = GlobalHbaControl::from_raw(1);
    let mut state = ResetState::AwaitClear { retries: 3 };
    let mut spins = 0;
    loop {
        let (next, action) = reset_step(state, stuck);
        if action == ResetAction::Spin {
            spins += 1;
        }
        state = next;
        if state == ResetState::TimedOut {
            break;
        }
        assert!(spins <= 4);
    }
    assert_eq!(spins, 3);
}
