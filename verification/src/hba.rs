//! The HBA driver: controller-wide bring-up, in the mandated order.
//! Each state of the sequence is a precondition for the next: mapped,
//! BIOS/OS handoff where the hardware asks for it, reset, AHCI mode
//! enabled, ports initialized, and only then interrupts enabled, so
//! that port bring-up never races interrupt delivery.

use vstd::prelude::*;

use crate::generic_host_controller::bohc::BiosOsHandoffControl;
use crate::generic_host_controller::capabilities::Capabilities;
use crate::generic_host_controller::ex_capabilities::CapabilitiesExtended;
use crate::generic_host_controller::global_hba_control::GlobalHbaControl;
use crate::generic_host_controller::ports_implemented::PortsImplemented;
use crate::pci::BarValue;
use crate::pci::HeaderType;
use crate::port::AhciPort2;
use crate::port_init::SATA_SIGNATURE;
use crate::port_init::SIGNATURE_UNINITIALIZED;

verus! {

/// The interrupt line the kernel routes AHCI controllers to.
pub const AHCI_IRQ: u8 = 11;

/// The port-level interrupt-status bits the interrupt handler treats
/// as a hardware-reported error.
pub const FATAL_INTERRUPT_MASK: u32 = 0xfd00_0000;

/// How often the reset machine re-reads GHC waiting for the
/// self-clearing reset strobe before it declares the HBA hung.
pub const RESET_RETRIES: u32 = 1000000;

/// How often the handoff machine re-polls the BIOS-busy flag; each
/// poll waits the documented two seconds.
pub const HANDOFF_BUSY_RETRIES: u32 = 10;

/// The frame information structure type codes.
#[derive(Debug, Clone, Copy, PartialEq, Eq, Structural)]
pub enum FisType {
    /// Register FIS, host to device.
    RegisterHostToDevice,
    /// Register FIS, device to host.
    RegisterDeviceToHost,
    /// DMA activate FIS.
    DmaActivateFis,
    /// DMA setup FIS.
    DmaSetup,
    /// Data FIS.
    Data,
    /// BIST activate FIS.
    Bist,
    /// PIO setup FIS.
    PioSetup,
    /// Set device bits FIS.
    DevBits,
}

impl FisType {
    /// The wire code of this FIS type.
    pub open spec fn spec_value(self) -> u8 {
        match self {
            FisType::RegisterHostToDevice => 0x27,
            FisType::RegisterDeviceToHost => 0x34,
            FisType::DmaActivateFis => 0x39,
            FisType::DmaSetup => 0x41,
            FisType::Data => 0x46,
            FisType::Bist => 0x58,
            FisType::PioSetup => 0x5f,
            FisType::DevBits => 0xa1,
        }
    }

    /// The wire code of this FIS type.
    pub fn value(self) -> (r: u8)
        ensures
            r == self.spec_value(),
    {
        match self {
            FisType::RegisterHostToDevice => 0x27,
            FisType::RegisterDeviceToHost => 0x34,
            FisType::DmaActivateFis => 0x39,
            FisType::DmaSetup => 0x41,
            FisType::Data => 0x46,
            FisType::Bist => 0x58,
            FisType::PioSetup => 0x5f,
            FisType::DevBits => 0xa1,
        }
    }
}

/// Whether a PCI function is an AHCI host bus adapter: the general
/// device header layout, mass-storage class 0x01, SATA subclass 0x06,
/// and the AHCI programming interface 0x01.
pub fn is_ahci_device(
    header_type: HeaderType,
    class: u8,
    subclass: u8,
    programming_interface: u8,
) -> (r: bool)
    ensures
        r == (header_type.0 & 0x7f == 0 && class == 0x01 && subclass == 0x06
            && programming_interface == 0x01),
{
    header_type.get_type() == 0x00 && class == 0x01 && subclass == 0x06 && programming_interface
        == 0x01
}

/// What a port's signature register says about the attached device.
#[derive(Debug, Clone, Copy, PartialEq, Eq, Structural)]
pub enum SignatureKind {
    /// The SATA drive signature: the port gets a driver and an
    /// identify command.
    Sata,
    /// The signature was never initialized: no device, kept quiet.
    Uninitialized,
    /// Some other device class; not supported.
    Other,
}

/// Classifies a port's signature register.
pub fn classify_signature(sig: u32) -> (r: SignatureKind)
    ensures
        sig == SATA_SIGNATURE ==> r == SignatureKind::Sata,
        sig == SIGNATURE_UNINITIALIZED ==> r == SignatureKind::Uninitialized,
        sig != SATA_SIGNATURE && sig != SIGNATURE_UNINITIALIZED ==> r == SignatureKind::Other,
{
    if sig == SATA_SIGNATURE {
        SignatureKind::Sata
    } else if sig == SIGNATURE_UNINITIALIZED {
        SignatureKind::Uninitialized
    } else {
        SignatureKind::Other
    }
}

/// The plan the PCI-level setup hands to the runtime: how to map the
/// HBA memory window, which interrupt line to program, and the command
/// register value to write back.
#[derive(Debug, Clone, Copy, PartialEq, Eq, Structural)]
pub struct PciSetupPlan {
    /// The physical base of the HBA memory window, from the ABAR.
    pub abar_base: u32,
    /// The reported window size, before page rounding.
    pub abar_actual_size: u32,
    /// The window size rounded up to whole pages.
    pub size_page_aligned: u32,
    /// How many pages the mapping covers.
    pub map_page_count: u32,
    /// How many port register blocks the window can address.
    pub port_count: u32,
    /// The interrupt line to assign.
    pub interrupt_line: u8,
    /// The PCI command value to write back: memory-space decode and
    /// bus-master on, interrupts no longer disabled.
    pub command: crate::pci::Command,
}

/// PCI-level preparation of one candidate function: recognizes an AHCI
/// function, decodes the ABAR (BAR 5), sizes the mapping, and computes
/// the command-register update.  Returns nothing for a function of
/// another class.  The ABAR must be a memory-space BAR, and the
/// reported size must cover the generic host control block and then
/// split evenly into 0x80-byte port blocks.
pub fn pci_init(
    header_type: HeaderType,
    class: u8,
    subclass: u8,
    programming_interface: u8,
    bar5: BarValue,
    bar5_size: u32,
    command: crate::pci::Command,
) -> (r: Option<PciSetupPlan>)
    requires
        bar5.0 & 1 == 0,
        bar5_size >= 0x100,
        (bar5_size - 0x100) % 0x80 == 0,
        bar5_size <= 0xffff_f000,
    ensures
        match r {
            Some(plan) => {
                &&& header_type.0 & 0x7f == 0 && class == 0x01 && subclass == 0x06
                    && programming_interface == 0x01
                &&& plan.abar_base == bar5.0 & 0xffff_fff0
                &&& plan.abar_actual_size == bar5_size
                &&& plan.size_page_aligned == (bar5_size + 0xfff) as u32 & !0xfffu32
                &&& plan.map_page_count == plan.size_page_aligned >> 12
                &&& plan.port_count == (bar5_size - 0x100) / 0x80
                &&& plan.interrupt_line == AHCI_IRQ
                &&& plan.command.0 == (((command.0 & !0x0400u16 & !0x0002u16) | 0x0002u16)
                    & !0x0004u16) | 0x0004u16
                &&& !plan.command.interrupt_disable()
                &&& plan.command.memory_space()
                &&& plan.command.bus_master()
            },
            None => !(header_type.0 & 0x7f == 0 && class == 0x01 && subclass == 0x06
                && programming_interface == 0x01),
        },
{
    if !is_ahci_device(header_type, class, subclass, programming_interface) {
        return None;
    }
    let addr = match crate::pci::MemSpaceBarValue::try_from(bar5) {
        Some(it) => it,
        None => {
            proof {
                assert(false);
            }
            return None;
        },
    };
    let size_page_aligned = (bar5_size + 0xfff) & !0xfffu32;
    let mut cmd = command;
    cmd.set_interrupt_disable(false);
    cmd.set_memory_space(true);
    cmd.set_bus_master(true);
    proof {
        let c = command.0;
        assert((((((c & !0x0400u16 & !0x0002u16) | 0x0002u16) & !0x0004u16) | 0x0004u16) & 0x0400
            != 0x0400) && (((((c & !0x0400u16 & !0x0002u16) | 0x0002u16) & !0x0004u16) | 0x0004u16)
            & 0x0002 == 0x0002) && (((((c & !0x0400u16 & !0x0002u16) | 0x0002u16) & !0x0004u16)
            | 0x0004u16) & 0x0004 == 0x0004)) by (bit_vector);
    }
    Some(
        PciSetupPlan {
            abar_base: addr.address(),
            abar_actual_size: bar5_size,
            size_page_aligned,
            map_page_count: size_page_aligned >> 12,
            port_count: (bar5_size - 0x100) / 0x80,
            interrupt_line: AHCI_IRQ,
            command: cmd,
        },
    )
}

/// The GHC value that enables AHCI mode, when a write is needed at
/// all: nothing when the controller is AHCI-only (AE is then
/// hardware-fixed at 1) or AE is already set, since writing AE in
/// those states is at best redundant and at worst undefined.
pub fn enable_ahci_mode(cap: Capabilities, ghc: GlobalHbaControl) -> (r: Option<GlobalHbaControl>)
    ensures
        !cap.sam() && !ghc.ae() ==> r == Some(GlobalHbaControl(ghc.0 | 0x8000_0000u32)),
        cap.sam() || ghc.ae() ==> r is None,
{
    if !cap.get_sam() && !ghc.get_ae() {
        let mut value = ghc;
        value.set_ae(true);
        Some(value)
    } else {
        None
    }
}

/// Whether AHCI mode is enabled; after `enable_ahci_mode` the bit must
/// read back set, and a controller that still reports legacy mode is a
/// hardware-contract violation the caller treats as fatal.
pub fn ahci_mode_enabled(ghc: GlobalHbaControl) -> (r: bool)
    ensures
        r == ghc.ae(),
{
    ghc.get_ae()
}

/// The GHC value that enables controller interrupts; written only
/// after every port is initialized.
pub fn enable_interrupts(ghc: GlobalHbaControl) -> (r: GlobalHbaControl)
    ensures
        r.0 == (ghc.0 & 0xffff_fffcu32) | 2u32,
        r.ie(),
{
    proof {
        let v = ghc.0;
        assert((((v & 0xffff_fffcu32) | 2u32) & (1u32 << 1)) != 0) by (bit_vector);
    }
    let mut value = ghc;
    value.set_ie(true);
    value
}

/// The states of the BIOS/OS handoff handshake (AHCI specification,
/// section 10.6.3).
#[derive(Debug, Clone, Copy, PartialEq, Eq, Structural)]
pub enum BiosOsHandoffState {
    /// Decide whether the hardware asks for a handoff at all.
    CheckSupport,
    /// Claim the OS-owned semaphore.
    RequestOwnership,
    /// Poll the BIOS-owned semaphore until the firmware releases it.
    AwaitBiosRelease,
    /// Give the firmware its documented grace period.
    GracePeriod,
    /// Poll BIOS-busy, two seconds per try, within the retry budget.
    AwaitBiosIdle {
        /// Polls spent so far.
        tries: u32,
    },
    /// The handoff completed; the OS owns the controller.
    Complete,
    /// The hardware does not use the handoff; nothing to do.
    NotNeeded,
    /// BIOS-busy never cleared within the budget: an unrecoverable
    /// firmware failure, fatal for this controller.
    TimedOut,
}

/// What the runtime performs between two observations of BOHC.
#[derive(Debug, Clone, Copy, PartialEq, Eq, Structural)]
pub enum HandoffAction {
    /// Write this value to BOHC.
    WriteBohc(BiosOsHandoffControl),
    /// Busy-wait this many milliseconds, then observe again.
    SleepMs(u32),
    /// Observe again at once.
    Nothing,
}

/// One transition of the handoff machine on observed CAP2 and BOHC
/// values.
pub open spec fn spec_handoff_step(
    state: BiosOsHandoffState,
    cap2: CapabilitiesExtended,
    bohc: BiosOsHandoffControl,
) -> (BiosOsHandoffState, HandoffAction) {
    match state {
        BiosOsHandoffState::CheckSupport => if cap2.boh() {
            (BiosOsHandoffState::RequestOwnership, HandoffAction::Nothing)
        } else {
            (BiosOsHandoffState::NotNeeded, HandoffAction::Nothing)
        },
        BiosOsHandoffState::RequestOwnership => (
            BiosOsHandoffState::AwaitBiosRelease,
            HandoffAction::WriteBohc(BiosOsHandoffControl(crate::with_bit(bohc.0, 1, true))),
        ),
        BiosOsHandoffState::AwaitBiosRelease => if bohc.bos() {
            (BiosOsHandoffState::AwaitBiosRelease, HandoffAction::Nothing)
        } else {
            (BiosOsHandoffState::GracePeriod, HandoffAction::Nothing)
        },
        BiosOsHandoffState::GracePeriod => (
            BiosOsHandoffState::AwaitBiosIdle { tries: 0 },
            HandoffAction::SleepMs(30),
        ),
        BiosOsHandoffState::AwaitBiosIdle { tries } => if !bohc.bb() {
            (BiosOsHandoffState::Complete, HandoffAction::Nothing)
        } else if tries < HANDOFF_BUSY_RETRIES {
            (
                BiosOsHandoffState::AwaitBiosIdle { tries: (tries + 1) as u32 },
                HandoffAction::SleepMs(2000),
            )
        } else {
            (BiosOsHandoffState::TimedOut, HandoffAction::Nothing)
        },
        BiosOsHandoffState::Complete => (BiosOsHandoffState::Complete, HandoffAction::Nothing),
        BiosOsHandoffState::NotNeeded => (BiosOsHandoffState::NotNeeded, HandoffAction::Nothing),
        BiosOsHandoffState::TimedOut => (BiosOsHandoffState::TimedOut, HandoffAction::Nothing),
    }
}

/// Advances the handoff machine on observed CAP2 and BOHC values.
pub fn bios_os_handoff_step(
    state: BiosOsHandoffState,
    cap2: CapabilitiesExtended,
    bohc: BiosOsHandoffControl,
) -> (r: (BiosOsHandoffState, HandoffAction))
    ensures
        r == spec_handoff_step(state, cap2, bohc),
{
    match state {
        BiosOsHandoffState::CheckSupport => {
            if cap2.get_boh() {
                (BiosOsHandoffState::RequestOwnership, HandoffAction::Nothing)
            } else {
                (BiosOsHandoffState::NotNeeded, HandoffAction::Nothing)
            }
        },
        BiosOsHandoffState::RequestOwnership => {
            let value = bohc.with_oos(true);
            (BiosOsHandoffState::AwaitBiosRelease, HandoffAction::WriteBohc(value))
        },
        BiosOsHandoffState::AwaitBiosRelease => {
            if bohc.get_bos() {
                (BiosOsHandoffState::AwaitBiosRelease, HandoffAction::Nothing)
            } else {
                (BiosOsHandoffState::GracePeriod, HandoffAction::Nothing)
            }
        },
        BiosOsHandoffState::GracePeriod => (
            BiosOsHandoffState::AwaitBiosIdle { tries: 0 },
            HandoffAction::SleepMs(30),
        ),
        BiosOsHandoffState::AwaitBiosIdle { tries } => {
            if !bohc.get_bb() {
                (BiosOsHandoffState::Complete, HandoffAction::Nothing)
            } else if tries < HANDOFF_BUSY_RETRIES {
                (
                    BiosOsHandoffState::AwaitBiosIdle { tries: tries + 1 },
                    HandoffAction::SleepMs(2000),
                )
            } else {
                (BiosOsHandoffState::TimedOut, HandoffAction::Nothing)
            }
        },
        BiosOsHandoffState::Complete => (BiosOsHandoffState::Complete, HandoffAction::Nothing),
        BiosOsHandoffState::NotNeeded => (BiosOsHandoffState::NotNeeded, HandoffAction::Nothing),
        BiosOsHandoffState::TimedOut => (BiosOsHandoffState::TimedOut, HandoffAction::Nothing),
    }
}

/// The states of the HBA reset (AHCI specification, section 10.4.3):
/// set the self-clearing reset strobe, then wait for the hardware to
/// clear it, within a budget — a reset that never completes must be
/// reported, not spun on forever.
#[derive(Debug, Clone, Copy, PartialEq, Eq, Structural)]
pub enum ResetState {
    /// Write the reset strobe.
    RequestReset,
    /// Wait for the strobe to clear.
    AwaitClear {
        /// Polls left before the HBA is declared hung.
        retries: u32,
    },
    /// The reset completed.
    Complete,
    /// The strobe never cleared: the HBA is locked or hung.
    TimedOut,
}

/// What the runtime performs between two observations of GHC.
#[derive(Debug, Clone, Copy, PartialEq, Eq, Structural)]
pub enum ResetAction {
    /// Write this value to GHC.
    WriteGhc(GlobalHbaControl),
    /// Observe again at once, yielding the pipeline.
    Spin,
    /// Observe again at once.
    Nothing,
}

/// One transition of the reset machine on an observed GHC value.
pub open spec fn spec_reset_step(state: ResetState, ghc: GlobalHbaControl) -> (ResetState,
    ResetAction) {
    match state {
        ResetState::RequestReset => (
            ResetState::AwaitClear { retries: RESET_RETRIES },
            ResetAction::WriteGhc(GlobalHbaControl(ghc.0 | 1u32)),
        ),
        ResetState::AwaitClear { retries } => if !ghc.hr() {
            (ResetState::Complete, ResetAction::Nothing)
        } else if retries > 0 {
            (ResetState::AwaitClear { retries: (retries - 1) as u32 }, ResetAction::Spin)
        } else {
            (ResetState::TimedOut, ResetAction::Nothing)
        },
        ResetState::Complete => (ResetState::Complete, ResetAction::Nothing),
        ResetState::TimedOut => (ResetState::TimedOut, ResetAction::Nothing),
    }
}

/// Advances the reset machine on an observed GHC value.
pub fn reset_step(state: ResetState, ghc: GlobalHbaControl) -> (r: (ResetState, ResetAction))
    ensures
        r == spec_reset_step(state, ghc),
{
    match state {
        ResetState::RequestReset => {
            let value = ghc.with_hr();
            (ResetState::AwaitClear { retries: RESET_RETRIES }, ResetAction::WriteGhc(value))
        },
        ResetState::AwaitClear { retries } => {
            if !ghc.get_hr() {
                (ResetState::Complete, ResetAction::Nothing)
            } else if retries > 0 {
                (ResetState::AwaitClear { retries: retries - 1 }, ResetAction::Spin)
            } else {
                (ResetState::TimedOut, ResetAction::Nothing)
            }
        },
        ResetState::Complete => (ResetState::Complete, ResetAction::Nothing),
        ResetState::TimedOut => (ResetState::TimedOut, ResetAction::Nothing),
    }
}

/// One controller's driver state: the PCI slot it was found in, the
/// size of its register window, and the port drivers that bring-up
/// constructed, indexed by hardware port number.
pub struct AhciDevice2 {
    /// The index of the PCI function the controller was found at.
    pub pci_idx: usize,
    /// The size the ABAR reported, in bytes.
    pub abar_actual_size: usize,
    /// The port drivers; a slot is empty where the port is not
    /// implemented or its bring-up was abandoned.
    pub ports: Vec<Option<AhciPort2>>,
}

impl AhciDevice2 {
    /// The window covers the generic host control block, splits evenly
    /// into port blocks, and the port table has its 32 fixed slots.
    pub open spec fn wf(self) -> bool {
        &&& self.ports.len() == 32
        &&& self.abar_actual_size >= 0x100
        &&& (self.abar_actual_size - 0x100) % 0x80 == 0
    }

    /// A fresh controller with no ports constructed yet.
    pub fn new(pci_idx: usize, abar_actual_size: usize) -> (r: Self)
        requires
            abar_actual_size >= 0x100,
            (abar_actual_size - 0x100) % 0x80 == 0,
        ensures
            r.wf(),
            r.pci_idx == pci_idx,
            r.abar_actual_size == abar_actual_size,
            forall|i: int| 0 <= i < 32 ==> r.ports@[i] is None,
    {
        let mut ports: Vec<Option<AhciPort2>> = Vec::new();
        let mut i: usize = 0;
        while i < 32
            invariant
                i <= 32,
                ports@.len() == i,
                forall|j: int| 0 <= j < i ==> ports@[j] is None,
            decreases 32 - i,
        {
            ports.push(None);
            i = i + 1;
        }
        Self { pci_idx, abar_actual_size, ports }
    }

    /// How many port register blocks the mapped window can address;
    /// the blocks start at offset 0x100 and are 0x80 bytes apart.
    /// This may exceed the count of implemented ports the PI bitmap
    /// reports.
    pub fn calc_ports_slice_size(&self) -> (r: usize)
        requires
            self.wf(),
        ensures
            r == (self.abar_actual_size - 0x100) / 0x80,
    {
        (self.abar_actual_size - 0x100) / 0x80
    }

    /// Whether bring-up should probe port `i`: exactly the ports whose
    /// bit stands in the ports-implemented bitmap.
    pub fn should_probe_port(pi: PortsImplemented, i: u8) -> (r: bool)
        requires
            i < 32,
        ensures
            r == pi.implemented(i as u32),
    {
        pi.get(i)
    }

    /// Records the port driver that bring-up constructed for port
    /// `idx`.
    pub fn install_port(&mut self, idx: u8, port: AhciPort2)
        requires
            old(self).wf(),
            idx < 32,
        ensures
            final(self).wf(),
            final(self).pci_idx == old(self).pci_idx,
            final(self).abar_actual_size == old(self).abar_actual_size,
            final(self).ports@ == old(self).ports@.update(idx as int, Some(port)),
    {
        self.ports[idx as usize] = Some(port);
    }

    /// The port driver of port `idx`, if bring-up kept one.
    pub fn port_at(&self, idx: u8) -> (r: &Option<AhciPort2>)
        requires
            self.wf(),
            idx < 32,
        ensures
            r == &self.ports@[idx as int],
    {
        &self.ports[idx as usize]
    }
}

/// Checks a reported window size before any driver state is built: a
/// size that does not cover the generic host control block, or whose
/// port space does not split evenly into 0x80-byte blocks, is rejected
/// outright rather than silently truncated.
pub fn checked_ports_slice_size(abar_size: usize) -> (r: Option<usize>)
    ensures
        match r {
            Some(count) => abar_size >= 0x100 && (abar_size - 0x100) % 0x80 == 0 && count == (
            abar_size - 0x100) / 0x80,
            None => abar_size < 0x100 || (abar_size - 0x100) % 0x80 != 0,
        },
{
    if abar_size >= 0x100 && (abar_size - 0x100) % 0x80 == 0 {
        Some((abar_size - 0x100) / 0x80)
    } else {
        None
    }
}

/// The sizing law of the register window: for any window size that
/// satisfies the alignment invariant, the computed port capacity is
/// exactly the space past the generic host control block divided into
/// 0x80-byte blocks; sizes that violate the invariant are rejected by
/// the precondition rather than silently truncated.
pub proof fn lemma_port_slice_sizing(abar_size: usize)
    requires
        abar_size >= 0x100,
        (abar_size - 0x100) % 0x80 == 0,
    ensures
        0x100 + 0x80 * ((abar_size - 0x100) / 0x80) == abar_size,
{
    vstd::arithmetic::div_mod::lemma_fundamental_div_mod(abar_size - 0x100, 0x80);
}

/// Whether a port reports a hardware error: any interrupt-status bit
/// of the fatal class.
pub fn port_has_fatal_error(is: crate::ports::interrupt_status::InterruptStatus) -> (r: bool)
    ensures
        r == (is.0 & FATAL_INTERRUPT_MASK != 0),
{
    is.get_raw() & FATAL_INTERRUPT_MASK != 0
}

/// The interrupt handler's verdict over the port interrupt-status
/// values collected from every live port: whether any port reports an
/// error of the fatal class.  The runtime escalates a true verdict.
pub fn on_interrupt(statuses: &Vec<u32>) -> (r: bool)
    ensures
        r == exists|i: int|
            0 <= i < statuses@.len() && #[trigger] (statuses@[i] & FATAL_INTERRUPT_MASK) != 0,
{
    let mut i: usize = 0;
    let mut found = false;
    while i < statuses.len()
        invariant
            i <= statuses@.len(),
            found == exists|j: int|
                0 <= j < i && #[trigger] (statuses@[j] & FATAL_INTERRUPT_MASK) != 0,
        decreases statuses@.len() - i,
    {
        if statuses[i] & FATAL_INTERRUPT_MASK != 0 {
            found = true;
        }
        i = i + 1;
    }
    found
}

} // verus!
