//! The Generic Host Control block: the controller-wide registers at the
//! start of the HBA's memory window (AHCI specification, section 3.1).

pub mod bohc;
pub mod capabilities;
pub mod ex_capabilities;
pub mod global_hba_control;
pub mod interfacespeed;
pub mod interrupt_status;
pub mod ports_implemented;

use vstd::prelude::*;

use crate::generic_host_controller::bohc::BiosOsHandoffControl;
use crate::generic_host_controller::capabilities::Capabilities;
use crate::generic_host_controller::ex_capabilities::CapabilitiesExtended;
use crate::generic_host_controller::global_hba_control::GlobalHbaControl;
use crate::generic_host_controller::interrupt_status::InterruptStatus;
use crate::generic_host_controller::ports_implemented::PortsImplemented;

verus! {

/// A snapshot of the Generic Host Control registers, read from the
/// memory-mapped window by the embedding runtime.
pub struct GenericHostControl {
    /// Host capabilities.
    pub cap: Capabilities,
    /// Global host control.
    pub ghc: GlobalHbaControl,
    /// Interrupt status: one pending bit per port.
    pub is: InterruptStatus,
    /// Ports implemented: one bit per available port.
    pub pi: PortsImplemented,
    /// Version.
    pub vs: u32,
    /// Command completion coalescing control.
    pub ccc_ctl: u32,
    /// Command completion coalescing ports.
    pub ccc_ports: u32,
    /// Enclosure management location.
    pub em_loc: u32,
    /// Enclosure management control.
    pub em_ctl: u32,
    /// Extended host capabilities.
    pub cap2: CapabilitiesExtended,
    /// BIOS/OS handoff control and status; meaningful only while
    /// `cap2` reports handoff support.
    pub bohc: BiosOsHandoffControl,
}

} // verus!
