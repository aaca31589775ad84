//! Port bring-up: the state machine that takes one implemented port
//! from an unknown hardware state to a running port with a confirmed
//! SATA device, or abandons it.
//!
//! Construction is only reachable from the stopped state, so the
//! machine first runs the stop sub-state-machine.  It then programs
//! the command-list and FIS base addresses with physical addresses
//! (the hardware performs DMA by physical address, never virtual),
//! powers and spins the device up where required, resets the SATA link
//! (AHCI specification, section 10.10.1) and waits for detection to
//! stabilize before trusting the signature.  A port whose detection
//! never reaches 3, or whose signature is not the SATA value, is
//! abandoned: its registers are cleared and its DMA page released.

use vstd::prelude::*;

use crate::hi32;
use crate::lo32;
use crate::port::PortStopAction;
use crate::port::PortStopState;
use crate::port::spec_stop_step;
use crate::port::stop_step;
use crate::ports::PortRegister;
use crate::ports::command::Command;
use crate::ports::command::guarded_write;
use crate::ports::interrupt_enable::InterruptEnable;
use crate::ports::interrupt_status::InterruptStatus;
use crate::ports::interrupt_status::INTERRUPT_STATUS_ALL_CLEARABLE;

verus! {

/// The port-level interrupt causes enabled once a device is confirmed
/// present: host bus fatal and data errors, interface fatal and
/// non-fatal errors, unknown FIS and incorrect port multiplier.  The
/// data-arrival causes stay off: the identify path polls the
/// command-issue register directly.
pub const FATAL_ERROR_CAUSES: u32 = 0x3c80_0010;

/// The SATA error register write that clears the diagnostics the
/// bring-up is allowed to clear; the remaining bits are
/// reserved-must-be-zero, so the value is not all-ones.
pub const SERR_CLEAR_PATTERN: u32 = 0x07ff_0f03;

/// The signature a SATA drive reports.
pub const SATA_SIGNATURE: u32 = 0x0101;

/// The signature an uninitialized port reports.
pub const SIGNATURE_UNINITIALIZED: u32 = 0xffff_ffff;

/// How often the machine re-reads the task file waiting for the busy
/// nibble to clear after the link reset, before abandoning the port.
pub const TASK_FILE_IDLE_RETRIES: u32 = 1000;

/// The states of the port bring-up machine.
#[derive(Debug, Clone, Copy, PartialEq, Eq, Structural)]
pub enum PortInitState {
    /// Running the stop sub-state-machine.
    Stopping(PortStopState),
    /// Disable aggressive power management in PxSCTL.IPM.
    SetPowerMgmt,
    /// Program the command-list base, low half.
    ProgramClb,
    /// Program the command-list base, high half.
    ProgramClbu,
    /// Program the FIS base, low half.
    ProgramFb,
    /// Program the FIS base, high half.
    ProgramFbu,
    /// Power on the device where cold presence detection reports one.
    PowerOn,
    /// Give the powered device time to react.
    PowerOnSettle,
    /// The device must now report power; anything else is a contract
    /// violation.
    CheckPowerOn,
    /// Spin the device up where staggered spin-up is in use.
    SpinUp,
    /// The device must now report spin-up.
    CheckSpinUp,
    /// Begin the SATA link reset by holding DET at 1.
    LinkResetAssert,
    /// Hold the reset for at least a millisecond.
    LinkResetHold,
    /// Release DET; while it is 1 the HBA keeps sending COMRESET.
    LinkResetRelease,
    /// Give the link time to come back.
    LinkSettle,
    /// Wait for the task file busy nibble to clear.
    AwaitTaskFileIdle {
        /// Polls left before the port is abandoned.
        retries: u32,
    },
    /// Detection must read 3: present with communication established.
    CheckDetection,
    /// Enable FIS receive so the signature can arrive.
    EnableFisReceive,
    /// Allow time for communication to happen.
    FisReceiveSettle,
    /// Detection must still read 3 and the signature must be SATA.
    CheckDevice,
    /// Clear the SATA error and diagnostics register.
    ClearErrors,
    /// Acknowledge all pending port-level interrupt causes.
    ClearInterruptStatus,
    /// Acknowledge the port's pending bit in the HBA interrupt status.
    ClearHbaPending,
    /// Enable the fatal-error interrupt causes.
    EnableInterrupts,
    /// Set ST: the port is running.
    StartPort,
    /// Stop the port again before its registers are cleared.
    CleanupStop(PortStopState),
    /// Clear the FIS base, low half.
    ZeroFb,
    /// Clear the FIS base, high half.
    ZeroFbu,
    /// Clear the command-list base, low half.
    ZeroClb,
    /// Clear the command-list base, high half.
    ZeroClbu,
    /// Release the port's DMA page.
    ReleasePage,
    /// Bring-up finished; the port is running with a SATA device.
    Complete,
    /// No usable device; the page was released and no driver is kept.
    Abandoned,
    /// Cleanup could not stop the port, so the page is deliberately
    /// not released: the hardware may still write into it.
    AbandonedStuck,
    /// An unrecoverable condition: a 64-bit DMA address on an HBA
    /// without 64-bit addressing, or a device that refuses power or
    /// spin-up it just acknowledged.
    Fatal,
}

/// What the runtime performs between two observations of the port
/// register block.
#[derive(Debug, Clone, Copy, PartialEq, Eq, Structural)]
pub enum PortInitAction {
    /// Write this value to PxCLB.
    WriteClb(u32),
    /// Write this value to PxCLBU.
    WriteClbu(u32),
    /// Write this value to PxFB.
    WriteFb(u32),
    /// Write this value to PxFBU.
    WriteFbu(u32),
    /// Write this value to PxCMD.
    WriteCmd(Command),
    /// Write this value to PxSCTL.
    WriteSctl(u32),
    /// Write this value to PxSERR.
    WriteSerr(u32),
    /// Write this value to PxIS.
    WriteIs(InterruptStatus),
    /// Write this value to PxIE.
    WriteIe(InterruptEnable),
    /// Write this port's bit to the HBA-level interrupt status.
    ClearHbaInterrupt(u8),
    /// Busy-wait this many milliseconds, then observe again.
    SleepMs(u32),
    /// Free the physical and virtual page backing the command list and
    /// received-FIS area.
    ReleaseDmaPage,
    /// Observe again at once.
    Nothing,
}

/// A stop sub-machine action, carried over unchanged.
pub open spec fn spec_lift_stop_action(a: PortStopAction) -> PortInitAction {
    match a {
        PortStopAction::WriteCmd(v) => PortInitAction::WriteCmd(v),
        PortStopAction::SleepMs(ms) => PortInitAction::SleepMs(ms),
        PortStopAction::Nothing => PortInitAction::Nothing,
    }
}

/// The port bring-up machine: the state, and the parameters fixed when
/// bring-up begins.
#[derive(Debug, Clone, Copy, PartialEq, Eq, Structural)]
pub struct PortInitMachine {
    /// The current state.
    pub state: PortInitState,
    /// The physical address of the zeroed command list.
    pub clb_phys: u64,
    /// The physical address of the zeroed received-FIS area.
    pub fb_phys: u64,
    /// Whether the HBA supports 64-bit addressing.
    pub is_64bit_aware: bool,
    /// Whether the HBA requires staggered spin-up.
    pub staggered_spinup: bool,
    /// The port's index within the HBA.
    pub port_idx: u8,
}

impl PortInitMachine {
    /// One transition on an observed snapshot of the port registers.
    pub open spec fn spec_step(m: PortInitMachine, regs: PortRegister) -> (PortInitMachine,
        PortInitAction) {
        let (next, action) = Self::spec_state_step(m, regs);
        (PortInitMachine { state: next, ..m }, action)
    }

    /// The state transition and action of one step.
    pub open spec fn spec_state_step(m: PortInitMachine, regs: PortRegister) -> (PortInitState,
        PortInitAction) {
        match m.state {
            PortInitState::Stopping(s) => {
                let (s2, a) = spec_stop_step(s, regs.cmd);
                if s2 == PortStopState::Stopped {
                    (PortInitState::SetPowerMgmt, PortInitAction::Nothing)
                } else if s2 == PortStopState::TimedOut {
                    (PortInitState::ReleasePage, PortInitAction::Nothing)
                } else {
                    (PortInitState::Stopping(s2), spec_lift_stop_action(a))
                }
            },
            PortInitState::SetPowerMgmt => (
                PortInitState::ProgramClb,
                PortInitAction::WriteSctl(regs.sctl | 0x0f00),
            ),
            PortInitState::ProgramClb => if !m.is_64bit_aware && m.clb_phys > 0xffff_ffff {
                (PortInitState::Fatal, PortInitAction::Nothing)
            } else {
                (PortInitState::ProgramClbu, PortInitAction::WriteClb(lo32(m.clb_phys)))
            },
            PortInitState::ProgramClbu => (
                PortInitState::ProgramFb,
                PortInitAction::WriteClbu(hi32(m.clb_phys)),
            ),
            PortInitState::ProgramFb => if !m.is_64bit_aware && m.fb_phys > 0xffff_ffff {
                (PortInitState::Fatal, PortInitAction::Nothing)
            } else {
                (PortInitState::ProgramFbu, PortInitAction::WriteFb(lo32(m.fb_phys)))
            },
            PortInitState::ProgramFbu => (
                PortInitState::PowerOn,
                PortInitAction::WriteFbu(hi32(m.fb_phys)),
            ),
            PortInitState::PowerOn => if regs.cmd.cpd() && regs.cmd.cps() {
                (
                    PortInitState::PowerOnSettle,
                    PortInitAction::WriteCmd(Command(guarded_write(regs.cmd.0, 2, true))),
                )
            } else {
                (PortInitState::CheckPowerOn, PortInitAction::Nothing)
            },
            PortInitState::PowerOnSettle => (
                PortInitState::CheckPowerOn,
                PortInitAction::SleepMs(5),
            ),
            PortInitState::CheckPowerOn => if regs.cmd.pod() {
                (PortInitState::SpinUp, PortInitAction::Nothing)
            } else {
                (PortInitState::Fatal, PortInitAction::Nothing)
            },
            PortInitState::SpinUp => if m.staggered_spinup && !regs.cmd.sud() {
                (
                    PortInitState::CheckSpinUp,
                    PortInitAction::WriteCmd(Command(guarded_write(regs.cmd.0, 1, true))),
                )
            } else {
                (PortInitState::CheckSpinUp, PortInitAction::Nothing)
            },
            PortInitState::CheckSpinUp => if regs.cmd.sud() {
                (PortInitState::LinkResetAssert, PortInitAction::Nothing)
            } else {
                (PortInitState::Fatal, PortInitAction::Nothing)
            },
            PortInitState::LinkResetAssert => (
                PortInitState::LinkResetHold,
                PortInitAction::WriteSctl((regs.sctl & !0xfu32) | 1u32),
            ),
            PortInitState::LinkResetHold => (
                PortInitState::LinkResetRelease,
                PortInitAction::SleepMs(5),
            ),
            PortInitState::LinkResetRelease => (
                PortInitState::LinkSettle,
                PortInitAction::WriteSctl(regs.sctl & !0xfu32),
            ),
            PortInitState::LinkSettle => (
                PortInitState::AwaitTaskFileIdle { retries: TASK_FILE_IDLE_RETRIES },
                PortInitAction::SleepMs(5),
            ),
            PortInitState::AwaitTaskFileIdle { retries } => if regs.tfd & 0xf == 0x8 {
                if retries > 0 {
                    (
                        PortInitState::AwaitTaskFileIdle { retries: (retries - 1) as u32 },
                        PortInitAction::SleepMs(1),
                    )
                } else {
                    (PortInitState::CleanupStop(PortStopState::ClearStart), PortInitAction::Nothing)
                }
            } else {
                (PortInitState::CheckDetection, PortInitAction::Nothing)
            },
            PortInitState::CheckDetection => if regs.det() == 3 {
                (PortInitState::EnableFisReceive, PortInitAction::Nothing)
            } else {
                (PortInitState::CleanupStop(PortStopState::ClearStart), PortInitAction::Nothing)
            },
            PortInitState::EnableFisReceive => (
                PortInitState::FisReceiveSettle,
                PortInitAction::WriteCmd(Command(guarded_write(regs.cmd.0, 4, true))),
            ),
            PortInitState::FisReceiveSettle => (
                PortInitState::CheckDevice,
                PortInitAction::SleepMs(5),
            ),
            PortInitState::CheckDevice => if regs.det() == 3 && regs.sig == SATA_SIGNATURE {
                (PortInitState::ClearErrors, PortInitAction::Nothing)
            } else {
                (PortInitState::CleanupStop(PortStopState::ClearStart), PortInitAction::Nothing)
            },
            PortInitState::ClearErrors => (
                PortInitState::ClearInterruptStatus,
                PortInitAction::WriteSerr(SERR_CLEAR_PATTERN),
            ),
            PortInitState::ClearInterruptStatus => (
                PortInitState::ClearHbaPending,
                PortInitAction::WriteIs(InterruptStatus(INTERRUPT_STATUS_ALL_CLEARABLE)),
            ),
            PortInitState::ClearHbaPending => (
                PortInitState::EnableInterrupts,
                PortInitAction::ClearHbaInterrupt(m.port_idx),
            ),
            PortInitState::EnableInterrupts => (
                PortInitState::StartPort,
                PortInitAction::WriteIe(InterruptEnable(regs.ie.0 | FATAL_ERROR_CAUSES)),
            ),
            PortInitState::StartPort => (
                PortInitState::Complete,
                PortInitAction::WriteCmd(Command(guarded_write(regs.cmd.0, 0, true))),
            ),
            PortInitState::CleanupStop(s) => {
                let (s2, a) = spec_stop_step(s, regs.cmd);
                if s2 == PortStopState::Stopped {
                    (PortInitState::ZeroFb, PortInitAction::Nothing)
                } else if s2 == PortStopState::TimedOut {
                    (PortInitState::AbandonedStuck, PortInitAction::Nothing)
                } else {
                    (PortInitState::CleanupStop(s2), spec_lift_stop_action(a))
                }
            },
            PortInitState::ZeroFb => (PortInitState::ZeroFbu, PortInitAction::WriteFb(0)),
            PortInitState::ZeroFbu => (PortInitState::ZeroClb, PortInitAction::WriteFbu(0)),
            PortInitState::ZeroClb => (PortInitState::ZeroClbu, PortInitAction::WriteClb(0)),
            PortInitState::ZeroClbu => (PortInitState::ReleasePage, PortInitAction::WriteClbu(0)),
            PortInitState::ReleasePage => (
                PortInitState::Abandoned,
                PortInitAction::ReleaseDmaPage,
            ),
            PortInitState::Complete => (PortInitState::Complete, PortInitAction::Nothing),
            PortInitState::Abandoned => (PortInitState::Abandoned, PortInitAction::Nothing),
            PortInitState::AbandonedStuck => (
                PortInitState::AbandonedStuck,
                PortInitAction::Nothing,
            ),
            PortInitState::Fatal => (PortInitState::Fatal, PortInitAction::Nothing),
        }
    }

    /// Begins bring-up for one port.  The command list at `clb_phys`
    /// and the received-FIS area at `fb_phys` must already be zeroed;
    /// both live in the single DMA page the runtime allocated for this
    /// port.
    pub fn start(
        clb_phys: u64,
        fb_phys: u64,
        is_64bit_aware: bool,
        staggered_spinup: bool,
        port_idx: u8,
    ) -> (r: Self)
        requires
            port_idx < 32,
        ensures
            r.state == PortInitState::Stopping(PortStopState::ClearStart),
            r.clb_phys == clb_phys,
            r.fb_phys == fb_phys,
            r.is_64bit_aware == is_64bit_aware,
            r.staggered_spinup == staggered_spinup,
            r.port_idx == port_idx,
    {
        Self {
            state: PortInitState::Stopping(PortStopState::ClearStart),
            clb_phys,
            fb_phys,
            is_64bit_aware,
            staggered_spinup,
            port_idx,
        }
    }

    /// Advances the machine on an observed snapshot of the port's
    /// registers, returning the action the runtime performs before the
    /// next observation.
    pub fn step(&mut self, regs: &PortRegister) -> (r: PortInitAction)
        ensures
            (*final(self), r) == Self::spec_step(*old(self), *regs),
    {
        let (next, action) = self.state_step(regs);
        self.state = next;
        action
    }

    /// The transition of `step`, without updating the machine.
    fn state_step(&self, regs: &PortRegister) -> (r: (PortInitState, PortInitAction))
        ensures
            r == Self::spec_state_step(*self, *regs),
    {
        match self.state {
            PortInitState::Stopping(s) => {
                let (s2, a) = stop_step(s, regs.cmd);
                match s2 {
                    PortStopState::Stopped => (PortInitState::SetPowerMgmt, PortInitAction::Nothing),
                    PortStopState::TimedOut => (
                        PortInitState::ReleasePage,
                        PortInitAction::Nothing,
                    ),
                    _ => (PortInitState::Stopping(s2), lift_stop_action(a)),
                }
            },
            PortInitState::SetPowerMgmt => (
                PortInitState::ProgramClb,
                PortInitAction::WriteSctl(regs.sctl | 0x0f00),
            ),
            PortInitState::ProgramClb => {
                if !self.is_64bit_aware && self.clb_phys > 0xffff_ffff {
                    (PortInitState::Fatal, PortInitAction::Nothing)
                } else {
                    (
                        PortInitState::ProgramClbu,
                        PortInitAction::WriteClb((self.clb_phys & 0xffff_ffffu64) as u32),
                    )
                }
            },
            PortInitState::ProgramClbu => (
                PortInitState::ProgramFb,
                PortInitAction::WriteClbu(((self.clb_phys >> 32) & 0xffff_ffffu64) as u32),
            ),
            PortInitState::ProgramFb => {
                if !self.is_64bit_aware && self.fb_phys > 0xffff_ffff {
                    (PortInitState::Fatal, PortInitAction::Nothing)
                } else {
                    (
                        PortInitState::ProgramFbu,
                        PortInitAction::WriteFb((self.fb_phys & 0xffff_ffffu64) as u32),
                    )
                }
            },
            PortInitState::ProgramFbu => (
                PortInitState::PowerOn,
                PortInitAction::WriteFbu(((self.fb_phys >> 32) & 0xffff_ffffu64) as u32),
            ),
            PortInitState::PowerOn => {
                if regs.cmd.get_cpd() && regs.cmd.get_cps() {
                    let mut value = regs.cmd;
                    value.set_pod(true);
                    (PortInitState::PowerOnSettle, PortInitAction::WriteCmd(value))
                } else {
                    (PortInitState::CheckPowerOn, PortInitAction::Nothing)
                }
            },
            PortInitState::PowerOnSettle => (
                PortInitState::CheckPowerOn,
                PortInitAction::SleepMs(5),
            ),
            PortInitState::CheckPowerOn => {
                if regs.cmd.get_pod() {
                    (PortInitState::SpinUp, PortInitAction::Nothing)
                } else {
                    (PortInitState::Fatal, PortInitAction::Nothing)
                }
            },
            PortInitState::SpinUp => {
                if self.staggered_spinup && !regs.cmd.get_sud() {
                    let mut value = regs.cmd;
                    value.set_sud(true);
                    (PortInitState::CheckSpinUp, PortInitAction::WriteCmd(value))
                } else {
                    (PortInitState::CheckSpinUp, PortInitAction::Nothing)
                }
            },
            PortInitState::CheckSpinUp => {
                if regs.cmd.get_sud() {
                    (PortInitState::LinkResetAssert, PortInitAction::Nothing)
                } else {
                    (PortInitState::Fatal, PortInitAction::Nothing)
                }
            },
            PortInitState::LinkResetAssert => (
                PortInitState::LinkResetHold,
                PortInitAction::WriteSctl((regs.sctl & !0xfu32) | 1u32),
            ),
            PortInitState::LinkResetHold => (
                PortInitState::LinkResetRelease,
                PortInitAction::SleepMs(5),
            ),
            PortInitState::LinkResetRelease => (
                PortInitState::LinkSettle,
                PortInitAction::WriteSctl(regs.sctl & !0xfu32),
            ),
            PortInitState::LinkSettle => (
                PortInitState::AwaitTaskFileIdle { retries: TASK_FILE_IDLE_RETRIES },
                PortInitAction::SleepMs(5),
            ),
            PortInitState::AwaitTaskFileIdle { retries } => {
                if regs.tfd & 0xf == 0x8 {
                    if retries > 0 {
                        (
                            PortInitState::AwaitTaskFileIdle { retries: retries - 1 },
                            PortInitAction::SleepMs(1),
                        )
                    } else {
                        (
                            PortInitState::CleanupStop(PortStopState::ClearStart),
                            PortInitAction::Nothing,
                        )
                    }
                } else {
                    (PortInitState::CheckDetection, PortInitAction::Nothing)
                }
            },
            PortInitState::CheckDetection => {
                if regs.get_det() == 3 {
                    (PortInitState::EnableFisReceive, PortInitAction::Nothing)
                } else {
                    (
                        PortInitState::CleanupStop(PortStopState::ClearStart),
                        PortInitAction::Nothing,
                    )
                }
            },
            PortInitState::EnableFisReceive => {
                let mut value = regs.cmd;
                value.set_fre(true);
                (PortInitState::FisReceiveSettle, PortInitAction::WriteCmd(value))
            },
            PortInitState::FisReceiveSettle => (
                PortInitState::CheckDevice,
                PortInitAction::SleepMs(5),
            ),
            PortInitState::CheckDevice => {
                if regs.get_det() == 3 && regs.sig == SATA_SIGNATURE {
                    (PortInitState::ClearErrors, PortInitAction::Nothing)
                } else {
                    (
                        PortInitState::CleanupStop(PortStopState::ClearStart),
                        PortInitAction::Nothing,
                    )
                }
            },
            PortInitState::ClearErrors => (
                PortInitState::ClearInterruptStatus,
                PortInitAction::WriteSerr(SERR_CLEAR_PATTERN),
            ),
            PortInitState::ClearInterruptStatus => (
                PortInitState::ClearHbaPending,
                PortInitAction::WriteIs(InterruptStatus::from_raw(INTERRUPT_STATUS_ALL_CLEARABLE)),
            ),
            PortInitState::ClearHbaPending => (
                PortInitState::EnableInterrupts,
                PortInitAction::ClearHbaInterrupt(self.port_idx),
            ),
            PortInitState::EnableInterrupts => (
                PortInitState::StartPort,
                PortInitAction::WriteIe(InterruptEnable::from_raw(regs.ie.0 | FATAL_ERROR_CAUSES)),
            ),
            PortInitState::StartPort => {
                let mut value = regs.cmd;
                value.set_st(true);
                (PortInitState::Complete, PortInitAction::WriteCmd(value))
            },
            PortInitState::CleanupStop(s) => {
                let (s2, a) = stop_step(s, regs.cmd);
                match s2 {
                    PortStopState::Stopped => (PortInitState::ZeroFb, PortInitAction::Nothing),
                    PortStopState::TimedOut => (
                        PortInitState::AbandonedStuck,
                        PortInitAction::Nothing,
                    ),
                    _ => (PortInitState::CleanupStop(s2), lift_stop_action(a)),
                }
            },
            PortInitState::ZeroFb => (PortInitState::ZeroFbu, PortInitAction::WriteFb(0)),
            PortInitState::ZeroFbu => (PortInitState::ZeroClb, PortInitAction::WriteFbu(0)),
            PortInitState::ZeroClb => (PortInitState::ZeroClbu, PortInitAction::WriteClb(0)),
            PortInitState::ZeroClbu => (PortInitState::ReleasePage, PortInitAction::WriteClbu(0)),
            PortInitState::ReleasePage => (
                PortInitState::Abandoned,
                PortInitAction::ReleaseDmaPage,
            ),
            PortInitState::Complete => (PortInitState::Complete, PortInitAction::Nothing),
            PortInitState::Abandoned => (PortInitState::Abandoned, PortInitAction::Nothing),
            PortInitState::AbandonedStuck => (
                PortInitState::AbandonedStuck,
                PortInitAction::Nothing,
            ),
            PortInitState::Fatal => (PortInitState::Fatal, PortInitAction::Nothing),
        }
    }
}

/// Carries a stop sub-machine action over unchanged.
fn lift_stop_action(a: PortStopAction) -> (r: PortInitAction)
    ensures
        r == spec_lift_stop_action(a),
{
    match a {
        PortStopAction::WriteCmd(v) => PortInitAction::WriteCmd(v),
        PortStopAction::SleepMs(ms) => PortInitAction::SleepMs(ms),
        PortStopAction::Nothing => PortInitAction::Nothing,
    }
}

} // verus!
