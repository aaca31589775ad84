//! The port driver: one instance owns a port's command list and
//! received-FIS buffers, drives the stop sub-state-machine, prepares
//! command submissions and decodes identification results.

use vstd::prelude::*;

use crate::bit;
use crate::hi32;
use crate::lo32;
use crate::fis::ReceivedFis;
use crate::fis::command_list_structure::CommandListStructure;
use crate::fis::command_table::CommandTable2;
use crate::fis::command_table::PhysicalRegionDescriptorTable;
use crate::fis::regh2d::RegH2D;
use crate::ports::PortRegister;
use crate::ports::command::Command;
use crate::ports::command::guarded_write;

verus! {

/// The ATA identify-device command opcode.
pub const ATA_CMD_IDENTIFY: u8 = 0xEC;

/// The ATA extended read opcode.
pub const ATA_CMD_READ_WRITE_EXT: u8 = 0x35;

/// The ATA extended write opcode.
pub const ATA_CMD_WRITE_WRITE_EXT: u8 = 0x25;

/// How often each stop poll re-reads PxCMD before giving up.
pub const STOP_RETRIES: u8 = 60;

/// How long the runtime sleeps between two stop polls, in
/// milliseconds.
pub const STOP_POLL_MS: u32 = 1000;

/// The phases of the stop sub-state-machine (AHCI specification,
/// section 10.1.2): clear ST, await CR settling, clear FRE, await FR
/// settling.  If CR never settles the machine stops without touching
/// FRE or the base address registers, which would be undefined while
/// the command list still runs.
#[derive(Debug, Clone, Copy, PartialEq, Eq, Structural)]
pub enum PortStopState {
    /// Clear the start bit if it is set.
    ClearStart,
    /// Wait for the command list to stop running.
    AwaitCommandListStop {
        /// Polls left before the machine gives up.
        retries: u8,
    },
    /// Clear FIS receive enable if it is set.
    ClearFisReceive,
    /// Wait for FIS receive to stop running.
    AwaitFisReceiveStop {
        /// Polls left before the machine gives up.
        retries: u8,
    },
    /// Both CR and FR settled clear: the port is stopped.
    Stopped,
    /// CR or FR failed to settle within the budget.
    TimedOut,
}

/// What the runtime performs between two observations of PxCMD.
#[derive(Debug, Clone, Copy, PartialEq, Eq, Structural)]
pub enum PortStopAction {
    /// Write this value to PxCMD.
    WriteCmd(Command),
    /// Busy-wait this many milliseconds, then observe again.
    SleepMs(u32),
    /// Observe again at once.
    Nothing,
}

/// One transition of the stop machine on an observed PxCMD value.
pub open spec fn spec_stop_step(state: PortStopState, cmd: Command) -> (PortStopState,
    PortStopAction) {
    match state {
        PortStopState::ClearStart => if cmd.st() {
            (
                PortStopState::AwaitCommandListStop { retries: STOP_RETRIES },
                PortStopAction::WriteCmd(Command(guarded_write(cmd.0, 0, false))),
            )
        } else {
            (PortStopState::AwaitCommandListStop { retries: STOP_RETRIES }, PortStopAction::Nothing)
        },
        PortStopState::AwaitCommandListStop { retries } => if !cmd.cr() {
            (PortStopState::ClearFisReceive, PortStopAction::Nothing)
        } else if retries > 0 {
            (
                PortStopState::AwaitCommandListStop { retries: (retries - 1) as u8 },
                PortStopAction::SleepMs(STOP_POLL_MS),
            )
        } else {
            (PortStopState::TimedOut, PortStopAction::Nothing)
        },
        PortStopState::ClearFisReceive => if cmd.fre() {
            (
                PortStopState::AwaitFisReceiveStop { retries: STOP_RETRIES },
                PortStopAction::WriteCmd(Command(guarded_write(cmd.0, 4, false))),
            )
        } else {
            (PortStopState::AwaitFisReceiveStop { retries: STOP_RETRIES }, PortStopAction::Nothing)
        },
        PortStopState::AwaitFisReceiveStop { retries } => if !cmd.fr() {
            (PortStopState::Stopped, PortStopAction::Nothing)
        } else if retries > 0 {
            (
                PortStopState::AwaitFisReceiveStop { retries: (retries - 1) as u8 },
                PortStopAction::SleepMs(STOP_POLL_MS),
            )
        } else {
            (PortStopState::TimedOut, PortStopAction::Nothing)
        },
        PortStopState::Stopped => (PortStopState::Stopped, PortStopAction::Nothing),
        PortStopState::TimedOut => (PortStopState::TimedOut, PortStopAction::Nothing),
    }
}

/// Advances the stop machine on an observed PxCMD value, returning the
/// next state and the action the runtime performs before the next
/// observation.
pub fn stop_step(state: PortStopState, cmd: Command) -> (r: (PortStopState, PortStopAction))
    ensures
        r == spec_stop_step(state, cmd),
{
    match state {
        PortStopState::ClearStart => {
            if cmd.get_st() {
                let mut value = cmd;
                value.set_st(false);
                (
                    PortStopState::AwaitCommandListStop { retries: STOP_RETRIES },
                    PortStopAction::WriteCmd(value),
                )
            } else {
                (
                    PortStopState::AwaitCommandListStop { retries: STOP_RETRIES },
                    PortStopAction::Nothing,
                )
            }
        },
        PortStopState::AwaitCommandListStop { retries } => {
            if !cmd.get_cr() {
                (PortStopState::ClearFisReceive, PortStopAction::Nothing)
            } else if retries > 0 {
                (
                    PortStopState::AwaitCommandListStop { retries: retries - 1 },
                    PortStopAction::SleepMs(STOP_POLL_MS),
                )
            } else {
                (PortStopState::TimedOut, PortStopAction::Nothing)
            }
        },
        PortStopState::ClearFisReceive => {
            if cmd.get_fre() {
                let mut value = cmd;
                value.set_fre(false);
                (
                    PortStopState::AwaitFisReceiveStop { retries: STOP_RETRIES },
                    PortStopAction::WriteCmd(value),
                )
            } else {
                (
                    PortStopState::AwaitFisReceiveStop { retries: STOP_RETRIES },
                    PortStopAction::Nothing,
                )
            }
        },
        PortStopState::AwaitFisReceiveStop { retries } => {
            if !cmd.get_fr() {
                (PortStopState::Stopped, PortStopAction::Nothing)
            } else if retries > 0 {
                (
                    PortStopState::AwaitFisReceiveStop { retries: retries - 1 },
                    PortStopAction::SleepMs(STOP_POLL_MS),
                )
            } else {
                (PortStopState::TimedOut, PortStopAction::Nothing)
            }
        },
        PortStopState::Stopped => (PortStopState::Stopped, PortStopAction::Nothing),
        PortStopState::TimedOut => (PortStopState::TimedOut, PortStopAction::Nothing),
    }
}

/// Stopping an already-stopped port succeeds immediately: when ST, CR,
/// FRE and FR are all observed clear, the machine reaches `Stopped` in
/// four transitions, with no register write and no sleep.
pub proof fn lemma_stop_idempotent(cmd: Command)
    requires
        !cmd.st(),
        !cmd.cr(),
        !cmd.fre(),
        !cmd.fr(),
    ensures
        ({
            let (s1, a1) = spec_stop_step(PortStopState::ClearStart, cmd);
            let (s2, a2) = spec_stop_step(s1, cmd);
            let (s3, a3) = spec_stop_step(s2, cmd);
            let (s4, a4) = spec_stop_step(s3, cmd);
            &&& a1 == PortStopAction::Nothing
            &&& a2 == PortStopAction::Nothing
            &&& a3 == PortStopAction::Nothing
            &&& a4 == PortStopAction::Nothing
            &&& s4 == PortStopState::Stopped
        }),
{
}

/// The sector count words 100 through 103 of an identify result: the
/// 48-bit LBA sector count.
pub open spec fn spec_sectors48(d: Seq<u16>) -> u64 {
    (d[100] as u64) | ((d[101] as u64) << 16) | ((d[102] as u64) << 32) | ((d[103] as u64) << 48)
}

/// The sector count words 60 and 61 of an identify result: the 28-bit
/// LBA sector count.
pub open spec fn spec_sectors28(d: Seq<u16>) -> u64 {
    (d[60] as u64) | ((d[61] as u64) << 16)
}

/// A prepared command submission: the chosen slot, the command header
/// to program into that slot of the command list, and the command
/// table the header's base address must point at.  The runtime copies
/// the table into its DMA page, stores the header, waits for the task
/// file to settle and then sets the slot's command-issue bit.
pub struct PreparedCommand {
    /// The free slot the command was assigned.
    pub slot: u8,
    /// The command header for that slot.
    pub header: CommandListStructure,
    /// The command table the header points at.
    pub table: CommandTable2,
}

/// One port's driver state.
pub struct AhciPort2 {
    /// The index of the owning HBA in the device registry.
    pub hba_idx: usize,
    /// The index of the port within the HBA.
    pub hba_port_idx: usize,
    /// The command list: 32 command header slots.
    pub clb: Vec<CommandListStructure>,
    /// The received-FIS area.
    pub fb: ReceivedFis,
    /// Command slots negotiated with the HBA, 1 to 32.
    pub cmd_slot_count: u8,
    /// The LBA addressing mode after identification: 28 or 48, 0 while
    /// unknown.
    pub lba: u8,
    /// Whether the HBA supports 64-bit addressing.
    pub is_64bit_aware: bool,
    /// The device's byte capacity after identification, 0 while
    /// unknown.
    pub size: u64,
}

impl AhciPort2 {
    /// The command list holds its 32 hardware-fixed slots and the
    /// negotiated slot count is in range.
    pub open spec fn wf(self) -> bool {
        self.clb.len() == 32 && 1 <= self.cmd_slot_count <= 32
    }

    /// Builds the driver state for a port that has been brought into
    /// the stopped state: a zeroed command list, a zeroed received-FIS
    /// area, and no identification result yet.
    pub fn init_memory(
        hba_idx: usize,
        hba_port_idx: usize,
        command_slot_count: u8,
        is_64bit_aware: bool,
    ) -> (r: Self)
        requires
            1 <= command_slot_count <= 32,
        ensures
            r.wf(),
            r.hba_idx == hba_idx,
            r.hba_port_idx == hba_port_idx,
            r.cmd_slot_count == command_slot_count,
            r.is_64bit_aware == is_64bit_aware,
            r.lba == 0,
            r.size == 0,
            forall|i: int|
                0 <= i < 32 ==> (#[trigger] r.clb@[i]).dw0 == 0 && r.clb@[i].prdbc == 0
                    && r.clb@[i].ctba == 0 && r.clb@[i].ctbau == 0,
    {
        let mut clb: Vec<CommandListStructure> = Vec::new();
        let mut i: usize = 0;
        while i < 32
            invariant
                i <= 32,
                clb@.len() == i,
                forall|j: int|
                    0 <= j < i ==> (#[trigger] clb@[j]).dw0 == 0 && clb@[j].prdbc == 0
                        && clb@[j].ctba == 0 && clb@[j].ctbau == 0,
            decreases 32 - i,
        {
            clb.push(CommandListStructure::new());
            i = i + 1;
        }
        Self {
            hba_idx,
            hba_port_idx,
            clb,
            fb: ReceivedFis::default(),
            cmd_slot_count: command_slot_count,
            lba: 0,
            is_64bit_aware,
            size: 0,
        }
    }

    /// The entry state of the bounded stop sequence; the runtime feeds
    /// PxCMD observations through `stop_step` from here.
    pub fn stop() -> (r: PortStopState)
        ensures
            r == PortStopState::ClearStart,
    {
        PortStopState::ClearStart
    }

    /// Whether the port is settled in the stopped state: ST, CR, FRE
    /// and FR all clear.  FRE must be set before ST and cleared after
    /// ST, once CR has been cleared by the device.
    pub fn is_stopped(cmd: Command) -> (r: bool)
        ensures
            r == (!cmd.st() && !cmd.cr() && !cmd.fre() && !cmd.fr()),
    {
        !cmd.get_st() && !cmd.get_cr() && !cmd.get_fre() && !cmd.get_fr()
    }

    /// The PxCMD value that starts the port: FIS receive enable and
    /// start both set, every other bit as observed.
    pub fn start(cmd: Command) -> (r: Command)
        ensures
            r.0 == guarded_write(guarded_write(cmd.0, 4, true), 0, true),
    {
        let mut value = cmd;
        value.set_fre(true);
        value.set_st(true);
        value
    }

    /// Looks for a command slot that is neither issued nor active: a
    /// slot index below the negotiated count whose bit is clear in both
    /// PxCI and PxSACT.  Returns the lowest such index, or nothing when
    /// every slot is busy.
    pub fn find_empty_slot(this: &PortRegister, cmd_slot_count: u8) -> (r: Option<u8>)
        requires
            cmd_slot_count <= 32,
        ensures
            match r {
                Some(i) => i < cmd_slot_count && !bit(this.ci | this.sact, i as u32) && forall|
                    j: u32,
                |
                    j < i ==> bit(this.ci | this.sact, j),
                None => forall|j: u32| j < cmd_slot_count ==> bit(this.ci | this.sact, j),
            },
    {
        let options = this.ci | this.sact;
        let mut i: u8 = 0;
        while i < cmd_slot_count
            invariant
                i <= cmd_slot_count <= 32,
                options == this.ci | this.sact,
                forall|j: u32| j < i ==> bit(options, j),
            decreases cmd_slot_count - i,
        {
            if options & (1u32 << i) == 0 {
                return Some(i);
            }
            i = i + 1;
        }
        None
    }

    /// Prepares a command for submission: picks a free slot, builds the
    /// slot's command header (one PRDT entry, a five-dword command FIS,
    /// the command table's physical address) and the command table (the
    /// serialized FIS and one descriptor covering the data buffer).
    /// Returns nothing when every slot is busy, without preparing
    /// anything; that failure is transient and the caller may retry.
    ///
    /// The buffer must be 2-byte aligned, its length even, non-zero and
    /// within the 22-bit descriptor limit; the command table must be
    /// 128-byte aligned, and must fit in 32 bits unless the HBA is
    /// 64-bit aware.
    pub fn handle_fis(
        &self,
        regs: &PortRegister,
        table_phys: u64,
        buffer_phys: u64,
        buffer_len: u64,
        fis: &RegH2D,
    ) -> (r: Option<PreparedCommand>)
        requires
            self.wf(),
            buffer_phys % 2 == 0,
            buffer_len % 2 == 0,
            2 <= buffer_len <= 0x003f_ffff,
            table_phys % 0x80 == 0,
            !self.is_64bit_aware ==> table_phys <= 0xffff_ffff,
        ensures
            match r {
                None => forall|j: u32| j < self.cmd_slot_count ==> bit(regs.ci | regs.sact, j),
                Some(pc) => {
                    &&& pc.slot < self.cmd_slot_count
                    &&& !bit(regs.ci | regs.sact, pc.slot as u32)
                    &&& pc.header.dw0 == 0x0001_0005u32
                    &&& pc.header.prdtl() == 1
                    &&& pc.header.cfl() == 5
                    &&& pc.header.prdbc == 0
                    &&& pc.header.ctba == lo32(table_phys)
                    &&& pc.header.ctbau == (if self.is_64bit_aware {
                        hi32(table_phys)
                    } else {
                        0u32
                    })
                    &&& pc.table.wf()
                    &&& pc.table.prdt.len() == 1
                    &&& pc.table.prdt@[0].dba == lo32(buffer_phys)
                    &&& pc.table.prdt@[0].dbau == hi32(buffer_phys)
                    &&& !pc.table.prdt@[0].interrupt_on_completion()
                    &&& pc.table.prdt@[0].dbc() + 1 == buffer_len
                    &&& forall|i: int| 0 <= i < 16 ==> pc.table.cfis@[i] == fis.spec_byte(i)
                    &&& forall|i: int| 16 <= i < 64 ==> pc.table.cfis@[i] == 0u8
                    &&& forall|i: int| 0 <= i < 16 ==> pc.table.acmd@[i] == 0u8
                },
            },
    {
        let slot = match Self::find_empty_slot(regs, self.cmd_slot_count) {
            None => {
                return None;
            },
            Some(it) => it,
        };
        proof {
            let m: u32 = (buffer_len - 1) as u32;
            assert(m == buffer_len - 1);
            assert(m % 2 == 1) by (nonlinear_arith)
                requires
                    m == buffer_len - 1,
                    buffer_len % 2 == 0,
                    buffer_len >= 2,
            ;
            assert(((0u32 | m | 1u32) & 0x003f_ffff) == m && ((0u32 | m | 1u32) & (1u32 << 31))
                == 0) by (bit_vector)
                requires
                    m <= 0x003f_ffff,
                    m % 2 == 1,
            ;
            assert((table_phys & 0xffff_ffffu64) % 0x80 == 0 && (table_phys & 0xffff_ffffu64)
                <= 0xffff_ffffu64) by (bit_vector)
                requires
                    table_phys % 0x80 == 0,
            ;
            assert(((table_phys & 0xffff_ffffu64) as u32) % 0x80 == 0);
            assert(((0u32 & 0x0000_ffff) | (1u32 << 16)) == 0x0001_0000u32 && ((0x0001_0000u32
                & 0xffff_ffe0) | 5u32) == 0x0001_0005u32 && ((0x0001_0005u32 >> 16) & 0xffff) == 1
                && (0x0001_0005u32 & 0x1f) == 5) by (bit_vector);
        }
        let mut header = CommandListStructure::new();
        header.set_prdtl(1);
        header.set_cfl(5);
        header.set_ctba((table_phys & 0xffff_ffffu64) as u32);
        if self.is_64bit_aware {
            header.set_ctbau(((table_phys >> 32) & 0xffff_ffffu64) as u32);
        }
        let mut table = CommandTable2::new(1);
        fis.copy_into(&mut table.cfis);
        let entry = PhysicalRegionDescriptorTable::new(
            buffer_phys,
            false,
            (buffer_len - 1) as u32,
        );
        let mut prdt: Vec<PhysicalRegionDescriptorTable> = Vec::new();
        prdt.push(entry);
        table.prdt = prdt;
        Some(PreparedCommand { slot, header, table })
    }

    /// The command-issue bitmap value that launches the command in
    /// `slot`: the single instant hardware begins executing it.
    pub fn ci_value_for_slot(slot: u8) -> (r: u32)
        requires
            slot < 32,
        ensures
            r == 1u32 << slot,
    {
        1u32 << slot
    }

    /// Whether the task file is settled: a device that is mid-transfer
    /// must clear BUSY and DRQ before a new command is issued.
    pub fn tfd_ready(tfd: u32) -> (r: bool)
        ensures
            r == (tfd & 0x88 == 0),
    {
        tfd & 0x88 == 0
    }

    /// Whether the command in `slot` has completed: the hardware clears
    /// the slot's command-issue bit when it finishes.
    pub fn command_complete(ci: u32, slot: u8) -> (r: bool)
        requires
            slot < 32,
        ensures
            r == !bit(ci, slot as u32),
    {
        ci & (1u32 << slot) == 0
    }

    /// The register FIS that requests device identification: the
    /// identify opcode in the command register, the command (not
    /// control) marker, and a sector count of one.
    pub fn build_identify_fis() -> (r: RegH2D)
        ensures
            r == (RegH2D { command: ATA_CMD_IDENTIFY, pmport_cc: 0x80, countl: 1, ..RegH2D::spec_default() }),
    {
        let mut fis = RegH2D::default();
        fis.command = ATA_CMD_IDENTIFY;
        fis.pmport_cc = 0x80;
        fis.countl = 1;
        fis
    }

    /// Returns the identification result to the unknown state, as the
    /// driver does before issuing the identify command; the values stay
    /// there when the submission fails.
    pub fn reset_identify(&mut self)
        ensures
            final(self).lba == 0,
            final(self).size == 0,
            final(self).hba_idx == old(self).hba_idx,
            final(self).hba_port_idx == old(self).hba_port_idx,
            final(self).clb == old(self).clb,
            final(self).fb == old(self).fb,
            final(self).cmd_slot_count == old(self).cmd_slot_count,
            final(self).is_64bit_aware == old(self).is_64bit_aware,
    {
        self.lba = 0;
        self.size = 0;
    }

    /// Decodes a completed identify result and records the device's
    /// addressing mode and byte capacity: the 48-bit sector count of
    /// words 100 through 103 when it is non-zero, else the 28-bit
    /// count of words 60 and 61, each times the 512-byte sector.
    pub fn identify(&mut self, data: &Vec<u16>)
        requires
            data@.len() == 256,
            spec_sectors48(data@) * 512 <= u64::MAX,
        ensures
            spec_sectors48(data@) != 0 ==> final(self).lba == 48 && final(self).size
                == spec_sectors48(data@) * 512,
            spec_sectors48(data@) == 0 ==> final(self).lba == 28 && final(self).size
                == spec_sectors28(data@) * 512,
            final(self).hba_idx == old(self).hba_idx,
            final(self).hba_port_idx == old(self).hba_port_idx,
            final(self).clb == old(self).clb,
            final(self).fb == old(self).fb,
            final(self).cmd_slot_count == old(self).cmd_slot_count,
            final(self).is_64bit_aware == old(self).is_64bit_aware,
    {
        let sectors: u64 = (data[100] as u64) | ((data[101] as u64) << 16) | ((data[102] as u64)
            << 32) | ((data[103] as u64) << 48);
        if sectors == 0 {
            let sectors28: u64 = (data[60] as u64) | ((data[61] as u64) << 16);
            proof {
                let a = data@[60];
                let b = data@[61];
                assert((a as u64) | ((b as u64) << 16) <= 0xffff_ffffu64) by (bit_vector);
            }
            self.lba = 28;
            self.size = sectors28 * 512;
        } else {
            self.lba = 48;
            self.size = sectors * 512;
        }
    }

    /// The write path; only device identification is in scope, so this
    /// checks its precondition and performs no transfer yet.  The
    /// buffer must hold whole 512-byte sectors.
    pub fn write(&mut self, buffer: &Vec<u8>)
        requires
            buffer@.len() % 512 == 0,
    {
    }

    /// The read path; only device identification is in scope, so this
    /// checks its precondition and performs no transfer yet.  The
    /// buffer must hold whole 512-byte sectors.
    pub fn read(&mut self, buffer: &mut Vec<u8>)
        requires
            old(buffer)@.len() % 512 == 0,
    {
    }
}

} // verus!
