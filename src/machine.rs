use vstd::prelude::*;

use crate::drive::{decoded_drive, drive_index, DriveLetter};
use crate::records::DriveAllocationInfo;
use crate::registers::{high_byte, low_byte, word, Registers};
use crate::service::{request_registers, ServiceCall, INVALID_DRIVE};

verus! {

/// An interrupt handler that stands in for DOS where no DOS runs: it keeps
/// a default drive among `drive_count` drives that all share one geometry,
/// answers services 0Eh, 19h, 1Bh and 1Ch as DOS does, and hands every
/// other request back untouched.
#[derive(Clone, Copy, Debug, PartialEq, Eq, Structural)]
pub struct SimulatedDos {
    /// Code of the default drive (0 is A:).
    pub default_drive: u8,
    /// Number of logical drives, from A: on.
    pub drive_count: u8,
    /// What services 1Bh and 1Ch report for every existing drive.
    pub geometry: DriveAllocationInfo,
}

impl SimulatedDos {
    /// A default drive that exists, at most 26 drives, and a geometry whose
    /// first byte cannot be mistaken for the invalid-drive mark.
    pub open spec fn wf(&self) -> bool {
        &&& 1 <= self.drive_count <= 26
        &&& self.default_drive < self.drive_count
        &&& self.geometry.sector_num != INVALID_DRIVE
    }

    /// The drive code that a request for service 1Ch names (DL counted from
    /// 1, with 0 for the default drive).
    pub open spec fn specified_drive(&self, dl: u8) -> int {
        if dl == 0 {
            self.default_drive as int
        } else {
            dl - 1
        }
    }

    /// The allocation answer for drive code `drive`: the geometry, or the
    /// invalid-drive mark in AL.
    pub open spec fn allocation_answer(&self, regs: Registers, drive: int) -> Registers {
        if 0 <= drive < self.drive_count {
            Registers {
                ax: word(high_byte(regs.ax), self.geometry.sector_num),
                bx: self.geometry.fat_id_addr,
                cx: self.geometry.sector_size,
                dx: self.geometry.number_of_clusters,
                ..regs
            }
        } else {
            Registers { ax: word(high_byte(regs.ax), INVALID_DRIVE), ..regs }
        }
    }

    /// The handler's state after `regs` and the registers it answers with.
    /// Service 0Eh moves the default drive when DL names an existing drive
    /// and answers with the number of drives; 19h answers with the default
    /// drive.
    pub open spec fn serviced(self, regs: Registers) -> (SimulatedDos, Registers) {
        let function = high_byte(regs.ax);
        if function == 0x0E {
            let drive = low_byte(regs.dx);
            let next = if drive < self.drive_count {
                SimulatedDos { default_drive: drive, ..self }
            } else {
                self
            };
            (next, Registers { ax: word(0x0E, self.drive_count), ..regs })
        } else if function == 0x19 {
            (self, Registers { ax: word(0x19, self.default_drive), ..regs })
        } else if function == 0x1B {
            (self, self.allocation_answer(regs, self.default_drive as int))
        } else if function == 0x1C {
            (self, self.allocation_answer(regs, self.specified_drive(low_byte(regs.dx))))
        } else {
            (self, regs)
        }
    }

    /// A handler with `drive_count` drives of the given geometry and A: as
    /// the default drive; none when the drive count is not 1 to 26 or the
    /// geometry's sector count is the invalid-drive mark.
    pub fn new(drive_count: u8, geometry: DriveAllocationInfo) -> (r: Option<SimulatedDos>)
        ensures
            r is Some <==> (1 <= drive_count <= 26 && geometry.sector_num != INVALID_DRIVE),
            r matches Some(dos) ==> {
                &&& dos.wf()
                &&& dos.default_drive == 0
                &&& dos.drive_count == drive_count
                &&& dos.geometry == geometry
            },
    {
        if 1 <= drive_count && drive_count <= 26 && geometry.sector_num != INVALID_DRIVE {
            Some(SimulatedDos { default_drive: 0, drive_count, geometry })
        } else {
            None
        }
    }

    fn allocation(&self, regs: &Registers, drive: u8) -> (r: Registers)
        ensures
            r == self.allocation_answer(*regs, drive as int),
    {
        let function = regs.ah();
        if drive < self.drive_count {
            Registers {
                ax: word_of(function, self.geometry.sector_num),
                bx: self.geometry.fat_id_addr,
                cx: self.geometry.sector_size,
                dx: self.geometry.number_of_clusters,
                zero_flag: regs.zero_flag,
            }
        } else {
            Registers { ax: word_of(function, INVALID_DRIVE), ..*regs }
        }
    }

    /// Answers one raised interrupt.
    pub fn service(&mut self, regs: &Registers) -> (out: Registers)
        requires
            old(self).wf(),
        ensures
            final(self).wf(),
            (*final(self), out) == old(self).serviced(*regs),
    {
        let function = regs.ah();
        if function == 0x0E {
            let drive = regs.dl();
            if drive < self.drive_count {
                self.default_drive = drive;
            }
            let count = self.drive_count;
            Registers { ax: word_of(0x0E, count), ..*regs }
        } else if function == 0x19 {
            Registers { ax: word_of(0x19, self.default_drive), ..*regs }
        } else if function == 0x1B {
            self.allocation(regs, self.default_drive)
        } else if function == 0x1C {
            let dl = regs.dl();
            if dl == 0 {
                self.allocation(regs, self.default_drive)
            } else {
                self.allocation(regs, dl - 1)
            }
        } else {
            *regs
        }
    }
}

fn word_of(hi: u8, lo: u8) -> (r: u16)
    ensures
        r == word(hi, lo),
{
    hi as u16 * 256 + lo as u16
}

/// Service calls that only ask: they leave DOS as it was.
pub open spec fn is_query(c: ServiceCall) -> bool {
    ||| c == ServiceCall::GetDefaultDrive
    ||| c == ServiceCall::GetAllocationInfoForDefaultDrive
    ||| c is GetAllocationInfoForSpecifiedDrive
    ||| c == ServiceCall::GetDiskParameterBlockForDefaultDrive
}

/// Asking the same query twice in a row gives the same registers both
/// times, and neither asking changes the handler's state; so whatever the
/// answer decodes to, it decodes to the same value twice.
pub proof fn lemma_query_idempotent(dos: SimulatedDos, c: ServiceCall)
    requires
        dos.wf(),
        is_query(c),
    ensures
        ({
            let (first_state, first) = dos.serviced(request_registers(c));
            let (second_state, second) = first_state.serviced(request_registers(c));
            &&& first_state == dos
            &&& second_state == dos
            &&& first == second
            &&& decoded_drive(low_byte(first.ax)) == decoded_drive(low_byte(second.ax))
        }),
{
}

/// Setting an existing drive as the default and then asking for the default
/// drive reports that drive.
pub proof fn lemma_set_then_get_default_drive(dos: SimulatedDos, drive: DriveLetter)
    requires
        dos.wf(),
        drive_index(drive) < dos.drive_count,
    ensures
        ({
            let (after_set, _) = dos.serviced(
                request_registers(ServiceCall::SetDefaultDrive { drive }),
            );
            let (after_get, answer) = after_set.serviced(
                request_registers(ServiceCall::GetDefaultDrive),
            );
            &&& after_set.wf()
            &&& after_get == after_set
            &&& decoded_drive(low_byte(answer.ax)) == drive
        }),
{
    crate::drive::lemma_drive_code_round_trip(drive);
}

} // verus!
