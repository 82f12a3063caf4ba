use vstd::prelude::*;

use crate::drive::{decoded_drive, drive_index, DriveLetter};
use crate::records::{input_function_number, DiskParameterBlock, DriveAllocationInfo, InputFunction};
use crate::registers::{low_byte, word, Registers};

verus! {

/// One DOS service call with its arguments. Addresses are offsets in the
/// caller's data segment; the memory behind them belongs to the caller and
/// must stay in place for as long as DOS works on it.
#[derive(Clone, Copy, Debug, PartialEq, Eq, Structural)]
pub enum ServiceCall {
    /// 00h: terminate the program whose PSP segment is given.
    ProgramTerminate { psp_address: u8 },
    /// 01h: read a character from standard input, with echo.
    CharacterInput,
    /// 02h: write a character to standard output.
    CharacterOutput { ch: u8 },
    /// 03h: read a character from the auxiliary device.
    WaitForAuxiliaryInput,
    /// 04h: write a character to the auxiliary device.
    AuxiliaryOutput { data: u8 },
    /// 05h: write a character to the printer.
    PrinterOutput { ch: u8 },
    /// 06h: direct console input (with `ch` = FFh) or output.
    DirectConsoleIo { ch: u8 },
    /// 07h: read a character without echo, ignoring CTRL-C.
    DirectConsoleInputWithoutEcho,
    /// 08h: read a character without echo.
    ConsoleInputWithoutEcho,
    /// 09h: write the `$`-terminated string at `string`.
    DisplayString { string: u16 },
    /// 0Ah: read a line into the buffer at `buffer`.
    BufferedKeyboardInput { buffer: u16 },
    /// 0Bh: ask whether a character is waiting.
    GetInputStatus,
    /// 0Ch: flush the input buffer, then run `input`.
    FlushInputBufferAndInput { input: InputFunction },
    /// 0Dh: write all file buffers to disk.
    DiskReset,
    /// 0Eh: make `drive` the default drive.
    SetDefaultDrive { drive: DriveLetter },
    /// 0Fh: open the file that the FCB at `fcb` names.
    OpenFile { fcb: u16 },
    /// 10h: close the file of the FCB at `fcb`.
    CloseFile { fcb: u16 },
    /// 11h: find the first file matching the FCB at `fcb`.
    FindFirstFile { fcb: u16 },
    /// 12h: find the next file matching the FCB at `fcb`.
    FindNextFile { fcb: u16 },
    /// 13h: delete the files matching the FCB at `fcb`.
    DeleteFile { fcb: u16 },
    /// 14h: read the next record of an opened FCB.
    SequentialRead { fcb: u16 },
    /// 15h: write the next record of an opened FCB.
    SequentialWrite { fcb: u16 },
    /// 16h: create or truncate the file of an unopened FCB.
    CreateOrTruncateFile { fcb: u16 },
    /// 17h: rename through the special FCB at `fcb`.
    RenameFile { fcb: u16 },
    /// 19h: ask for the default drive.
    GetDefaultDrive,
    /// 1Ah: make `dta` the disk transfer address.
    SetDiskTransferAddress { dta: u16 },
    /// 1Bh: allocation information of the default drive.
    GetAllocationInfoForDefaultDrive,
    /// 1Ch: allocation information of `drive`.
    GetAllocationInfoForSpecifiedDrive { drive: DriveLetter },
    /// 1Fh: disk parameters of the default drive.
    GetDiskParameterBlockForDefaultDrive,
    /// 21h: read the record that an opened FCB selects.
    RandomRead { fcb: u16 },
    /// 22h: write the record that an opened FCB selects.
    RandomWrite { fcb: u16 },
    /// 23h: file size in records of an opened FCB.
    GetFileSizeInRecords { fcb: u16 },
    /// 24h: set the random record field of an opened FCB.
    SetRandomRecordNumber { fcb: u16 },
}

/// The service number that `c` loads into AH.
pub open spec fn selector(c: ServiceCall) -> u8 {
    match c {
        ServiceCall::ProgramTerminate { .. } => 0x00,
        ServiceCall::CharacterInput => 0x01,
        ServiceCall::CharacterOutput { .. } => 0x02,
        ServiceCall::WaitForAuxiliaryInput => 0x03,
        ServiceCall::AuxiliaryOutput { .. } => 0x04,
        ServiceCall::PrinterOutput { .. } => 0x05,
        ServiceCall::DirectConsoleIo { .. } => 0x06,
        ServiceCall::DirectConsoleInputWithoutEcho => 0x07,
        ServiceCall::ConsoleInputWithoutEcho => 0x08,
        ServiceCall::DisplayString { .. } => 0x09,
        ServiceCall::BufferedKeyboardInput { .. } => 0x0A,
        ServiceCall::GetInputStatus => 0x0B,
        ServiceCall::FlushInputBufferAndInput { .. } => 0x0C,
        ServiceCall::DiskReset => 0x0D,
        ServiceCall::SetDefaultDrive { .. } => 0x0E,
        ServiceCall::OpenFile { .. } => 0x0F,
        ServiceCall::CloseFile { .. } => 0x10,
        ServiceCall::FindFirstFile { .. } => 0x11,
        ServiceCall::FindNextFile { .. } => 0x12,
        ServiceCall::DeleteFile { .. } => 0x13,
        ServiceCall::SequentialRead { .. } => 0x14,
        ServiceCall::SequentialWrite { .. } => 0x15,
        ServiceCall::CreateOrTruncateFile { .. } => 0x16,
        ServiceCall::RenameFile { .. } => 0x17,
        ServiceCall::GetDefaultDrive => 0x19,
        ServiceCall::SetDiskTransferAddress { .. } => 0x1A,
        ServiceCall::GetAllocationInfoForDefaultDrive => 0x1B,
        ServiceCall::GetAllocationInfoForSpecifiedDrive { .. } => 0x1C,
        ServiceCall::GetDiskParameterBlockForDefaultDrive => 0x1F,
        ServiceCall::RandomRead { .. } => 0x21,
        ServiceCall::RandomWrite { .. } => 0x22,
        ServiceCall::GetFileSizeInRecords { .. } => 0x23,
        ServiceCall::SetRandomRecordNumber { .. } => 0x24,
    }
}

/// What `c` loads into AL besides its selector: only service 0Ch has an
/// operand there, the number of the input function to run.
pub open spec fn al_operand(c: ServiceCall) -> u8 {
    match c {
        ServiceCall::FlushInputBufferAndInput { input } => input_function_number(input),
        _ => 0,
    }
}

/// What `c` loads into DX: a byte operand goes to DL (with DH clear), an
/// address fills DX. Service 1Ch counts drives from 1, since its 0 means
/// the default drive; service 0Eh counts them from 0.
pub open spec fn dx_operand(c: ServiceCall) -> u16 {
    match c {
        ServiceCall::ProgramTerminate { psp_address } => psp_address as u16,
        ServiceCall::CharacterOutput { ch } => ch as u16,
        ServiceCall::AuxiliaryOutput { data } => data as u16,
        ServiceCall::PrinterOutput { ch } => ch as u16,
        ServiceCall::DirectConsoleIo { ch } => ch as u16,
        ServiceCall::DisplayString { string } => string,
        ServiceCall::BufferedKeyboardInput { buffer } => buffer,
        ServiceCall::SetDefaultDrive { drive } => drive_index(drive) as u16,
        ServiceCall::OpenFile { fcb } => fcb,
        ServiceCall::CloseFile { fcb } => fcb,
        ServiceCall::FindFirstFile { fcb } => fcb,
        ServiceCall::FindNextFile { fcb } => fcb,
        ServiceCall::DeleteFile { fcb } => fcb,
        ServiceCall::SequentialRead { fcb } => fcb,
        ServiceCall::SequentialWrite { fcb } => fcb,
        ServiceCall::CreateOrTruncateFile { fcb } => fcb,
        ServiceCall::RenameFile { fcb } => fcb,
        ServiceCall::SetDiskTransferAddress { dta } => dta,
        ServiceCall::GetAllocationInfoForSpecifiedDrive { drive } => (drive_index(drive) + 1) as u16,
        ServiceCall::RandomRead { fcb } => fcb,
        ServiceCall::RandomWrite { fcb } => fcb,
        ServiceCall::GetFileSizeInRecords { fcb } => fcb,
        ServiceCall::SetRandomRecordNumber { fcb } => fcb,
        _ => 0,
    }
}

/// The registers that raise service call `c`: selector in AH, operands in
/// AL and DX, everything else clear.
pub open spec fn request_registers(c: ServiceCall) -> Registers {
    Registers { ax: word(selector(c), al_operand(c)), bx: 0, cx: 0, dx: dx_operand(c), zero_flag: false }
}

impl ServiceCall {
    /// Loads the registers for this call.
    pub fn request(&self) -> (r: Registers)
        ensures
            r == request_registers(*self),
    {
        match *self {
            ServiceCall::ProgramTerminate { psp_address } => Registers::call(0x00).with_dl(psp_address),
            ServiceCall::CharacterInput => Registers::call(0x01),
            ServiceCall::CharacterOutput { ch } => Registers::call(0x02).with_dl(ch),
            ServiceCall::WaitForAuxiliaryInput => Registers::call(0x03),
            ServiceCall::AuxiliaryOutput { data } => Registers::call(0x04).with_dl(data),
            ServiceCall::PrinterOutput { ch } => Registers::call(0x05).with_dl(ch),
            ServiceCall::DirectConsoleIo { ch } => Registers::call(0x06).with_dl(ch),
            ServiceCall::DirectConsoleInputWithoutEcho => Registers::call(0x07),
            ServiceCall::ConsoleInputWithoutEcho => Registers::call(0x08),
            ServiceCall::DisplayString { string } => Registers::call(0x09).with_dx(string),
            ServiceCall::BufferedKeyboardInput { buffer } => Registers::call(0x0A).with_dx(buffer),
            ServiceCall::GetInputStatus => Registers::call(0x0B),
            ServiceCall::FlushInputBufferAndInput { input } => Registers::call(0x0C).with_al(input.number()),
            ServiceCall::DiskReset => Registers::call(0x0D),
            ServiceCall::SetDefaultDrive { drive } => Registers::call(0x0E).with_dl(drive.code()),
            ServiceCall::OpenFile { fcb } => Registers::call(0x0F).with_dx(fcb),
            ServiceCall::CloseFile { fcb } => Registers::call(0x10).with_dx(fcb),
            ServiceCall::FindFirstFile { fcb } => Registers::call(0x11).with_dx(fcb),
            ServiceCall::FindNextFile { fcb } => Registers::call(0x12).with_dx(fcb),
            ServiceCall::DeleteFile { fcb } => Registers::call(0x13).with_dx(fcb),
            ServiceCall::SequentialRead { fcb } => Registers::call(0x14).with_dx(fcb),
            ServiceCall::SequentialWrite { fcb } => Registers::call(0x15).with_dx(fcb),
            ServiceCall::CreateOrTruncateFile { fcb } => Registers::call(0x16).with_dx(fcb),
            ServiceCall::RenameFile { fcb } => Registers::call(0x17).with_dx(fcb),
            ServiceCall::GetDefaultDrive => Registers::call(0x19),
            ServiceCall::SetDiskTransferAddress { dta } => Registers::call(0x1A).with_dx(dta),
            ServiceCall::GetAllocationInfoForDefaultDrive => Registers::call(0x1B),
            ServiceCall::GetAllocationInfoForSpecifiedDrive { drive } => {
                Registers::call(0x1C).with_dl(drive.code() + 1)
            },
            ServiceCall::GetDiskParameterBlockForDefaultDrive => Registers::call(0x1F),
            ServiceCall::RandomRead { fcb } => Registers::call(0x21).with_dx(fcb),
            ServiceCall::RandomWrite { fcb } => Registers::call(0x22).with_dx(fcb),
            ServiceCall::GetFileSizeInRecords { fcb } => Registers::call(0x23).with_dx(fcb),
            ServiceCall::SetRandomRecordNumber { fcb } => Registers::call(0x24).with_dx(fcb),
        }
    }
}

/// The byte in AL after a service that answers with one byte and nothing
/// else (01h, 03h, 07h, 08h, 0Bh, 21h to 24h). DOS gives it no further
/// meaning at this level: a status byte is handed on as it came.
pub fn returned_byte(out: &Registers) -> (r: u8)
    ensures
        r == low_byte(out.ax),
{
    out.al()
}

/// The answer of service 06h: the character in AL, and whether the zero
/// flag was set right after the interrupt (set: no character was ready).
pub fn direct_console_io_result(out: &Registers) -> (r: (u8, bool))
    ensures
        r.0 == low_byte(out.ax),
        r.1 == out.zero_flag,
{
    (out.al(), out.zero_flag)
}

/// The answer of service 0Ch after it ran `input`: none for buffered
/// keyboard input, which answers through the caller's buffer, and the
/// character in AL for the four others.
pub fn flush_input_buffer_and_input_result(input: InputFunction, out: &Registers) -> (r: Option<
    u8,
>)
    ensures
        input == InputFunction::BufferedKeyboardInput <==> r is None,
        r matches Some(ch) ==> ch == low_byte(out.ax),
{
    match input {
        InputFunction::BufferedKeyboardInput => None,
        _ => Some(out.al()),
    }
}

/// The answer of service 19h: the default drive, decoded from AL.
pub fn default_drive_result(out: &Registers) -> (r: DriveLetter)
    ensures
        r == decoded_drive(low_byte(out.ax)),
{
    DriveLetter::decode(out.al())
}

/// AL holds this after services 1Bh and 1Ch when the drive is invalid.
pub const INVALID_DRIVE: u8 = 0xFF;

/// The answer of services 1Bh and 1Ch: none when AL holds the invalid-drive
/// mark, else the four result registers as they came.
pub fn allocation_info_result(out: &Registers) -> (r: Option<DriveAllocationInfo>)
    ensures
        low_byte(out.ax) == INVALID_DRIVE <==> r is None,
        r matches Some(info) ==> {
            &&& info.sector_num == low_byte(out.ax)
            &&& info.fat_id_addr == out.bx
            &&& info.sector_size == out.cx
            &&& info.number_of_clusters == out.dx
        },
{
    let sectors = out.al();
    if sectors == INVALID_DRIVE {
        None
    } else {
        Some(
            DriveAllocationInfo {
                sector_num: sectors,
                fat_id_addr: out.bx,
                sector_size: out.cx,
                number_of_clusters: out.dx,
            },
        )
    }
}

/// The answer of service 1Fh, read from CX, DX and BX.
pub fn disk_parameter_block_result(out: &Registers) -> (r: DiskParameterBlock)
    ensures
        r.bytes_per_sector == out.cx,
        r.cluster_num == out.dx,
        r.media_id_byte == out.bx,
{
    DiskParameterBlock { bytes_per_sector: out.cx, cluster_num: out.dx, media_id_byte: out.bx }
}

} // verus!
