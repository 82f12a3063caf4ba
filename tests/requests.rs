use dos_services::{DriveLetter, InputFunction, Registers, ServiceCall};

fn regs(ax: u16, dx: u16) -> Registers {
    Registers { ax, bx: 0, cx: 0, dx, zero_flag: false }
}

#[test]
fn call_clears_all_but_the_selector() {
    assert_eq!(Registers::call(0x19), regs(0x1900, 0));
}

#[test]
fn byte_setters_keep_the_high_byte() {
    let r = Registers { ax: 0x1234, bx: 7, cx: 8, dx: 0xAB00, zero_flag: true };
    let with_al = r.with_al(0x56);
    assert_eq!(with_al.ax, 0x1256);
    assert_eq!(with_al.ah(), 0x12);
    assert_eq!(with_al.al(), 0x56);
    let with_dl = r.with_dl(0xCD);
    assert_eq!(with_dl.dx, 0xABCD);
    assert_eq!(with_dl.dl(), 0xCD);
    assert_eq!(with_dl.bx, 7);
    assert_eq!(with_dl.cx, 8);
    assert!(with_dl.zero_flag);
    assert_eq!(r.with_dx(0x0102).dx, 0x0102);
}

#[test]
fn character_calls_load_dl() {
    assert_eq!(ServiceCall::CharacterOutput { ch: b'x' }.request(), regs(0x0200, 0x78));
    assert_eq!(ServiceCall::AuxiliaryOutput { data: 0x41 }.request(), regs(0x0400, 0x41));
    assert_eq!(ServiceCall::PrinterOutput { ch: 0x0C }.request(), regs(0x0500, 0x0C));
    assert_eq!(ServiceCall::DirectConsoleIo { ch: 0xFF }.request(), regs(0x0600, 0xFF));
    assert_eq!(ServiceCall::ProgramTerminate { psp_address: 3 }.request(), regs(0x0000, 3));
}

#[test]
fn input_calls_load_only_the_selector() {
    assert_eq!(ServiceCall::CharacterInput.request(), regs(0x0100, 0));
    assert_eq!(ServiceCall::WaitForAuxiliaryInput.request(), regs(0x0300, 0));
    assert_eq!(ServiceCall::DirectConsoleInputWithoutEcho.request(), regs(0x0700, 0));
    assert_eq!(ServiceCall::ConsoleInputWithoutEcho.request(), regs(0x0800, 0));
    assert_eq!(ServiceCall::GetInputStatus.request(), regs(0x0B00, 0));
    assert_eq!(ServiceCall::DiskReset.request(), regs(0x0D00, 0));
    assert_eq!(ServiceCall::GetDefaultDrive.request(), regs(0x1900, 0));
    assert_eq!(ServiceCall::GetAllocationInfoForDefaultDrive.request(), regs(0x1B00, 0));
    assert_eq!(ServiceCall::GetDiskParameterBlockForDefaultDrive.request(), regs(0x1F00, 0));
}

#[test]
fn address_calls_load_dx() {
    assert_eq!(ServiceCall::DisplayString { string: 0x1234 }.request(), regs(0x0900, 0x1234));
    assert_eq!(ServiceCall::BufferedKeyboardInput { buffer: 0x0200 }.request(), regs(0x0A00, 0x0200));
    assert_eq!(ServiceCall::SetDiskTransferAddress { dta: 0x0080 }.request(), regs(0x1A00, 0x0080));
    let fcb = 0xBEEF;
    let expected = [
        (ServiceCall::OpenFile { fcb }, 0x0F),
        (ServiceCall::CloseFile { fcb }, 0x10),
        (ServiceCall::FindFirstFile { fcb }, 0x11),
        (ServiceCall::FindNextFile { fcb }, 0x12),
        (ServiceCall::DeleteFile { fcb }, 0x13),
        (ServiceCall::SequentialRead { fcb }, 0x14),
        (ServiceCall::SequentialWrite { fcb }, 0x15),
        (ServiceCall::CreateOrTruncateFile { fcb }, 0x16),
        (ServiceCall::RenameFile { fcb }, 0x17),
        (ServiceCall::RandomRead { fcb }, 0x21),
        (ServiceCall::RandomWrite { fcb }, 0x22),
        (ServiceCall::GetFileSizeInRecords { fcb }, 0x23),
        (ServiceCall::SetRandomRecordNumber { fcb }, 0x24),
    ];
    for (call, function) in expected {
        assert_eq!(call.request(), regs((function as u16) << 8, fcb));
    }
}

#[test]
fn flush_loads_the_input_function_in_al() {
    let expected = [
        (InputFunction::CharacterInput, 0x0C01),
        (InputFunction::DirectConsoleIO, 0x0C06),
        (InputFunction::DirectConsoleInputWithoutEcho, 0x0C07),
        (InputFunction::CharacterInputWithoutEcho, 0x0C08),
        (InputFunction::BufferedKeyboardInput, 0x0C0A),
    ];
    for (input, ax) in expected {
        assert_eq!(ServiceCall::FlushInputBufferAndInput { input }.request(), regs(ax, 0));
    }
}

#[test]
fn set_default_drive_counts_from_zero() {
    assert_eq!(ServiceCall::SetDefaultDrive { drive: DriveLetter::A }.request(), regs(0x0E00, 0));
    assert_eq!(ServiceCall::SetDefaultDrive { drive: DriveLetter::C }.request(), regs(0x0E00, 2));
    assert_eq!(ServiceCall::SetDefaultDrive { drive: DriveLetter::Unknown }.request(), regs(0x0E00, 26));
}

#[test]
fn allocation_info_for_specified_drive_counts_from_one() {
    let a = ServiceCall::GetAllocationInfoForSpecifiedDrive { drive: DriveLetter::A };
    assert_eq!(a.request(), regs(0x1C00, 1));
    let z = ServiceCall::GetAllocationInfoForSpecifiedDrive { drive: DriveLetter::Z };
    assert_eq!(z.request(), regs(0x1C00, 26));
}

#[test]
fn with_ah_keeps_al_and_the_other_registers() {
    let r = Registers { ax: 0x1234, bx: 1, cx: 2, dx: 3, zero_flag: true };
    let s = r.with_ah(0x4C);
    assert_eq!(s, Registers { ax: 0x4C34, bx: 1, cx: 2, dx: 3, zero_flag: true });
}
