use vstd::prelude::*;

verus! {

/// The standard-input services that service 0Ch may run once it has
/// flushed the input buffer.
#[derive(Clone, Copy, Debug, PartialEq, Eq, Structural)]
pub enum InputFunction {
    /// Service 01h: read a character with echo.
    CharacterInput,
    /// Service 06h: direct console input.
    DirectConsoleIO,
    /// Service 07h: direct console input without echo.
    DirectConsoleInputWithoutEcho,
    /// Service 08h: console input without echo.
    CharacterInputWithoutEcho,
    /// Service 0Ah: buffered keyboard input, which answers through the
    /// caller's buffer rather than AL.
    BufferedKeyboardInput,
}

/// The service number that selects `f` (passed in AL).
pub open spec fn input_function_number(f: InputFunction) -> u8 {
    match f {
        InputFunction::CharacterInput => 0x01,
        InputFunction::DirectConsoleIO => 0x06,
        InputFunction::DirectConsoleInputWithoutEcho => 0x07,
        InputFunction::CharacterInputWithoutEcho => 0x08,
        InputFunction::BufferedKeyboardInput => 0x0A,
    }
}

impl InputFunction {
    /// The service number of this input function.
    pub fn number(&self) -> (r: u8)
        ensures
            r == input_function_number(*self),
    {
        match self {
            InputFunction::CharacterInput => 0x01,
            InputFunction::DirectConsoleIO => 0x06,
            InputFunction::DirectConsoleInputWithoutEcho => 0x07,
            InputFunction::CharacterInputWithoutEcho => 0x08,
            InputFunction::BufferedKeyboardInput => 0x0A,
        }
    }
}

/// Allocation information of a drive, as services 1Bh and 1Ch return it.
#[derive(Clone, Copy, Debug, PartialEq, Eq, Structural)]
pub struct DriveAllocationInfo {
    /// Sectors per cluster (AL).
    pub sector_num: u8,
    /// Offset of the FAT identification byte (BX), in the segment that DOS
    /// leaves in DS.
    pub fat_id_addr: u16,
    /// Bytes per sector (CX).
    pub sector_size: u16,
    /// Number of clusters on the drive (DX).
    pub number_of_clusters: u16,
}

/// Disk parameters of the default drive, as service 1Fh returns them.
#[derive(Clone, Copy, Debug, PartialEq, Eq, Structural)]
pub struct DiskParameterBlock {
    /// CX.
    pub bytes_per_sector: u16,
    /// DX.
    pub cluster_num: u16,
    /// BX.
    pub media_id_byte: u16,
}

} // verus!
