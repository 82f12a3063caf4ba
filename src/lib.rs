//! Typed access to the DOS service-call interface (software interrupt 21h).
//!
//! Every service is one round trip through the processor registers: the
//! library loads a [`Registers`] value for a [`ServiceCall`], whoever owns the
//! machine raises the interrupt, and the library decodes the registers that
//! came back into a typed result. The register layouts and the decoding rules
//! are stated and proved here; raising the interrupt is left to the caller.
//! [`SimulatedDos`] answers the drive services in place of DOS, so that
//! sequences of calls can be run and reasoned about without a DOS machine.

pub mod blocks;
pub mod drive;
pub mod machine;
pub mod records;
pub mod registers;
pub mod service;

pub use blocks::{DiskTransferArea, FileControlBlock};
pub use drive::DriveLetter;
pub use machine::SimulatedDos;
pub use records::{DiskParameterBlock, DriveAllocationInfo, InputFunction};
pub use registers::Registers;
pub use service::{
    allocation_info_result, default_drive_result, direct_console_io_result,
    disk_parameter_block_result, flush_input_buffer_and_input_result, returned_byte, ServiceCall,
};
