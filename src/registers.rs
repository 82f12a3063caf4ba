use vstd::prelude::*;

verus! {

/// The high byte of a 16-bit register (AH of AX, DH of DX, ...).
pub open spec fn high_byte(w: u16) -> u8 {
    (w / 256) as u8
}

/// The low byte of a 16-bit register (AL of AX, DL of DX, ...).
pub open spec fn low_byte(w: u16) -> u8 {
    (w % 256) as u8
}

/// The 16-bit register whose high byte is `hi` and whose low byte is `lo`.
pub open spec fn word(hi: u8, lo: u8) -> u16 {
    (hi * 256 + lo) as u16
}

/// The part of the processor state that a DOS service call reads or writes:
/// the four general-purpose registers and the zero flag as it stood right
/// after the interrupt returned.
#[derive(Clone, Copy, Debug, PartialEq, Eq, Structural)]
pub struct Registers {
    pub ax: u16,
    pub bx: u16,
    pub cx: u16,
    pub dx: u16,
    pub zero_flag: bool,
}

impl Registers {
    /// Registers that select service `function` (in AH), with every other
    /// register and the flag cleared.
    pub fn call(function: u8) -> (r: Registers)
        ensures
            r.ax == word(function, 0),
            r.bx == 0,
            r.cx == 0,
            r.dx == 0,
            !r.zero_flag,
    {
        Registers { ax: function as u16 * 256, bx: 0, cx: 0, dx: 0, zero_flag: false }
    }

    /// The same registers with AH replaced by `function`; AL is kept. For
    /// services whose operands the caller loads itself.
    pub fn with_ah(self, function: u8) -> (r: Registers)
        ensures
            r.ax == word(function, low_byte(self.ax)),
            r.bx == self.bx,
            r.cx == self.cx,
            r.dx == self.dx,
            r.zero_flag == self.zero_flag,
    {
        Registers { ax: function as u16 * 256 + self.ax % 256, ..self }
    }

    /// The same registers with AL replaced by `value`; AH is kept.
    pub fn with_al(self, value: u8) -> (r: Registers)
        ensures
            r.ax == word(high_byte(self.ax), value),
            r.bx == self.bx,
            r.cx == self.cx,
            r.dx == self.dx,
            r.zero_flag == self.zero_flag,
    {
        Registers { ax: (self.ax / 256) * 256 + value as u16, ..self }
    }

    /// The same registers with DL replaced by `value`; DH is kept.
    pub fn with_dl(self, value: u8) -> (r: Registers)
        ensures
            r.dx == word(high_byte(self.dx), value),
            r.ax == self.ax,
            r.bx == self.bx,
            r.cx == self.cx,
            r.zero_flag == self.zero_flag,
    {
        Registers { dx: (self.dx / 256) * 256 + value as u16, ..self }
    }

    /// The same registers with DX replaced by `value` (an offset in the data
    /// segment, for the services that take an address).
    pub fn with_dx(self, value: u16) -> (r: Registers)
        ensures
            r.dx == value,
            r.ax == self.ax,
            r.bx == self.bx,
            r.cx == self.cx,
            r.zero_flag == self.zero_flag,
    {
        Registers { dx: value, ..self }
    }

    /// AH: the service selector.
    pub fn ah(&self) -> (r: u8)
        ensures
            r == high_byte(self.ax),
    {
        (self.ax / 256) as u8
    }

    /// AL: the byte most services return.
    pub fn al(&self) -> (r: u8)
        ensures
            r == low_byte(self.ax),
    {
        (self.ax % 256) as u8
    }

    /// DL: the byte argument of the services that take one.
    pub fn dl(&self) -> (r: u8)
        ensures
            r == low_byte(self.dx),
    {
        (self.dx % 256) as u8
    }
}

} // verus!
