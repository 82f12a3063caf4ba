use vstd::prelude::*;

use crate::drive::{drive_index, DriveLetter};

verus! {

/// The little-endian 16-bit value stored at `at` in `b`.
pub open spec fn le16(b: Seq<u8>, at: int) -> int {
    b[at] + 256 * b[at + 1]
}

/// The little-endian 24-bit value stored at `at` in `b`.
pub open spec fn le24(b: Seq<u8>, at: int) -> int {
    le16(b, at) + 65536 * b[at + 2]
}

/// The little-endian 32-bit value stored at `at` in `b`.
pub open spec fn le32(b: Seq<u8>, at: int) -> int {
    le16(b, at) + 65536 * le16(b, at + 2)
}

/// The first byte of a file control block: 0 for the default drive, else
/// the drive counted from 1 (A: is 1).
pub open spec fn fcb_drive_byte(drive: Option<DriveLetter>) -> u8 {
    match drive {
        None => 0,
        Some(d) => (drive_index(d) + 1) as u8,
    }
}

/// A file control block: the 36 bytes through which the FCB services (0Fh
/// to 17h, 21h to 24h) name a file and keep its position. DOS reads and
/// writes them in place, at the address the call passes in DX.
///
/// Layout: drive (0), name (1, eight bytes padded with spaces), extension
/// (9, three bytes), current block (12), record size (14), file size (16,
/// four bytes), date (20), time (22), reserved (24, eight bytes), current
/// record (32, one byte), random record (33, three bytes). Multi-byte
/// fields are little-endian.
#[derive(Clone, Copy, Debug)]
pub struct FileControlBlock {
    pub bytes: [u8; 36],
}

fn read_le16(b: &[u8], at: usize) -> (r: u16)
    requires
        at + 1 < b@.len(),
    ensures
        r == le16(b@, at as int),
{
    b[at] as u16 + b[at + 1] as u16 * 256
}

fn read_le32(b: &[u8], at: usize) -> (r: u32)
    requires
        at + 3 < b@.len() <= usize::MAX,
    ensures
        r == le32(b@, at as int),
{
    let low = read_le16(b, at) as u32;
    let high = read_le16(b, at + 2) as u32;
    low + high * 65536
}

impl FileControlBlock {
    /// An unopened block for the file `name`.`extension` on `drive` (`None`
    /// for the default drive), every other field zero.
    pub fn new(drive: Option<DriveLetter>, name: [u8; 8], extension: [u8; 3]) -> (r:
        FileControlBlock)
        ensures
            r.bytes@[0] == fcb_drive_byte(drive),
            r.bytes@.subrange(1, 9) == name@,
            r.bytes@.subrange(9, 12) == extension@,
            forall|i: int| 12 <= i < 36 ==> r.bytes@[i] == 0,
    {
        let mut bytes = [0u8; 36];
        bytes[0] = match drive {
            None => 0,
            Some(d) => d.code() + 1,
        };
        let mut i: usize = 0;
        while i < 8
            invariant
                i <= 8,
                bytes@.len() == 36,
                bytes@[0] == fcb_drive_byte(drive),
                forall|k: int| 1 <= k < 1 + i ==> bytes@[k] == name@[k - 1],
                forall|k: int| 1 + i <= k < 36 ==> bytes@[k] == 0,
            decreases 8 - i,
        {
            bytes[1 + i] = name[i];
            i = i + 1;
        }
        let mut j: usize = 0;
        while j < 3
            invariant
                j <= 3,
                bytes@.len() == 36,
                bytes@[0] == fcb_drive_byte(drive),
                forall|k: int| 1 <= k < 9 ==> bytes@[k] == name@[k - 1],
                forall|k: int| 9 <= k < 9 + j ==> bytes@[k] == extension@[k - 9],
                forall|k: int| 9 + j <= k < 36 ==> bytes@[k] == 0,
            decreases 3 - j,
        {
            bytes[9 + j] = extension[j];
            j = j + 1;
        }
        assert(bytes@.subrange(1, 9) =~= name@);
        assert(bytes@.subrange(9, 12) =~= extension@);
        FileControlBlock { bytes }
    }

    /// The drive byte: 0 for the default drive, else 1 for A:, 2 for B:, ...
    pub fn drive_byte(&self) -> (r: u8)
        ensures
            r == self.bytes@[0],
    {
        self.bytes[0]
    }

    /// The block number of the current record.
    pub fn current_block(&self) -> (r: u16)
        ensures
            r == le16(self.bytes@, 12),
    {
        read_le16(&self.bytes, 12)
    }

    /// The record size in bytes.
    pub fn record_size(&self) -> (r: u16)
        ensures
            r == le16(self.bytes@, 14),
    {
        read_le16(&self.bytes, 14)
    }

    /// The file size in bytes, as DOS filled it in on opening.
    pub fn file_size(&self) -> (r: u32)
        ensures
            r == le32(self.bytes@, 16),
    {
        read_le32(&self.bytes, 16)
    }

    /// The date of the last write, in the DOS packed form.
    pub fn date(&self) -> (r: u16)
        ensures
            r == le16(self.bytes@, 20),
    {
        read_le16(&self.bytes, 20)
    }

    /// The time of the last write, in the DOS packed form.
    pub fn time(&self) -> (r: u16)
        ensures
            r == le16(self.bytes@, 22),
    {
        read_le16(&self.bytes, 22)
    }

    /// The record within the current block.
    pub fn current_record(&self) -> (r: u8)
        ensures
            r == self.bytes@[32],
    {
        self.bytes[32]
    }

    /// The record that the random services (21h to 24h) work on.
    pub fn random_record(&self) -> (r: u32)
        ensures
            r == le24(self.bytes@, 33),
            r < 0x1000000,
    {
        read_le16(&self.bytes, 33) as u32 + self.bytes[35] as u32 * 65536
    }

    /// Selects the record that the next random read or write works on;
    /// every other byte is kept.
    pub fn set_random_record(&mut self, record: u32)
        requires
            record < 0x1000000,
        ensures
            le24(final(self).bytes@, 33) == record,
            forall|i: int| 0 <= i < 33 ==> final(self).bytes@[i] == old(self).bytes@[i],
    {
        let low = (record % 256) as u8;
        let middle = ((record / 256) % 256) as u8;
        let high = (record / 65536) as u8;
        self.bytes[33] = low;
        self.bytes[34] = middle;
        self.bytes[35] = high;
        assert(record == low + 256 * middle + 65536 * high) by (nonlinear_arith)
            requires
                low == record % 256,
                middle == (record / 256) % 256,
                high == record / 65536,
                record < 0x1000000,
        ;
    }

    /// Sets the record size in bytes; every other byte is kept.
    pub fn set_record_size(&mut self, size: u16)
        ensures
            le16(final(self).bytes@, 14) == size,
            forall|i: int|
                0 <= i < 36 && i != 14 && i != 15 ==> final(self).bytes@[i] == old(self).bytes@[i],
    {
        self.bytes[14] = (size % 256) as u8;
        self.bytes[15] = (size / 256) as u8;
    }
}

/// The disk transfer area that the directory searches fill: 43 bytes that
/// DOS writes in place at the address set with service 1Ah.
///
/// Layout: reserved for DOS (0, 21 bytes), attribute (21), time (22), date
/// (24), file size (26, four bytes), name (30, thirteen bytes ending in a
/// zero byte). Multi-byte fields are little-endian.
#[derive(Clone, Copy, Debug)]
pub struct DiskTransferArea {
    pub bytes: [u8; 43],
}

impl DiskTransferArea {
    /// An area with every byte zero, ready to be handed to DOS.
    pub fn new() -> (r: DiskTransferArea)
        ensures
            forall|i: int| 0 <= i < 43 ==> r.bytes@[i] == 0,
    {
        DiskTransferArea { bytes: [0u8; 43] }
    }

    /// The attribute byte of the file found.
    pub fn attribute(&self) -> (r: u8)
        ensures
            r == self.bytes@[21],
    {
        self.bytes[21]
    }

    /// The time of the last write of the file found, in the DOS packed form.
    pub fn time(&self) -> (r: u16)
        ensures
            r == le16(self.bytes@, 22),
    {
        read_le16(&self.bytes, 22)
    }

    /// The date of the last write of the file found, in the DOS packed form.
    pub fn date(&self) -> (r: u16)
        ensures
            r == le16(self.bytes@, 24),
    {
        read_le16(&self.bytes, 24)
    }

    /// The size in bytes of the file found.
    pub fn file_size(&self) -> (r: u32)
        ensures
            r == le32(self.bytes@, 26),
    {
        read_le32(&self.bytes, 26)
    }

    /// The name of the file found: the bytes from offset 30 up to the first
    /// zero byte, or all thirteen when there is none.
    pub fn name(&self) -> (r: Vec<u8>)
        ensures
            r@.len() <= 13,
            r@ == self.bytes@.subrange(30, 30 + r@.len() as int),
            forall|i: int| 0 <= i < r@.len() ==> r@[i] != 0,
            r@.len() < 13 ==> self.bytes@[30 + r@.len() as int] == 0,
    {
        let mut name: Vec<u8> = Vec::new();
        let mut i: usize = 30;
        while i < 43 && self.bytes[i] != 0
            invariant
                30 <= i <= 43,
                name@.len() == i - 30,
                name@ == self.bytes@.subrange(30, i as int),
                forall|k: int| 0 <= k < name@.len() ==> name@[k] != 0,
            decreases 43 - i,
        {
            name.push(self.bytes[i]);
            i = i + 1;
            assert(name@ =~= self.bytes@.subrange(30, i as int));
        }
        name
    }
}

} // verus!
