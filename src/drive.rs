use vstd::prelude::*;

verus! {

/// A logical drive as DOS numbers them in DL and AL (0 is A:, 25 is Z:),
/// plus `Unknown` for every code that names no drive letter.
#[derive(Clone, Copy, Debug, PartialEq, Eq, Structural)]
pub enum DriveLetter {
    A,
    B,
    C,
    D,
    E,
    F,
    G,
    H,
    I,
    J,
    K,
    L,
    M,
    N,
    O,
    P,
    Q,
    R,
    S,
    T,
    U,
    V,
    W,
    X,
    Y,
    Z,
    Unknown,
}

/// Position of the drive in the alphabet (A is 0, Z is 25); `Unknown` comes
/// after the letters, at 26.
pub open spec fn drive_index(d: DriveLetter) -> nat {
    match d {
        DriveLetter::A => 0,
        DriveLetter::B => 1,
        DriveLetter::C => 2,
        DriveLetter::D => 3,
        DriveLetter::E => 4,
        DriveLetter::F => 5,
        DriveLetter::G => 6,
        DriveLetter::H => 7,
        DriveLetter::I => 8,
        DriveLetter::J => 9,
        DriveLetter::K => 10,
        DriveLetter::L => 11,
        DriveLetter::M => 12,
        DriveLetter::N => 13,
        DriveLetter::O => 14,
        DriveLetter::P => 15,
        DriveLetter::Q => 16,
        DriveLetter::R => 17,
        DriveLetter::S => 18,
        DriveLetter::T => 19,
        DriveLetter::U => 20,
        DriveLetter::V => 21,
        DriveLetter::W => 22,
        DriveLetter::X => 23,
        DriveLetter::Y => 24,
        DriveLetter::Z => 25,
        DriveLetter::Unknown => 26,
    }
}

/// The drive that DOS means by drive code `code`.
pub open spec fn decoded_drive(code: u8) -> DriveLetter {
    match code {
        0 => DriveLetter::A,
        1 => DriveLetter::B,
        2 => DriveLetter::C,
        3 => DriveLetter::D,
        4 => DriveLetter::E,
        5 => DriveLetter::F,
        6 => DriveLetter::G,
        7 => DriveLetter::H,
        8 => DriveLetter::I,
        9 => DriveLetter::J,
        10 => DriveLetter::K,
        11 => DriveLetter::L,
        12 => DriveLetter::M,
        13 => DriveLetter::N,
        14 => DriveLetter::O,
        15 => DriveLetter::P,
        16 => DriveLetter::Q,
        17 => DriveLetter::R,
        18 => DriveLetter::S,
        19 => DriveLetter::T,
        20 => DriveLetter::U,
        21 => DriveLetter::V,
        22 => DriveLetter::W,
        23 => DriveLetter::X,
        24 => DriveLetter::Y,
        25 => DriveLetter::Z,
        _ => DriveLetter::Unknown,
    }
}

/// Decoding a drive code is total: codes 0 to 25 give the letter at that
/// position of the alphabet, every other code gives `Unknown`.
pub proof fn lemma_drive_decoding(code: u8)
    ensures
        code < 26 ==> decoded_drive(code) != DriveLetter::Unknown && drive_index(
            decoded_drive(code),
        ) == code,
        code >= 26 ==> decoded_drive(code) == DriveLetter::Unknown,
{
}

/// Every drive letter has exactly one code, and decoding that code gives the
/// letter back.
pub proof fn lemma_drive_code_round_trip(d: DriveLetter)
    ensures
        drive_index(d) < 256,
        d != DriveLetter::Unknown ==> decoded_drive(drive_index(d) as u8) == d,
        d != DriveLetter::Unknown <==> drive_index(d) < 26,
{
}

impl From<u8> for DriveLetter {
    fn from(value: u8) -> (r: DriveLetter) {
        match value {
            0 => DriveLetter::A,
            1 => DriveLetter::B,
            2 => DriveLetter::C,
            3 => DriveLetter::D,
            4 => DriveLetter::E,
            5 => DriveLetter::F,
            6 => DriveLetter::G,
            7 => DriveLetter::H,
            8 => DriveLetter::I,
            9 => DriveLetter::J,
            10 => DriveLetter::K,
            11 => DriveLetter::L,
            12 => DriveLetter::M,
            13 => DriveLetter::N,
            14 => DriveLetter::O,
            15 => DriveLetter::P,
            16 => DriveLetter::Q,
            17 => DriveLetter::R,
            18 => DriveLetter::S,
            19 => DriveLetter::T,
            20 => DriveLetter::U,
            21 => DriveLetter::V,
            22 => DriveLetter::W,
            23 => DriveLetter::X,
            24 => DriveLetter::Y,
            25 => DriveLetter::Z,
            _ => DriveLetter::Unknown,
        }
    }
}

impl vstd::std_specs::convert::FromSpecImpl<u8> for DriveLetter {
    open spec fn obeys_from_spec() -> bool {
        true
    }

    open spec fn from_spec(v: u8) -> DriveLetter {
        decoded_drive(v)
    }
}

impl DriveLetter {
    /// The drive for drive code `code`, as DOS returns it in AL.
    pub fn decode(code: u8) -> (r: DriveLetter)
        ensures
            r == decoded_drive(code),
            code < 26 ==> drive_index(r) == code,
            code >= 26 ==> r == DriveLetter::Unknown,
    {
        proof {
            lemma_drive_decoding(code);
        }
        DriveLetter::from(code)
    }

    /// The drive code that DOS expects in DL for this drive (26 for
    /// `Unknown`, which DOS rejects as no drive).
    pub fn code(&self) -> (r: u8)
        ensures
            r == drive_index(*self),
    {
        match self {
            DriveLetter::A => 0,
            DriveLetter::B => 1,
            DriveLetter::C => 2,
            DriveLetter::D => 3,
            DriveLetter::E => 4,
            DriveLetter::F => 5,
            DriveLetter::G => 6,
            DriveLetter::H => 7,
            DriveLetter::I => 8,
            DriveLetter::J => 9,
            DriveLetter::K => 10,
            DriveLetter::L => 11,
            DriveLetter::M => 12,
            DriveLetter::N => 13,
            DriveLetter::O => 14,
            DriveLetter::P => 15,
            DriveLetter::Q => 16,
            DriveLetter::R => 17,
            DriveLetter::S => 18,
            DriveLetter::T => 19,
            DriveLetter::U => 20,
            DriveLetter::V => 21,
            DriveLetter::W => 22,
            DriveLetter::X => 23,
            DriveLetter::Y => 24,
            DriveLetter::Z => 25,
            DriveLetter::Unknown => 26,
        }
    }

    /// The drive's letter as written in a path (`'C'` for C:), or `None`
    /// for `Unknown`.
    pub fn letter(&self) -> (r: Option<char>)
        ensures
            *self == DriveLetter::Unknown <==> r is None,
            r matches Some(c) ==> c == (65 + drive_index(*self)) as char,
    {
        let code = self.code();
        if code < 26 {
            Some((65u8 + code) as char)
        } else {
            None
        }
    }
}

} // verus!
