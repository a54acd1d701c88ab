//! The sound notes that the cube can play, each backed by one wire byte.

use vstd::prelude::*;

verus! {

/// A sound note. Notes are numbered chromatically from C 0 upward, one byte
/// per note; the byte after the highest note means silence.
#[derive(Debug, Clone, Copy, PartialEq, Eq, PartialOrd, Ord, Hash, Structural)]
pub enum Note {
    /// C 0.
    C0,
    /// C# 0.
    CS0,
    /// D 0.
    D0,
    /// D# 0.
    DS0,
    /// E 0.
    E0,
    /// F 0.
    F0,
    /// F# 0.
    FS0,
    /// G 0.
    G0,
    /// G# 0.
    GS0,
    /// A 0.
    A0,
    /// A# 0.
    AS0,
    /// B 0.
    B0,
    /// C 1.
    C1,
    /// C# 1.
    CS1,
    /// D 1.
    D1,
    /// D# 1.
    DS1,
    /// E 1.
    E1,
    /// F 1.
    F1,
    /// F# 1.
    FS1,
    /// G 1.
    G1,
    /// G# 1.
    GS1,
    /// A 1.
    A1,
    /// A# 1.
    AS1,
    /// B 1.
    B1,
    /// C 2.
    C2,
    /// C# 2.
    CS2,
    /// D 2.
    D2,
    /// D# 2.
    DS2,
    /// E 2.
    E2,
    /// F 2.
    F2,
    /// F# 2.
    FS2,
    /// G 2.
    G2,
    /// G# 2.
    GS2,
    /// A 2.
    A2,
    /// A# 2.
    AS2,
    /// B 2.
    B2,
    /// C 3.
    C3,
    /// C# 3.
    CS3,
    /// D 3.
    D3,
    /// D# 3.
    DS3,
    /// E 3.
    E3,
    /// F 3.
    F3,
    /// F# 3.
    FS3,
    /// G 3.
    G3,
    /// G# 3.
    GS3,
    /// A 3.
    A3,
    /// A# 3.
    AS3,
    /// B 3.
    B3,
    /// C 4.
    C4,
    /// C# 4.
    CS4,
    /// D 4.
    D4,
    /// D# 4.
    DS4,
    /// E 4.
    E4,
    /// F 4.
    F4,
    /// F# 4.
    FS4,
    /// G 4.
    G4,
    /// G# 4.
    GS4,
    /// A 4.
    A4,
    /// A# 4.
    AS4,
    /// B 4.
    B4,
    /// C 5.
    C5,
    /// C# 5.
    CS5,
    /// D 5.
    D5,
    /// D# 5.
    DS5,
    /// E 5.
    E5,
    /// F 5.
    F5,
    /// F# 5.
    FS5,
    /// G 5.
    G5,
    /// G# 5.
    GS5,
    /// A 5.
    A5,
    /// A# 5.
    AS5,
    /// B 5.
    B5,
    /// C 6.
    C6,
    /// C# 6.
    CS6,
    /// D 6.
    D6,
    /// D# 6.
    DS6,
    /// E 6.
    E6,
    /// F 6.
    F6,
    /// F# 6.
    FS6,
    /// G 6.
    G6,
    /// G# 6.
    GS6,
    /// A 6.
    A6,
    /// A# 6.
    AS6,
    /// B 6.
    B6,
    /// C 7.
    C7,
    /// C# 7.
    CS7,
    /// D 7.
    D7,
    /// D# 7.
    DS7,
    /// E 7.
    E7,
    /// F 7.
    F7,
    /// F# 7.
    FS7,
    /// G 7.
    G7,
    /// G# 7.
    GS7,
    /// A 7.
    A7,
    /// A# 7.
    AS7,
    /// B 7.
    B7,
    /// C 8.
    C8,
    /// C# 8.
    CS8,
    /// D 8.
    D8,
    /// D# 8.
    DS8,
    /// E 8.
    E8,
    /// F 8.
    F8,
    /// F# 8.
    FS8,
    /// G 8.
    G8,
    /// G# 8.
    GS8,
    /// A 8.
    A8,
    /// A# 8.
    AS8,
    /// B 8.
    B8,
    /// C 9.
    C9,
    /// C# 9.
    CS9,
    /// D 9.
    D9,
    /// D# 9.
    DS9,
    /// E 9.
    E9,
    /// F 9.
    F9,
    /// F# 9.
    FS9,
    /// G 9.
    G9,
    /// G# 9.
    GS9,
    /// A 9.
    A9,
    /// A# 9.
    AS9,
    /// B 9.
    B9,
    /// C 10.
    C10,
    /// C# 10.
    CS10,
    /// D 10.
    D10,
    /// D# 10.
    DS10,
    /// E 10.
    E10,
    /// F 10.
    F10,
    /// F# 10.
    FS10,
    /// G 10.
    G10,
    /// No sound.
    NoSound,
}

/// The backing byte of a note.
pub open spec fn note_code(n: Note) -> u8 {
    match n {
        Note::C0 => 0,
        Note::CS0 => 1,
        Note::D0 => 2,
        Note::DS0 => 3,
        Note::E0 => 4,
        Note::F0 => 5,
        Note::FS0 => 6,
        Note::G0 => 7,
        Note::GS0 => 8,
        Note::A0 => 9,
        Note::AS0 => 10,
        Note::B0 => 11,
        Note::C1 => 12,
        Note::CS1 => 13,
        Note::D1 => 14,
        Note::DS1 => 15,
        Note::E1 => 16,
        Note::F1 => 17,
        Note::FS1 => 18,
        Note::G1 => 19,
        Note::GS1 => 20,
        Note::A1 => 21,
        Note::AS1 => 22,
        Note::B1 => 23,
        Note::C2 => 24,
        Note::CS2 => 25,
        Note::D2 => 26,
        Note::DS2 => 27,
        Note::E2 => 28,
        Note::F2 => 29,
        Note::FS2 => 30,
        Note::G2 => 31,
        Note::GS2 => 32,
        Note::A2 => 33,
        Note::AS2 => 34,
        Note::B2 => 35,
        Note::C3 => 36,
        Note::CS3 => 37,
        Note::D3 => 38,
        Note::DS3 => 39,
        Note::E3 => 40,
        Note::F3 => 41,
        Note::FS3 => 42,
        Note::G3 => 43,
        Note::GS3 => 44,
        Note::A3 => 45,
        Note::AS3 => 46,
        Note::B3 => 47,
        Note::C4 => 48,
        Note::CS4 => 49,
        Note::D4 => 50,
        Note::DS4 => 51,
        Note::E4 => 52,
        Note::F4 => 53,
        Note::FS4 => 54,
        Note::G4 => 55,
        Note::GS4 => 56,
        Note::A4 => 57,
        Note::AS4 => 58,
        Note::B4 => 59,
        Note::C5 => 60,
        Note::CS5 => 61,
        Note::D5 => 62,
        Note::DS5 => 63,
        Note::E5 => 64,
        Note::F5 => 65,
        Note::FS5 => 66,
        Note::G5 => 67,
        Note::GS5 => 68,
        Note::A5 => 69,
        Note::AS5 => 70,
        Note::B5 => 71,
        Note::C6 => 72,
        Note::CS6 => 73,
        Note::D6 => 74,
        Note::DS6 => 75,
        Note::E6 => 76,
        Note::F6 => 77,
        Note::FS6 => 78,
        Note::G6 => 79,
        Note::GS6 => 80,
        Note::A6 => 81,
        Note::AS6 => 82,
        Note::B6 => 83,
        Note::C7 => 84,
        Note::CS7 => 85,
        Note::D7 => 86,
        Note::DS7 => 87,
        Note::E7 => 88,
        Note::F7 => 89,
        Note::FS7 => 90,
        Note::G7 => 91,
        Note::GS7 => 92,
        Note::A7 => 93,
        Note::AS7 => 94,
        Note::B7 => 95,
        Note::C8 => 96,
        Note::CS8 => 97,
        Note::D8 => 98,
        Note::DS8 => 99,
        Note::E8 => 100,
        Note::F8 => 101,
        Note::FS8 => 102,
        Note::G8 => 103,
        Note::GS8 => 104,
        Note::A8 => 105,
        Note::AS8 => 106,
        Note::B8 => 107,
        Note::C9 => 108,
        Note::CS9 => 109,
        Note::D9 => 110,
        Note::DS9 => 111,
        Note::E9 => 112,
        Note::F9 => 113,
        Note::FS9 => 114,
        Note::G9 => 115,
        Note::GS9 => 116,
        Note::A9 => 117,
        Note::AS9 => 118,
        Note::B9 => 119,
        Note::C10 => 120,
        Note::CS10 => 121,
        Note::D10 => 122,
        Note::DS10 => 123,
        Note::E10 => 124,
        Note::F10 => 125,
        Note::FS10 => 126,
        Note::G10 => 127,
        Note::NoSound => 128,
    }
}

/// The note with the given backing byte, if any.
pub open spec fn note_from(b: u8) -> Option<Note> {
    if b == 0 {
        Some(Note::C0)
    } else if b == 1 {
        Some(Note::CS0)
    } else if b == 2 {
        Some(Note::D0)
    } else if b == 3 {
        Some(Note::DS0)
    } else if b == 4 {
        Some(Note::E0)
    } else if b == 5 {
        Some(Note::F0)
    } else if b == 6 {
        Some(Note::FS0)
    } else if b == 7 {
        Some(Note::G0)
    } else if b == 8 {
        Some(Note::GS0)
    } else if b == 9 {
        Some(Note::A0)
    } else if b == 10 {
        Some(Note::AS0)
    } else if b == 11 {
        Some(Note::B0)
    } else if b == 12 {
        Some(Note::C1)
    } else if b == 13 {
        Some(Note::CS1)
    } else if b == 14 {
        Some(Note::D1)
    } else if b == 15 {
        Some(Note::DS1)
    } else if b == 16 {
        Some(Note::E1)
    } else if b == 17 {
        Some(Note::F1)
    } else if b == 18 {
        Some(Note::FS1)
    } else if b == 19 {
        Some(Note::G1)
    } else if b == 20 {
        Some(Note::GS1)
    } else if b == 21 {
        Some(Note::A1)
    } else if b == 22 {
        Some(Note::AS1)
    } else if b == 23 {
        Some(Note::B1)
    } else if b == 24 {
        Some(Note::C2)
    } else if b == 25 {
        Some(Note::CS2)
    } else if b == 26 {
        Some(Note::D2)
    } else if b == 27 {
        Some(Note::DS2)
    } else if b == 28 {
        Some(Note::E2)
    } else if b == 29 {
        Some(Note::F2)
    } else if b == 30 {
        Some(Note::FS2)
    } else if b == 31 {
        Some(Note::G2)
    } else if b == 32 {
        Some(Note::GS2)
    } else if b == 33 {
        Some(Note::A2)
    } else if b == 34 {
        Some(Note::AS2)
    } else if b == 35 {
        Some(Note::B2)
    } else if b == 36 {
        Some(Note::C3)
    } else if b == 37 {
        Some(Note::CS3)
    } else if b == 38 {
        Some(Note::D3)
    } else if b == 39 {
        Some(Note::DS3)
    } else if b == 40 {
        Some(Note::E3)
    } else if b == 41 {
        Some(Note::F3)
    } else if b == 42 {
        Some(Note::FS3)
    } else if b == 43 {
        Some(Note::G3)
    } else if b == 44 {
        Some(Note::GS3)
    } else if b == 45 {
        Some(Note::A3)
    } else if b == 46 {
        Some(Note::AS3)
    } else if b == 47 {
        Some(Note::B3)
    } else if b == 48 {
        Some(Note::C4)
    } else if b == 49 {
        Some(Note::CS4)
    } else if b == 50 {
        Some(Note::D4)
    } else if b == 51 {
        Some(Note::DS4)
    } else if b == 52 {
        Some(Note::E4)
    } else if b == 53 {
        Some(Note::F4)
    } else if b == 54 {
        Some(Note::FS4)
    } else if b == 55 {
        Some(Note::G4)
    } else if b == 56 {
        Some(Note::GS4)
    } else if b == 57 {
        Some(Note::A4)
    } else if b == 58 {
        Some(Note::AS4)
    } else if b == 59 {
        Some(Note::B4)
    } else if b == 60 {
        Some(Note::C5)
    } else if b == 61 {
        Some(Note::CS5)
    } else if b == 62 {
        Some(Note::D5)
    } else if b == 63 {
        Some(Note::DS5)
    } else if b == 64 {
        Some(Note::E5)
    } else if b == 65 {
        Some(Note::F5)
    } else if b == 66 {
        Some(Note::FS5)
    } else if b == 67 {
        Some(Note::G5)
    } else if b == 68 {
        Some(Note::GS5)
    } else if b == 69 {
        Some(Note::A5)
    } else if b == 70 {
        Some(Note::AS5)
    } else if b == 71 {
        Some(Note::B5)
    } else if b == 72 {
        Some(Note::C6)
    } else if b == 73 {
        Some(Note::CS6)
    } else if b == 74 {
        Some(Note::D6)
    } else if b == 75 {
        Some(Note::DS6)
    } else if b == 76 {
        Some(Note::E6)
    } else if b == 77 {
        Some(Note::F6)
    } else if b == 78 {
        Some(Note::FS6)
    } else if b == 79 {
        Some(Note::G6)
    } else if b == 80 {
        Some(Note::GS6)
    } else if b == 81 {
        Some(Note::A6)
    } else if b == 82 {
        Some(Note::AS6)
    } else if b == 83 {
        Some(Note::B6)
    } else if b == 84 {
        Some(Note::C7)
    } else if b == 85 {
        Some(Note::CS7)
    } else if b == 86 {
        Some(Note::D7)
    } else if b == 87 {
        Some(Note::DS7)
    } else if b == 88 {
        Some(Note::E7)
    } else if b == 89 {
        Some(Note::F7)
    } else if b == 90 {
        Some(Note::FS7)
    } else if b == 91 {
        Some(Note::G7)
    } else if b == 92 {
        Some(Note::GS7)
    } else if b == 93 {
        Some(Note::A7)
    } else if b == 94 {
        Some(Note::AS7)
    } else if b == 95 {
        Some(Note::B7)
    } else if b == 96 {
        Some(Note::C8)
    } else if b == 97 {
        Some(Note::CS8)
    } else if b == 98 {
        Some(Note::D8)
    } else if b == 99 {
        Some(Note::DS8)
    } else if b == 100 {
        Some(Note::E8)
    } else if b == 101 {
        Some(Note::F8)
    } else if b == 102 {
        Some(Note::FS8)
    } else if b == 103 {
        Some(Note::G8)
    } else if b == 104 {
        Some(Note::GS8)
    } else if b == 105 {
        Some(Note::A8)
    } else if b == 106 {
        Some(Note::AS8)
    } else if b == 107 {
        Some(Note::B8)
    } else if b == 108 {
        Some(Note::C9)
    } else if b == 109 {
        Some(Note::CS9)
    } else if b == 110 {
        Some(Note::D9)
    } else if b == 111 {
        Some(Note::DS9)
    } else if b == 112 {
        Some(Note::E9)
    } else if b == 113 {
        Some(Note::F9)
    } else if b == 114 {
        Some(Note::FS9)
    } else if b == 115 {
        Some(Note::G9)
    } else if b == 116 {
        Some(Note::GS9)
    } else if b == 117 {
        Some(Note::A9)
    } else if b == 118 {
        Some(Note::AS9)
    } else if b == 119 {
        Some(Note::B9)
    } else if b == 120 {
        Some(Note::C10)
    } else if b == 121 {
        Some(Note::CS10)
    } else if b == 122 {
        Some(Note::D10)
    } else if b == 123 {
        Some(Note::DS10)
    } else if b == 124 {
        Some(Note::E10)
    } else if b == 125 {
        Some(Note::F10)
    } else if b == 126 {
        Some(Note::FS10)
    } else if b == 127 {
        Some(Note::G10)
    } else if b == 128 {
        Some(Note::NoSound)
    } else {
        None
    }
}

impl Note {
    /// The backing byte written on the wire.
    pub fn code(&self) -> (r: u8)
        ensures
            r == note_code(*self),
    {
        match self {
            Note::C0 => 0,
            Note::CS0 => 1,
            Note::D0 => 2,
            Note::DS0 => 3,
            Note::E0 => 4,
            Note::F0 => 5,
            Note::FS0 => 6,
            Note::G0 => 7,
            Note::GS0 => 8,
            Note::A0 => 9,
            Note::AS0 => 10,
            Note::B0 => 11,
            Note::C1 => 12,
            Note::CS1 => 13,
            Note::D1 => 14,
            Note::DS1 => 15,
            Note::E1 => 16,
            Note::F1 => 17,
            Note::FS1 => 18,
            Note::G1 => 19,
            Note::GS1 => 20,
            Note::A1 => 21,
            Note::AS1 => 22,
            Note::B1 => 23,
            Note::C2 => 24,
            Note::CS2 => 25,
            Note::D2 => 26,
            Note::DS2 => 27,
            Note::E2 => 28,
            Note::F2 => 29,
            Note::FS2 => 30,
            Note::G2 => 31,
            Note::GS2 => 32,
            Note::A2 => 33,
            Note::AS2 => 34,
            Note::B2 => 35,
            Note::C3 => 36,
            Note::CS3 => 37,
            Note::D3 => 38,
            Note::DS3 => 39,
            Note::E3 => 40,
            Note::F3 => 41,
            Note::FS3 => 42,
            Note::G3 => 43,
            Note::GS3 => 44,
            Note::A3 => 45,
            Note::AS3 => 46,
            Note::B3 => 47,
            Note::C4 => 48,
            Note::CS4 => 49,
            Note::D4 => 50,
            Note::DS4 => 51,
            Note::E4 => 52,
            Note::F4 => 53,
            Note::FS4 => 54,
            Note::G4 => 55,
            Note::GS4 => 56,
            Note::A4 => 57,
            Note::AS4 => 58,
            Note::B4 => 59,
            Note::C5 => 60,
            Note::CS5 => 61,
            Note::D5 => 62,
            Note::DS5 => 63,
            Note::E5 => 64,
            Note::F5 => 65,
            Note::FS5 => 66,
            Note::G5 => 67,
            Note::GS5 => 68,
            Note::A5 => 69,
            Note::AS5 => 70,
            Note::B5 => 71,
            Note::C6 => 72,
            Note::CS6 => 73,
            Note::D6 => 74,
            Note::DS6 => 75,
            Note::E6 => 76,
            Note::F6 => 77,
            Note::FS6 => 78,
            Note::G6 => 79,
            Note::GS6 => 80,
            Note::A6 => 81,
            Note::AS6 => 82,
            Note::B6 => 83,
            Note::C7 => 84,
            Note::CS7 => 85,
            Note::D7 => 86,
            Note::DS7 => 87,
            Note::E7 => 88,
            Note::F7 => 89,
            Note::FS7 => 90,
            Note::G7 => 91,
            Note::GS7 => 92,
            Note::A7 => 93,
            Note::AS7 => 94,
            Note::B7 => 95,
            Note::C8 => 96,
            Note::CS8 => 97,
            Note::D8 => 98,
            Note::DS8 => 99,
            Note::E8 => 100,
            Note::F8 => 101,
            Note::FS8 => 102,
            Note::G8 => 103,
            Note::GS8 => 104,
            Note::A8 => 105,
            Note::AS8 => 106,
            Note::B8 => 107,
            Note::C9 => 108,
            Note::CS9 => 109,
            Note::D9 => 110,
            Note::DS9 => 111,
            Note::E9 => 112,
            Note::F9 => 113,
            Note::FS9 => 114,
            Note::G9 => 115,
            Note::GS9 => 116,
            Note::A9 => 117,
            Note::AS9 => 118,
            Note::B9 => 119,
            Note::C10 => 120,
            Note::CS10 => 121,
            Note::D10 => 122,
            Note::DS10 => 123,
            Note::E10 => 124,
            Note::F10 => 125,
            Note::FS10 => 126,
            Note::G10 => 127,
            Note::NoSound => 128,
        }
    }

    /// Reads a note back from its backing byte.
    pub fn from_code(b: u8) -> (r: Option<Note>)
        ensures
            r == note_from(b),
    {
        match b {
            0 => Some(Note::C0),
            1 => Some(Note::CS0),
            2 => Some(Note::D0),
            3 => Some(Note::DS0),
            4 => Some(Note::E0),
            5 => Some(Note::F0),
            6 => Some(Note::FS0),
            7 => Some(Note::G0),
            8 => Some(Note::GS0),
            9 => Some(Note::A0),
            10 => Some(Note::AS0),
            11 => Some(Note::B0),
            12 => Some(Note::C1),
            13 => Some(Note::CS1),
            14 => Some(Note::D1),
            15 => Some(Note::DS1),
            16 => Some(Note::E1),
            17 => Some(Note::F1),
            18 => Some(Note::FS1),
            19 => Some(Note::G1),
            20 => Some(Note::GS1),
            21 => Some(Note::A1),
            22 => Some(Note::AS1),
            23 => Some(Note::B1),
            24 => Some(Note::C2),
            25 => Some(Note::CS2),
            26 => Some(Note::D2),
            27 => Some(Note::DS2),
            28 => Some(Note::E2),
            29 => Some(Note::F2),
            30 => Some(Note::FS2),
            31 => Some(Note::G2),
            32 => Some(Note::GS2),
            33 => Some(Note::A2),
            34 => Some(Note::AS2),
            35 => Some(Note::B2),
            36 => Some(Note::C3),
            37 => Some(Note::CS3),
            38 => Some(Note::D3),
            39 => Some(Note::DS3),
            40 => Some(Note::E3),
            41 => Some(Note::F3),
            42 => Some(Note::FS3),
            43 => Some(Note::G3),
            44 => Some(Note::GS3),
            45 => Some(Note::A3),
            46 => Some(Note::AS3),
            47 => Some(Note::B3),
            48 => Some(Note::C4),
            49 => Some(Note::CS4),
            50 => Some(Note::D4),
            51 => Some(Note::DS4),
            52 => Some(Note::E4),
            53 => Some(Note::F4),
            54 => Some(Note::FS4),
            55 => Some(Note::G4),
            56 => Some(Note::GS4),
            57 => Some(Note::A4),
            58 => Some(Note::AS4),
            59 => Some(Note::B4),
            60 => Some(Note::C5),
            61 => Some(Note::CS5),
            62 => Some(Note::D5),
            63 => Some(Note::DS5),
            64 => Some(Note::E5),
            65 => Some(Note::F5),
            66 => Some(Note::FS5),
            67 => Some(Note::G5),
            68 => Some(Note::GS5),
            69 => Some(Note::A5),
            70 => Some(Note::AS5),
            71 => Some(Note::B5),
            72 => Some(Note::C6),
            73 => Some(Note::CS6),
            74 => Some(Note::D6),
            75 => Some(Note::DS6),
            76 => Some(Note::E6),
            77 => Some(Note::F6),
            78 => Some(Note::FS6),
            79 => Some(Note::G6),
            80 => Some(Note::GS6),
            81 => Some(Note::A6),
            82 => Some(Note::AS6),
            83 => Some(Note::B6),
            84 => Some(Note::C7),
            85 => Some(Note::CS7),
            86 => Some(Note::D7),
            87 => Some(Note::DS7),
            88 => Some(Note::E7),
            89 => Some(Note::F7),
            90 => Some(Note::FS7),
            91 => Some(Note::G7),
            92 => Some(Note::GS7),
            93 => Some(Note::A7),
            94 => Some(Note::AS7),
            95 => Some(Note::B7),
            96 => Some(Note::C8),
            97 => Some(Note::CS8),
            98 => Some(Note::D8),
            99 => Some(Note::DS8),
            100 => Some(Note::E8),
            101 => Some(Note::F8),
            102 => Some(Note::FS8),
            103 => Some(Note::G8),
            104 => Some(Note::GS8),
            105 => Some(Note::A8),
            106 => Some(Note::AS8),
            107 => Some(Note::B8),
            108 => Some(Note::C9),
            109 => Some(Note::CS9),
            110 => Some(Note::D9),
            111 => Some(Note::DS9),
            112 => Some(Note::E9),
            113 => Some(Note::F9),
            114 => Some(Note::FS9),
            115 => Some(Note::G9),
            116 => Some(Note::GS9),
            117 => Some(Note::A9),
            118 => Some(Note::AS9),
            119 => Some(Note::B9),
            120 => Some(Note::C10),
            121 => Some(Note::CS10),
            122 => Some(Note::D10),
            123 => Some(Note::DS10),
            124 => Some(Note::E10),
            125 => Some(Note::F10),
            126 => Some(Note::FS10),
            127 => Some(Note::G10),
            128 => Some(Note::NoSound),
            _ => None,
        }
    }
}

} // verus!
