//! The divider fields of the clock registers, and the ratios they stand for.
//!
//! A field holds a small code, not the ratio itself, and few of the codes are
//! linear in the ratio.  The tables here are those of the reference manual.

use vstd::prelude::*;

verus! {

/// A register field that holds a division ratio or a multiplier.
#[derive(Clone, Copy, Debug, PartialEq, Eq, Structural)]
pub enum DividerField {
    /// PLL input divider M, four bits: the code is the ratio less one.
    PllM,
    /// PLL feedback multiplier N, seven bits: the code is the multiplier, from 8.
    PllN,
    /// PLL output divider P, five bits: the code is the ratio, from 2.
    PllP,
    /// PLL output divider Q, two bits: 2, 4, 6, 8.
    PllQ,
    /// PLL output divider R, two bits: 2, 4, 6, 8.
    PllR,
    /// AHB prescaler, four bits: 1 below code 8, then 2, 4, 8, 16, 64, 128,
    /// 256, 512.
    Ahb,
    /// APB prescaler, three bits: 1 below code 4, then 2, 4, 8, 16.
    Apb,
    /// Clock output prescaler, three bits: 1, 2, 4, 8, 16.
    Mco,
}

impl DividerField {
    /// The ratio that the code `field` stands for, or `None` where the manual
    /// lists no such code for this field.
    pub open spec fn spec_decode(self, field: u8) -> Option<u32> {
        match self {
            DividerField::PllM => if field < 16 {
                Some((field + 1) as u32)
            } else {
                None
            },
            DividerField::PllN => if 8 <= field <= 127 {
                Some(field as u32)
            } else {
                None
            },
            DividerField::PllP => if 2 <= field <= 31 {
                Some(field as u32)
            } else {
                None
            },
            DividerField::PllQ | DividerField::PllR => if field < 4 {
                Some((2 * (field + 1)) as u32)
            } else {
                None
            },
            DividerField::Ahb => if field < 8 {
                Some(1u32)
            } else if field == 8 {
                Some(2u32)
            } else if field == 9 {
                Some(4u32)
            } else if field == 10 {
                Some(8u32)
            } else if field == 11 {
                Some(16u32)
            } else if field == 12 {
                Some(64u32)
            } else if field == 13 {
                Some(128u32)
            } else if field == 14 {
                Some(256u32)
            } else if field == 15 {
                Some(512u32)
            } else {
                None
            },
            DividerField::Apb => if field < 4 {
                Some(1u32)
            } else if field == 4 {
                Some(2u32)
            } else if field == 5 {
                Some(4u32)
            } else if field == 6 {
                Some(8u32)
            } else if field == 7 {
                Some(16u32)
            } else {
                None
            },
            DividerField::Mco => if field == 0 {
                Some(1u32)
            } else if field == 1 {
                Some(2u32)
            } else if field == 2 {
                Some(4u32)
            } else if field == 3 {
                Some(8u32)
            } else if field == 4 {
                Some(16u32)
            } else {
                None
            },
        }
    }

    /// Whether `field` is the code that is written for its ratio.
    ///
    /// The bus prescalers ignore the low bits of a code whose top bit is
    /// clear: every such code means "not divided", and zero is the one that is
    /// written.  Every other listed code is the only one for its ratio.
    pub open spec fn canonical(self, field: u8) -> bool {
        &&& self.spec_decode(field) is Some
        &&& (self == DividerField::Ahb ==> field == 0 || field >= 8)
        &&& (self == DividerField::Apb ==> field == 0 || field >= 4)
    }

    /// The code to write for `ratio`: the canonical code that decodes to it,
    /// or `None` where the field cannot express the ratio.
    pub open spec fn spec_encode(self, ratio: u32) -> Option<u8> {
        if exists|f: u8| self.canonical(f) && self.spec_decode(f) == Some(ratio) {
            Some(choose|f: u8| self.canonical(f) && self.spec_decode(f) == Some(ratio))
        } else {
            None
        }
    }

    /// The ratio that the code `field` stands for.
    pub fn decode(self, field: u8) -> (ratio: Option<u32>)
        ensures
            ratio == self.spec_decode(field),
    {
        match self {
            DividerField::PllM => {
                if field < 16 {
                    let r: u32 = field as u32 + 1;
                    Some(r)
                } else {
                    None
                }
            },
            DividerField::PllN => {
                if 8 <= field && field <= 127 {
                    Some(field as u32)
                } else {
                    None
                }
            },
            DividerField::PllP => {
                if 2 <= field && field <= 31 {
                    Some(field as u32)
                } else {
                    None
                }
            },
            DividerField::PllQ | DividerField::PllR => {
                if field < 4 {
                    let r: u32 = 2 * (field as u32 + 1);
                    Some(r)
                } else {
                    None
                }
            },
            DividerField::Ahb => {
                match field {
                    0 | 1 | 2 | 3 | 4 | 5 | 6 | 7 => Some(1),
                    8 => Some(2),
                    9 => Some(4),
                    10 => Some(8),
                    11 => Some(16),
                    12 => Some(64),
                    13 => Some(128),
                    14 => Some(256),
                    15 => Some(512),
                    _ => None,
                }
            },
            DividerField::Apb => {
                match field {
                    0 | 1 | 2 | 3 => Some(1),
                    4 => Some(2),
                    5 => Some(4),
                    6 => Some(8),
                    7 => Some(16),
                    _ => None,
                }
            },
            DividerField::Mco => {
                match field {
                    0 => Some(1),
                    1 => Some(2),
                    2 => Some(4),
                    3 => Some(8),
                    4 => Some(16),
                    _ => None,
                }
            },
        }
    }

    /// The code to write for `ratio`.
    pub fn encode(self, ratio: u32) -> (field: Option<u8>)
        ensures
            field == self.spec_encode(ratio),
    {
        let field: Option<u8> = self.lookup(ratio);
        proof {
            if let Some(f) = field {
                let g: u8 = choose|g: u8| self.canonical(g) && self.spec_decode(g) == Some(ratio);
                lemma_canonical_unique(self, f, g);
            }
        }
        field
    }

    /// The table behind [`DividerField::encode`], read from ratio to code.
    fn lookup(self, ratio: u32) -> (field: Option<u8>)
        ensures
            (match field {
                Some(f) => self.canonical(f) && self.spec_decode(f) == Some(ratio),
                None => forall|f: u8| self.spec_decode(f) != Some(ratio),
            }),
    {
        match self {
            DividerField::PllM => {
                if 1 <= ratio && ratio <= 16 {
                    let f: u8 = (ratio - 1) as u8;
                    Some(f)
                } else {
                    None
                }
            },
            DividerField::PllN => {
                if 8 <= ratio && ratio <= 127 {
                    Some(ratio as u8)
                } else {
                    None
                }
            },
            DividerField::PllP => {
                if 2 <= ratio && ratio <= 31 {
                    Some(ratio as u8)
                } else {
                    None
                }
            },
            DividerField::PllQ | DividerField::PllR => {
                match ratio {
                    2 => Some(0),
                    4 => Some(1),
                    6 => Some(2),
                    8 => Some(3),
                    _ => None,
                }
            },
            DividerField::Ahb => {
                match ratio {
                    1 => Some(0),
                    2 => Some(8),
                    4 => Some(9),
                    8 => Some(10),
                    16 => Some(11),
                    64 => Some(12),
                    128 => Some(13),
                    256 => Some(14),
                    512 => Some(15),
                    _ => None,
                }
            },
            DividerField::Apb => {
                match ratio {
                    1 => Some(0),
                    2 => Some(4),
                    4 => Some(5),
                    8 => Some(6),
                    16 => Some(7),
                    _ => None,
                }
            },
            DividerField::Mco => {
                match ratio {
                    1 => Some(0),
                    2 => Some(1),
                    4 => Some(2),
                    8 => Some(3),
                    16 => Some(4),
                    _ => None,
                }
            },
        }
    }
}

/// Two canonical codes of one field that stand for the same ratio are the
/// same code.
pub proof fn lemma_canonical_unique(kind: DividerField, f: u8, g: u8)
    requires
        kind.canonical(f),
        kind.canonical(g),
        kind.spec_decode(f) == kind.spec_decode(g),
    ensures
        f == g,
{
}

/// Decoding a canonical code and encoding the ratio again gives the code
/// back.
pub proof fn lemma_decode_encode_round_trip(kind: DividerField, field: u8)
    requires
        kind.canonical(field),
    ensures
        kind.spec_encode(kind.spec_decode(field).unwrap()) == Some(field),
{
    let ratio: u32 = kind.spec_decode(field).unwrap();
    let g: u8 = choose|g: u8| kind.canonical(g) && kind.spec_decode(g) == Some(ratio);
    lemma_canonical_unique(kind, field, g);
}

/// Encoding a ratio and decoding the code again gives the ratio back, and a
/// ratio without a code is one that no code of the field decodes to.
pub proof fn lemma_encode_decode_round_trip(kind: DividerField, ratio: u32)
    ensures
        (match kind.spec_encode(ratio) {
            Some(f) => kind.canonical(f) && kind.spec_decode(f) == Some(ratio),
            None => forall|f: u8| kind.spec_decode(f) != Some(ratio),
        }),
{
    if kind.spec_encode(ratio) is None {
        assert forall|f: u8| kind.spec_decode(f) != Some(ratio) by {
            if kind.spec_decode(f) == Some(ratio) {
                let z: u8 = 0;
                assert(kind.canonical(f) || (kind.canonical(z) && kind.spec_decode(z) == Some(
                    ratio,
                )));
            }
        }
    }
}

} // verus!
