use vstd::prelude::*;
use crate::bitboard::{bit, Bitboard};

verus! {

/// A board cell. Index order runs A1, B1, .., H1, A2, .., H8 (`0..64`);
/// `NONE` (index 64) stands for "no square".
#[allow(non_camel_case_types)]
#[derive(Clone, Copy, Debug, PartialEq, Eq, Structural)]
pub enum Square {
    A1, B1, C1, D1, E1, F1, G1, H1,
    A2, B2, C2, D2, E2, F2, G2, H2,
    A3, B3, C3, D3, E3, F3, G3, H3,
    A4, B4, C4, D4, E4, F4, G4, H4,
    A5, B5, C5, D5, E5, F5, G5, H5,
    A6, B6, C6, D6, E6, F6, G6, H6,
    A7, B7, C7, D7, E7, F7, G7, H7,
    A8, B8, C8, D8, E8, F8, G8, H8,
    NONE,
}

impl Square {
    /// The numeric index of the square: `0..64`, and `64` for `NONE`.
    pub open spec fn spec_index(self) -> int {
        match self {
            Square::A1 => 0,
            Square::B1 => 1,
            Square::C1 => 2,
            Square::D1 => 3,
            Square::E1 => 4,
            Square::F1 => 5,
            Square::G1 => 6,
            Square::H1 => 7,
            Square::A2 => 8,
            Square::B2 => 9,
            Square::C2 => 10,
            Square::D2 => 11,
            Square::E2 => 12,
            Square::F2 => 13,
            Square::G2 => 14,
            Square::H2 => 15,
            Square::A3 => 16,
            Square::B3 => 17,
            Square::C3 => 18,
            Square::D3 => 19,
            Square::E3 => 20,
            Square::F3 => 21,
            Square::G3 => 22,
            Square::H3 => 23,
            Square::A4 => 24,
            Square::B4 => 25,
            Square::C4 => 26,
            Square::D4 => 27,
            Square::E4 => 28,
            Square::F4 => 29,
            Square::G4 => 30,
            Square::H4 => 31,
            Square::A5 => 32,
            Square::B5 => 33,
            Square::C5 => 34,
            Square::D5 => 35,
            Square::E5 => 36,
            Square::F5 => 37,
            Square::G5 => 38,
            Square::H5 => 39,
            Square::A6 => 40,
            Square::B6 => 41,
            Square::C6 => 42,
            Square::D6 => 43,
            Square::E6 => 44,
            Square::F6 => 45,
            Square::G6 => 46,
            Square::H6 => 47,
            Square::A7 => 48,
            Square::B7 => 49,
            Square::C7 => 50,
            Square::D7 => 51,
            Square::E7 => 52,
            Square::F7 => 53,
            Square::G7 => 54,
            Square::H7 => 55,
            Square::A8 => 56,
            Square::B8 => 57,
            Square::C8 => 58,
            Square::D8 => 59,
            Square::E8 => 60,
            Square::F8 => 61,
            Square::G8 => 62,
            Square::H8 => 63,
            Square::NONE => 64,
        }
    }

    /// The numeric index of the square: `0..64`, and `64` for `NONE`.
    pub fn index(&self) -> (r: usize)
        ensures
            r == self.spec_index(),
    {
        match *self {
            Square::A1 => 0,
            Square::B1 => 1,
            Square::C1 => 2,
            Square::D1 => 3,
            Square::E1 => 4,
            Square::F1 => 5,
            Square::G1 => 6,
            Square::H1 => 7,
            Square::A2 => 8,
            Square::B2 => 9,
            Square::C2 => 10,
            Square::D2 => 11,
            Square::E2 => 12,
            Square::F2 => 13,
            Square::G2 => 14,
            Square::H2 => 15,
            Square::A3 => 16,
            Square::B3 => 17,
            Square::C3 => 18,
            Square::D3 => 19,
            Square::E3 => 20,
            Square::F3 => 21,
            Square::G3 => 22,
            Square::H3 => 23,
            Square::A4 => 24,
            Square::B4 => 25,
            Square::C4 => 26,
            Square::D4 => 27,
            Square::E4 => 28,
            Square::F4 => 29,
            Square::G4 => 30,
            Square::H4 => 31,
            Square::A5 => 32,
            Square::B5 => 33,
            Square::C5 => 34,
            Square::D5 => 35,
            Square::E5 => 36,
            Square::F5 => 37,
            Square::G5 => 38,
            Square::H5 => 39,
            Square::A6 => 40,
            Square::B6 => 41,
            Square::C6 => 42,
            Square::D6 => 43,
            Square::E6 => 44,
            Square::F6 => 45,
            Square::G6 => 46,
            Square::H6 => 47,
            Square::A7 => 48,
            Square::B7 => 49,
            Square::C7 => 50,
            Square::D7 => 51,
            Square::E7 => 52,
            Square::F7 => 53,
            Square::G7 => 54,
            Square::H7 => 55,
            Square::A8 => 56,
            Square::B8 => 57,
            Square::C8 => 58,
            Square::D8 => 59,
            Square::E8 => 60,
            Square::F8 => 61,
            Square::G8 => 62,
            Square::H8 => 63,
            Square::NONE => 64,
        }
    }

    /// The square with index `i`, and `NONE` for any `i` outside `0..64`.
    #[verifier::opaque]
    pub open spec fn spec_from_index(i: int) -> Square {
        if i == 0 {
            Square::A1
        } else if i == 1 {
            Square::B1
        } else if i == 2 {
            Square::C1
        } else if i == 3 {
            Square::D1
        } else if i == 4 {
            Square::E1
        } else if i == 5 {
            Square::F1
        } else if i == 6 {
            Square::G1
        } else if i == 7 {
            Square::H1
        } else if i == 8 {
            Square::A2
        } else if i == 9 {
            Square::B2
        } else if i == 10 {
            Square::C2
        } else if i == 11 {
            Square::D2
        } else if i == 12 {
            Square::E2
        } else if i == 13 {
            Square::F2
        } else if i == 14 {
            Square::G2
        } else if i == 15 {
            Square::H2
        } else if i == 16 {
            Square::A3
        } else if i == 17 {
            Square::B3
        } else if i == 18 {
            Square::C3
        } else if i == 19 {
            Square::D3
        } else if i == 20 {
            Square::E3
        } else if i == 21 {
            Square::F3
        } else if i == 22 {
            Square::G3
        } else if i == 23 {
            Square::H3
        } else if i == 24 {
            Square::A4
        } else if i == 25 {
            Square::B4
        } else if i == 26 {
            Square::C4
        } else if i == 27 {
            Square::D4
        } else if i == 28 {
            Square::E4
        } else if i == 29 {
            Square::F4
        } else if i == 30 {
            Square::G4
        } else if i == 31 {
            Square::H4
        } else if i == 32 {
            Square::A5
        } else if i == 33 {
            Square::B5
        } else if i == 34 {
            Square::C5
        } else if i == 35 {
            Square::D5
        } else if i == 36 {
            Square::E5
        } else if i == 37 {
            Square::F5
        } else if i == 38 {
            Square::G5
        } else if i == 39 {
            Square::H5
        } else if i == 40 {
            Square::A6
        } else if i == 41 {
            Square::B6
        } else if i == 42 {
            Square::C6
        } else if i == 43 {
            Square::D6
        } else if i == 44 {
            Square::E6
        } else if i == 45 {
            Square::F6
        } else if i == 46 {
            Square::G6
        } else if i == 47 {
            Square::H6
        } else if i == 48 {
            Square::A7
        } else if i == 49 {
            Square::B7
        } else if i == 50 {
            Square::C7
        } else if i == 51 {
            Square::D7
        } else if i == 52 {
            Square::E7
        } else if i == 53 {
            Square::F7
        } else if i == 54 {
            Square::G7
        } else if i == 55 {
            Square::H7
        } else if i == 56 {
            Square::A8
        } else if i == 57 {
            Square::B8
        } else if i == 58 {
            Square::C8
        } else if i == 59 {
            Square::D8
        } else if i == 60 {
            Square::E8
        } else if i == 61 {
            Square::F8
        } else if i == 62 {
            Square::G8
        } else if i == 63 {
            Square::H8
        } else {
            Square::NONE
        }
    }

    /// The square with index `i`.
    pub fn from_index(i: usize) -> (r: Square)
        requires
            i < 64,
        ensures
            r.spec_index() == i,
            r == Square::spec_from_index(i as int),
    {
        proof { reveal(Square::spec_from_index); }
        match i {
            0 => Square::A1,
            1 => Square::B1,
            2 => Square::C1,
            3 => Square::D1,
            4 => Square::E1,
            5 => Square::F1,
            6 => Square::G1,
            7 => Square::H1,
            8 => Square::A2,
            9 => Square::B2,
            10 => Square::C2,
            11 => Square::D2,
            12 => Square::E2,
            13 => Square::F2,
            14 => Square::G2,
            15 => Square::H2,
            16 => Square::A3,
            17 => Square::B3,
            18 => Square::C3,
            19 => Square::D3,
            20 => Square::E3,
            21 => Square::F3,
            22 => Square::G3,
            23 => Square::H3,
            24 => Square::A4,
            25 => Square::B4,
            26 => Square::C4,
            27 => Square::D4,
            28 => Square::E4,
            29 => Square::F4,
            30 => Square::G4,
            31 => Square::H4,
            32 => Square::A5,
            33 => Square::B5,
            34 => Square::C5,
            35 => Square::D5,
            36 => Square::E5,
            37 => Square::F5,
            38 => Square::G5,
            39 => Square::H5,
            40 => Square::A6,
            41 => Square::B6,
            42 => Square::C6,
            43 => Square::D6,
            44 => Square::E6,
            45 => Square::F6,
            46 => Square::G6,
            47 => Square::H6,
            48 => Square::A7,
            49 => Square::B7,
            50 => Square::C7,
            51 => Square::D7,
            52 => Square::E7,
            53 => Square::F7,
            54 => Square::G7,
            55 => Square::H7,
            56 => Square::A8,
            57 => Square::B8,
            58 => Square::C8,
            59 => Square::D8,
            60 => Square::E8,
            61 => Square::F8,
            62 => Square::G8,
            _ => Square::H8,
        }
    }
}

/// The index of the square shown at position `i` (`0..64`) of display
/// order: A8, B8, .., H8, A7, .., H1.
pub open spec fn display_to_index(i: int) -> int {
    8 * (7 - i / 8) + i % 8
}

impl Square {
    /// The square at position `i` of display order.
    pub fn display_order(i: usize) -> (r: Square)
        requires
            i < 64,
        ensures
            r.spec_index() == display_to_index(i as int),
            r == Square::spec_from_index(display_to_index(i as int)),
    {
        Square::from_index(8 * (7 - i / 8) + i % 8)
    }

    /// The square at position `i` of index order (A1, B1, .., H8).
    pub fn index_order(i: usize) -> (r: Square)
        requires
            i < 64,
        ensures
            r.spec_index() == i,
            r == Square::spec_from_index(i as int),
    {
        Square::from_index(i)
    }

    /// The singleton set holding this square.
    pub fn to_bb(&self) -> (r: Bitboard)
        requires
            *self != Square::NONE,
        ensures
            r.0 == 1u64 << (self.spec_index() as u64),
            forall|j: int| r.has(j) <==> j == self.spec_index(),
    {
        let i: u64 = self.index() as u64;
        proof {
            assert forall|j: u64| j < 64 implies (bit(1u64 << i, j) <==> j == i) by {
                assert(i < 64 && j < 64 ==> ((((1u64 << i) >> j) & 1u64 == 1u64) <==> j == i))
                    by (bit_vector);
            }
        }
        Bitboard(1u64 << i)
    }
}

/// Every square's index falls in `0..65`, and the index names the square.
pub proof fn lemma_index_names_square(s: Square)
    ensures
        0 <= s.spec_index() <= 64,
        s.spec_index() == 64 <==> s == Square::NONE,
        Square::spec_from_index(s.spec_index()) == s,
{
    reveal(Square::spec_from_index);
}

/// Reading back the index of the square with index `i`.
proof fn lemma_from_index_inverse(i: int)
    requires
        0 <= i < 64,
    ensures
        Square::spec_from_index(i).spec_index() == i,
{
    reveal(Square::spec_from_index);
}

/// Display order maps `0..64` into itself and undoes itself.
pub proof fn lemma_display_involution(i: int)
    requires
        0 <= i < 64,
    ensures
        0 <= display_to_index(i) < 64,
        display_to_index(display_to_index(i)) == i,
{
    let d = display_to_index(i);
    assert(d / 8 == 7 - i / 8 && d % 8 == i % 8);
}

/// Index order and display order each list the 64 real squares once:
/// no `NONE`, no square twice, none left out.
pub proof fn lemma_orders_are_permutations()
    ensures
        forall|i: int|
            0 <= i < 64 ==> Square::spec_from_index(i) != Square::NONE
                && Square::spec_from_index(display_to_index(i)) != Square::NONE,
        forall|i: int, j: int|
            0 <= i < 64 && 0 <= j < 64 && i != j ==> Square::spec_from_index(i)
                != Square::spec_from_index(j) && Square::spec_from_index(display_to_index(i))
                != Square::spec_from_index(display_to_index(j)),
        forall|s: Square|
            #[trigger] s.spec_index() < 64 ==> (exists|i: int|
                0 <= i < 64 && Square::spec_from_index(i) == s) && (exists|i: int|
                0 <= i < 64 && Square::spec_from_index(display_to_index(i)) == s),
{
    assert forall|i: int| 0 <= i < 64 implies 0 <= #[trigger] display_to_index(i) < 64
        && display_to_index(display_to_index(i)) == i by {
        lemma_display_involution(i);
    }
    assert forall|i: int| 0 <= i < 64 implies Square::spec_from_index(i) != Square::NONE
        && Square::spec_from_index(display_to_index(i)) != Square::NONE by {
        lemma_from_index_inverse(i);
        lemma_from_index_inverse(display_to_index(i));
    }
    assert forall|i: int, j: int|
        0 <= i < 64 && 0 <= j < 64 && i != j implies Square::spec_from_index(i)
            != Square::spec_from_index(j) && Square::spec_from_index(display_to_index(i))
            != Square::spec_from_index(display_to_index(j)) by {
        lemma_from_index_inverse(i);
        lemma_from_index_inverse(j);
        lemma_from_index_inverse(display_to_index(i));
        lemma_from_index_inverse(display_to_index(j));
    }
    assert forall|s: Square| #[trigger] s.spec_index() < 64 implies (exists|i: int|
        0 <= i < 64 && Square::spec_from_index(i) == s) && (exists|i: int|
        0 <= i < 64 && Square::spec_from_index(display_to_index(i)) == s) by {
        lemma_index_names_square(s);
        let k = s.spec_index();
        lemma_display_involution(k);
        assert(Square::spec_from_index(k) == s);
        assert(Square::spec_from_index(display_to_index(display_to_index(k))) == s);
    }
}

/// The side a piece belongs to; its tag is `0` for White, `1` for Black.
#[derive(Clone, Copy, Debug, PartialEq, Eq, Structural)]
pub enum Color {
    White,
    Black,
}

impl Color {
    /// The integer tag of the color.
    pub open spec fn spec_tag(self) -> u8 {
        match self {
            Color::White => 0,
            Color::Black => 1,
        }
    }

    /// The integer tag of the color.
    pub fn tag(self) -> (r: u8)
        ensures
            r == self.spec_tag(),
    {
        match self {
            Color::White => 0,
            Color::Black => 1,
        }
    }
}

/// A kind of piece. Tags run `0..8`: `NoPieceType`, pawn, knight, bishop, rook,
/// queen, king, and `All`, which indexes the union over every kind.
#[derive(Clone, Copy, Debug, PartialEq, Eq, Structural)]
pub enum PieceType {
    NoPieceType,
    P,
    N,
    B,
    R,
    Q,
    K,
    All,
}

impl PieceType {
    /// The integer tag of the kind.
    pub open spec fn spec_tag(self) -> u8 {
        match self {
            PieceType::NoPieceType => 0,
            PieceType::P => 1,
            PieceType::N => 2,
            PieceType::B => 3,
            PieceType::R => 4,
            PieceType::Q => 5,
            PieceType::K => 6,
            PieceType::All => 7,
        }
    }

    /// The kind whose tag is `t`, for `t < 8`.
    pub open spec fn spec_from_tag(t: int) -> PieceType {
        if t == 1 {
            PieceType::P
        } else if t == 2 {
            PieceType::N
        } else if t == 3 {
            PieceType::B
        } else if t == 4 {
            PieceType::R
        } else if t == 5 {
            PieceType::Q
        } else if t == 6 {
            PieceType::K
        } else if t == 7 {
            PieceType::All
        } else {
            PieceType::NoPieceType
        }
    }

    /// One of the six kinds of real chessmen (not `NoPieceType`, not `All`).
    pub open spec fn is_real(self) -> bool {
        self != PieceType::NoPieceType && self != PieceType::All
    }

    /// The integer tag of the kind.
    pub fn tag(self) -> (r: u8)
        ensures
            r == self.spec_tag(),
    {
        match self {
            PieceType::NoPieceType => 0,
            PieceType::P => 1,
            PieceType::N => 2,
            PieceType::B => 3,
            PieceType::R => 4,
            PieceType::Q => 5,
            PieceType::K => 6,
            PieceType::All => 7,
        }
    }
}

/// A piece: color in bit 3, kind tag in bits 0..3. `NoPiece` (code 0) means
/// no piece; the code `0b1000` is never used.
#[derive(Clone, Copy, Debug, PartialEq, Eq, Structural)]
pub enum Piece {
    NoPiece,
    WhitePawn,
    WhiteKnight,
    WhiteBishop,
    WhiteRook,
    WhiteQueen,
    WhiteKing,
    BlackPawn,
    BlackKnight,
    BlackBishop,
    BlackRook,
    BlackQueen,
    BlackKing,
}

impl Piece {
    /// The 4-bit encoding of the piece.
    pub open spec fn code(self) -> u8 {
        match self {
            Piece::NoPiece => 0b0000,
            Piece::WhitePawn => 0b0001,
            Piece::WhiteKnight => 0b0010,
            Piece::WhiteBishop => 0b0011,
            Piece::WhiteRook => 0b0100,
            Piece::WhiteQueen => 0b0101,
            Piece::WhiteKing => 0b0110,
            Piece::BlackPawn => 0b1001,
            Piece::BlackKnight => 0b1010,
            Piece::BlackBishop => 0b1011,
            Piece::BlackRook => 0b1100,
            Piece::BlackQueen => 0b1101,
            Piece::BlackKing => 0b1110,
        }
    }

    /// The color named by bit 3 of the code.
    pub open spec fn spec_color(self) -> Color {
        if self.code() < 8 {
            Color::White
        } else {
            Color::Black
        }
    }

    /// The kind named by bits 0..3 of the code.
    pub open spec fn spec_type_of(self) -> PieceType {
        PieceType::spec_from_tag(self.code() as int % 8)
    }

    /// The FEN letter of the piece: upper case for White.
    pub open spec fn spec_character(self) -> char {
        match self {
            Piece::NoPiece => ' ',
            Piece::WhitePawn => 'P',
            Piece::WhiteKnight => 'N',
            Piece::WhiteBishop => 'B',
            Piece::WhiteRook => 'R',
            Piece::WhiteQueen => 'Q',
            Piece::WhiteKing => 'K',
            Piece::BlackPawn => 'p',
            Piece::BlackKnight => 'n',
            Piece::BlackBishop => 'b',
            Piece::BlackRook => 'r',
            Piece::BlackQueen => 'q',
            Piece::BlackKing => 'k',
        }
    }

    /// The chess-figure glyph of the piece.
    pub open spec fn spec_symbol(self) -> char {
        match self {
            Piece::NoPiece => ' ',
            Piece::WhitePawn => '\u{2659}',
            Piece::WhiteKnight => '\u{2658}',
            Piece::WhiteBishop => '\u{2657}',
            Piece::WhiteRook => '\u{2656}',
            Piece::WhiteQueen => '\u{2655}',
            Piece::WhiteKing => '\u{2654}',
            Piece::BlackPawn => '\u{265F}',
            Piece::BlackKnight => '\u{265E}',
            Piece::BlackBishop => '\u{265D}',
            Piece::BlackRook => '\u{265C}',
            Piece::BlackQueen => '\u{265B}',
            Piece::BlackKing => '\u{265A}',
        }
    }

    /// The piece whose encoding is `x`; `NoPiece` for an unused code.
    pub open spec fn spec_from_code(x: int) -> Piece {
        if x == 0b0001 {
            Piece::WhitePawn
        } else if x == 0b0010 {
            Piece::WhiteKnight
        } else if x == 0b0011 {
            Piece::WhiteBishop
        } else if x == 0b0100 {
            Piece::WhiteRook
        } else if x == 0b0101 {
            Piece::WhiteQueen
        } else if x == 0b0110 {
            Piece::WhiteKing
        } else if x == 0b1001 {
            Piece::BlackPawn
        } else if x == 0b1010 {
            Piece::BlackKnight
        } else if x == 0b1011 {
            Piece::BlackBishop
        } else if x == 0b1100 {
            Piece::BlackRook
        } else if x == 0b1101 {
            Piece::BlackQueen
        } else if x == 0b1110 {
            Piece::BlackKing
        } else {
            Piece::NoPiece
        }
    }

    /// The piece of a color and a kind: color tag in bit 3, kind tag below;
    /// `NoPiece` for the kinds `NoPieceType` and `All`.
    pub open spec fn spec_make(color: Color, piece_type: PieceType) -> Piece {
        if piece_type.is_real() {
            Piece::spec_from_code(8 * color.spec_tag() as int + piece_type.spec_tag() as int)
        } else {
            Piece::NoPiece
        }
    }

    /// The 4-bit encoding of the piece.
    pub fn code_bits(self) -> (r: u8)
        ensures
            r == self.code(),
    {
        match self {
            Piece::NoPiece => 0b0000,
            Piece::WhitePawn => 0b0001,
            Piece::WhiteKnight => 0b0010,
            Piece::WhiteBishop => 0b0011,
            Piece::WhiteRook => 0b0100,
            Piece::WhiteQueen => 0b0101,
            Piece::WhiteKing => 0b0110,
            Piece::BlackPawn => 0b1001,
            Piece::BlackKnight => 0b1010,
            Piece::BlackBishop => 0b1011,
            Piece::BlackRook => 0b1100,
            Piece::BlackQueen => 0b1101,
            Piece::BlackKing => 0b1110,
        }
    }

    /// The piece of the given color and kind; `NoPiece` when the kind is
    /// `NoPieceType` or `All`.
    pub fn make(color: Color, piece_type: PieceType) -> (r: Piece)
        ensures
            r == Piece::spec_make(color, piece_type),
    {
        let c = color.tag();
        let t = piece_type.tag();
        let bits: u8 = c << 3 | t;
        assert(c <= 1 && t <= 7 ==> c << 3 | t == 8 * c + t) by (bit_vector);
        match bits {
            0b0001 => Piece::WhitePawn,
            0b0010 => Piece::WhiteKnight,
            0b0011 => Piece::WhiteBishop,
            0b0100 => Piece::WhiteRook,
            0b0101 => Piece::WhiteQueen,
            0b0110 => Piece::WhiteKing,
            0b1001 => Piece::BlackPawn,
            0b1010 => Piece::BlackKnight,
            0b1011 => Piece::BlackBishop,
            0b1100 => Piece::BlackRook,
            0b1101 => Piece::BlackQueen,
            0b1110 => Piece::BlackKing,
            _ => Piece::NoPiece,
        }
    }

    /// The color bit of the piece (White for `NoPiece`).
    pub fn color(self) -> (r: Color)
        ensures
            r == self.spec_color(),
    {
        let x = self.code_bits();
        let color_bit: u8 = (x >> 3) & 1;
        assert(x < 16 ==> ((x >> 3) & 1 == 0 <==> x < 8)) by (bit_vector);
        if color_bit == 0 {
            Color::White
        } else {
            Color::Black
        }
    }

    /// The kind of the piece (`NoPieceType` for no piece).
    pub fn type_of(self) -> (r: PieceType)
        ensures
            r == self.spec_type_of(),
    {
        let x = self.code_bits();
        let piece_type: u8 = x & 0b0111;
        assert(x & 7 == x % 8) by (bit_vector);
        match piece_type {
            0 => PieceType::NoPieceType,
            1 => PieceType::P,
            2 => PieceType::N,
            3 => PieceType::B,
            4 => PieceType::R,
            5 => PieceType::Q,
            6 => PieceType::K,
            _ => PieceType::All,
        }
    }

    /// The FEN letter of the piece. Asking it of no piece is a caller error.
    pub fn character(self) -> (r: char)
        requires
            self != Piece::NoPiece,
        ensures
            r == self.spec_character(),
    {
        match self {
            Piece::WhitePawn => 'P',
            Piece::WhiteKnight => 'N',
            Piece::WhiteBishop => 'B',
            Piece::WhiteRook => 'R',
            Piece::WhiteQueen => 'Q',
            Piece::WhiteKing => 'K',
            Piece::BlackPawn => 'p',
            Piece::BlackKnight => 'n',
            Piece::BlackBishop => 'b',
            Piece::BlackRook => 'r',
            Piece::BlackQueen => 'q',
            _ => 'k',
        }
    }

    /// The chess-figure glyph of the piece. Asking it of no piece is a
    /// caller error.
    pub fn symbol(self) -> (r: char)
        requires
            self != Piece::NoPiece,
        ensures
            r == self.spec_symbol(),
    {
        match self {
            Piece::WhitePawn => '\u{2659}',
            Piece::WhiteKnight => '\u{2658}',
            Piece::WhiteBishop => '\u{2657}',
            Piece::WhiteRook => '\u{2656}',
            Piece::WhiteQueen => '\u{2655}',
            Piece::WhiteKing => '\u{2654}',
            Piece::BlackPawn => '\u{265F}',
            Piece::BlackKnight => '\u{265E}',
            Piece::BlackBishop => '\u{265D}',
            Piece::BlackRook => '\u{265C}',
            Piece::BlackQueen => '\u{265B}',
            _ => '\u{265A}',
        }
    }
}

/// Building a piece from a color and a real kind, then reading its color
/// and kind back, gives that color and kind; the kinds `NoPieceType` and
/// `All` build no piece.
pub proof fn lemma_make_round_trip(color: Color, piece_type: PieceType)
    ensures
        piece_type.is_real() ==> Piece::spec_make(color, piece_type) != Piece::NoPiece
            && Piece::spec_make(color, piece_type).spec_color() == color
            && Piece::spec_make(color, piece_type).spec_type_of() == piece_type,
        !piece_type.is_real() ==> Piece::spec_make(color, piece_type) == Piece::NoPiece,
{
}

/// Castling rights: a set over four flags, one bit each.
#[derive(Clone, Copy, Debug, PartialEq, Eq, Structural)]
pub struct Castling(u8);

/// Bit of White's kingside right.
pub const WHITE_K: u8 = 0b1000;
/// Bit of White's queenside right.
pub const WHITE_Q: u8 = 0b0100;
/// Bit of Black's kingside right.
pub const BLACK_K: u8 = 0b0010;
/// Bit of Black's queenside right.
pub const BLACK_Q: u8 = 0b0001;

impl Castling {
    #[verifier::type_invariant]
    spec fn inv(self) -> bool {
        self.0 < 16
    }

    /// The four flags as the low bits of a byte.
    pub closed spec fn view(self) -> u8 {
        self.0
    }

    /// The four flags as the low bits of a byte.
    pub fn bits(&self) -> (r: u8)
        ensures
            r == self@,
            r < 16,
    {
        proof { use_type_invariant(self); }
        self.0
    }

    /// No right at all.
    pub fn none() -> (r: Castling)
        ensures
            r@ == 0,
    {
        Castling(0)
    }

    /// All four rights.
    pub fn all() -> (r: Castling)
        ensures
            r@ == WHITE_K | WHITE_Q | BLACK_K | BLACK_Q,
    {
        assert(0b1000u8 | 0b0100u8 | 0b0010u8 | 0b0001u8 == 0b1111u8) by (bit_vector);
        Castling(0b1111)
    }

    /// White may castle kingside.
    pub fn white_k() -> (r: Castling)
        ensures
            r@ == WHITE_K,
    {
        Castling(WHITE_K)
    }

    /// White may castle queenside.
    pub fn white_q() -> (r: Castling)
        ensures
            r@ == WHITE_Q,
    {
        Castling(WHITE_Q)
    }

    /// Black may castle kingside.
    pub fn black_k() -> (r: Castling)
        ensures
            r@ == BLACK_K,
    {
        Castling(BLACK_K)
    }

    /// Black may castle queenside.
    pub fn black_q() -> (r: Castling)
        ensures
            r@ == BLACK_Q,
    {
        Castling(BLACK_Q)
    }

    /// Union of two sets of rights.
    pub fn bitor(self, other: Castling) -> (r: Castling)
        ensures
            r@ == self@ | other@,
    {
        proof {
            use_type_invariant(self);
            use_type_invariant(other);
            let (a, b) = (self.0, other.0);
            assert(a < 16 && b < 16 ==> a | b < 16) by (bit_vector);
        }
        Castling(self.0 | other.0)
    }

    /// In-place union.
    pub fn bitor_assign(&mut self, other: Castling)
        ensures
            final(self)@ == old(self)@ | other@,
    {
        *self = self.bitor(other);
    }
}

} // verus!
