use chessboard::bitboard::Bitboard;
use chessboard::types::{Castling, Color, Piece, PieceType, Square};

const REAL_KINDS: [PieceType; 6] = [
    PieceType::P,
    PieceType::N,
    PieceType::B,
    PieceType::R,
    PieceType::Q,
    PieceType::K,
];

#[test]
fn make_round_trips_for_every_real_kind() {
    for color in [Color::White, Color::Black] {
        for kind in REAL_KINDS {
            let pc = Piece::make(color, kind);
            assert_ne!(pc, Piece::NoPiece);
            assert_eq!(pc.color(), color);
            assert_eq!(pc.type_of(), kind);
        }
    }
}

#[test]
fn make_without_real_kind_gives_no_piece() {
    for color in [Color::White, Color::Black] {
        assert_eq!(Piece::make(color, PieceType::NoPieceType), Piece::NoPiece);
        assert_eq!(Piece::make(color, PieceType::All), Piece::NoPiece);
    }
}

#[test]
fn piece_encoding_bits() {
    assert_eq!(Piece::make(Color::White, PieceType::P).code_bits(), 0b0001);
    assert_eq!(Piece::make(Color::White, PieceType::K).code_bits(), 0b0110);
    assert_eq!(Piece::make(Color::Black, PieceType::P).code_bits(), 0b1001);
    assert_eq!(Piece::make(Color::Black, PieceType::K).code_bits(), 0b1110);
    assert_eq!(Piece::NoPiece.code_bits(), 0);
    assert_eq!(Piece::NoPiece.color(), Color::White);
    assert_eq!(Piece::NoPiece.type_of(), PieceType::NoPieceType);
}

#[test]
fn tags_of_colors_and_kinds() {
    assert_eq!(Color::White.tag(), 0);
    assert_eq!(Color::Black.tag(), 1);
    assert_eq!(PieceType::NoPieceType.tag(), 0);
    assert_eq!(PieceType::P.tag(), 1);
    assert_eq!(PieceType::K.tag(), 6);
    assert_eq!(PieceType::All.tag(), 7);
}

#[test]
fn piece_characters_and_symbols() {
    assert_eq!(Piece::WhitePawn.character(), 'P');
    assert_eq!(Piece::WhiteKnight.character(), 'N');
    assert_eq!(Piece::BlackQueen.character(), 'q');
    assert_eq!(Piece::BlackKing.character(), 'k');
    assert_eq!(Piece::WhiteKing.symbol(), '\u{2654}');
    assert_eq!(Piece::BlackPawn.symbol(), '\u{265F}');
    assert_eq!(Piece::BlackRook.symbol(), '\u{265C}');
}

#[test]
fn square_indices() {
    assert_eq!(Square::A1.index(), 0);
    assert_eq!(Square::H1.index(), 7);
    assert_eq!(Square::E3.index(), 20);
    assert_eq!(Square::E6.index(), 44);
    assert_eq!(Square::H8.index(), 63);
    assert_eq!(Square::NONE.index(), 64);
}

#[test]
fn index_and_display_orders_are_permutations() {
    let mut seen_index = [false; 64];
    let mut seen_display = [false; 64];
    for i in 0..64 {
        let a = Square::index_order(i);
        let b = Square::display_order(i);
        assert_eq!(a.index(), i);
        assert!(!seen_index[a.index()]);
        assert!(!seen_display[b.index()]);
        seen_index[a.index()] = true;
        seen_display[b.index()] = true;
    }
    assert!(seen_index.iter().all(|x| *x));
    assert!(seen_display.iter().all(|x| *x));
    assert_eq!(Square::display_order(0), Square::A8);
    assert_eq!(Square::display_order(7), Square::H8);
    assert_eq!(Square::display_order(8), Square::A7);
    assert_eq!(Square::display_order(63), Square::H1);
}

#[test]
fn square_bitboard_is_a_singleton_at_its_index() {
    for i in 0..64 {
        let s = Square::from_index(i);
        let bb = s.to_bb();
        assert_eq!(bb.0.count_ones(), 1);
        assert_eq!(bb.0.trailing_zeros() as usize, s.index());
    }
    assert_eq!(Square::B1.to_bb().0, 2);
    assert_eq!(Square::H8.to_bb().0, 1u64 << 63);
}

#[test]
fn castling_union() {
    let mut c = Castling::none();
    assert_eq!(c.bits(), 0);
    c.bitor_assign(Castling::white_k());
    assert_eq!(c.bits(), 0b1000);
    let d = c.bitor(Castling::black_q());
    assert_eq!(d.bits(), 0b1001);
    let all = Castling::white_k()
        .bitor(Castling::white_q())
        .bitor(Castling::black_k())
        .bitor(Castling::black_q());
    assert_eq!(all, Castling::all());
    assert_eq!(all.bits(), 0b1111);
    assert_eq!(all.bitor(all).bits(), 0b1111);
}

#[test]
fn bitboard_union() {
    let a = Bitboard(0b1010);
    let b = Bitboard(0b0110);
    assert_eq!(a.bitor(b).0, 0b1110);
    assert_eq!(a.bitor(Bitboard::empty()), a);
    let mut c = a;
    c.bitor_assign(b);
    assert_eq!(c.0, 0b1110);
    assert_eq!(b.bitor(a), a.bitor(b));
}

#[test]
fn bitboard_pretty_marks_members() {
    let bb = Square::A1.to_bb().bitor(Square::H8.to_bb());
    let sep = "+---+---+---+---+---+---+---+---+\n";
    let mut want = String::from(sep);
    want.push_str("|   |   |   |   |   |   |   | X | 8\n");
    want.push_str(sep);
    for rank in (2..8).rev() {
        want.push_str(&format!("|   |   |   |   |   |   |   |   | {}\n", rank));
        want.push_str(sep);
    }
    want.push_str("| X |   |   |   |   |   |   |   | 1\n");
    want.push_str(sep);
    want.push_str("  a   b   c   d   e   f   g   h\n");
    assert_eq!(bb.pretty(), want);
}

#[test]
fn empty_bitboard_pretty_has_no_marks() {
    let s = Bitboard::empty().pretty();
    assert!(!s.contains('X'));
    assert_eq!(s.lines().count(), 18);
}
