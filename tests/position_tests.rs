use chessboard::bitboard::Bitboard;
use chessboard::position::{FenError, Position, DEFAULT_FEN_STRING};
use chessboard::types::{Color, Piece, PieceType, Square};

fn decode(fen: &str) -> Position {
    Position::from_fen(fen).expect("a valid FEN text")
}

#[test]
fn start_position_unions_agree_and_hold_32_squares() {
    let p = decode(DEFAULT_FEN_STRING);
    let kinds = p.union_of_per_kind_bitboards();
    let colors = p.union_of_per_color_bitboards();
    assert_eq!(kinds, colors);
    assert_eq!(kinds.0.count_ones(), 32);
    assert_eq!(kinds.0, 0xFFFF_0000_0000_FFFF);
}

#[test]
fn start_position_pretty() {
    let p = decode(DEFAULT_FEN_STRING);
    let sep = "+---+---+---+---+---+---+---+---+\n";
    let ranks = [
        "| r | n | b | q | k | b | n | r | 8\n",
        "| p | p | p | p | p | p | p | p | 7\n",
        "|   |   |   |   |   |   |   |   | 6\n",
        "|   |   |   |   |   |   |   |   | 5\n",
        "|   |   |   |   |   |   |   |   | 4\n",
        "|   |   |   |   |   |   |   |   | 3\n",
        "| P | P | P | P | P | P | P | P | 2\n",
        "| R | N | B | Q | K | B | N | R | 1\n",
    ];
    let mut want = String::from(sep);
    for r in ranks {
        want.push_str(r);
        want.push_str(sep);
    }
    want.push_str("  a   b   c   d   e   f   g   h\n");
    assert_eq!(p.pretty(), want);
}

#[test]
fn start_position_fields() {
    let p = decode(DEFAULT_FEN_STRING);
    assert_eq!(p.turn(), Color::White);
    assert_eq!(p.castle_rights().bits(), 0b1111);
    assert_eq!(p.ep_square(), Square::NONE);
    assert_eq!(p.rule50_count(), 0);
    assert_eq!(p.game_ply(), 0);
    assert_eq!(p.piece_on(&Square::E1), Piece::WhiteKing);
    assert_eq!(p.piece_on(&Square::D8), Piece::BlackQueen);
    assert_eq!(p.piece_on(&Square::E4), Piece::NoPiece);
    assert_eq!(p.pieces_of_kind(PieceType::P).0, 0x00FF_0000_0000_FF00);
    assert_eq!(p.pieces_of_kind(PieceType::All).0, 0);
    assert_eq!(p.pieces_of_kind(PieceType::NoPieceType).0, 0);
    assert_eq!(p.pieces_of_color(Color::White).0, 0xFFFF);
    assert_eq!(p.pieces_of_color(Color::Black).0, 0xFFFF_0000_0000_0000);
}

#[test]
fn en_passant_rank_three_for_white() {
    let p = decode("rnbqkbnr/pppppppp/8/8/4P3/8/PPPP1PPP/RNBQKBNR w KQkq e3 0 1");
    assert_eq!(p.ep_square(), Square::E3);
    assert_eq!(p.ep_square().index(), 20);
}

#[test]
fn en_passant_rank_six_for_black() {
    let p = decode("rnbqkbnr/pppp1ppp/8/4p3/8/8/PPPPPPPP/RNBQKBNR b KQkq e6 0 2");
    assert_eq!(p.ep_square(), Square::E6);
    assert_eq!(p.ep_square().index(), 44);
    let q = decode("8/8/8/8/8/8/8/8 b - e3 0 1");
    assert_eq!(q.ep_square(), Square::E6);
    let r = decode("8/8/8/8/8/8/8/8 b - a 0 1");
    assert_eq!(r.ep_square(), Square::A3);
}

#[test]
fn move_counters() {
    let p = decode("8/8/8/8/8/8/8/8 w - - 0 1");
    assert_eq!(p.rule50_count(), 0);
    assert_eq!(p.game_ply(), 0);
    let q = decode("8/8/8/8/8/8/8/8 b - - 4 5");
    assert_eq!(q.rule50_count(), 4);
    assert_eq!(q.game_ply(), 9);
    let r = decode("8/8/8/8/8/8/8/8 w - - +7 10");
    assert_eq!(r.rule50_count(), 7);
    assert_eq!(r.game_ply(), 18);
}

#[test]
fn castling_field() {
    assert_eq!(decode("8/8/8/8/8/8/8/8 w - - 0 1").castle_rights().bits(), 0);
    assert_eq!(decode("8/8/8/8/8/8/8/8 w Kq - 0 1").castle_rights().bits(), 0b1001);
    assert_eq!(decode("8/8/8/8/8/8/8/8 w Qkx - 0 1").castle_rights().bits(), 0b0110);
}

#[test]
fn unknown_placement_letters_take_a_square() {
    let p = decode("x7/8/8/8/8/8/8/7K\tw - - 0 1");
    assert_eq!(p.piece_on(&Square::A8), Piece::NoPiece);
    assert_eq!(p.piece_on(&Square::H1), Piece::WhiteKing);
    assert_eq!(p.union_of_per_kind_bitboards().0, 1u64 << 7);
    let q = decode("kx/8/8/8/8/8/8/8 w - - 0 1 extra");
    assert_eq!(q.piece_on(&Square::A8), Piece::BlackKing);
    assert_eq!(q.union_of_per_color_bitboards().0, 1u64 << 56);
}

#[test]
fn fen_errors() {
    assert_eq!(
        Position::from_fen("8/8/8/8/8/8/8/8 w - - 0").unwrap_err(),
        FenError::MissingField
    );
    assert_eq!(Position::from_fen("").unwrap_err(), FenError::MissingField);
    assert_eq!(
        Position::from_fen("8/8/8/8/8/8/8/8/K w - - 0 1").unwrap_err(),
        FenError::BadPlacement
    );
    assert_eq!(
        Position::from_fen("8/8/8/8/8/8/8/8 x - - 0 1").unwrap_err(),
        FenError::BadSideToMove
    );
    assert_eq!(
        Position::from_fen("8/8/8/8/8/8/8/8 ww - - 0 1").unwrap_err(),
        FenError::BadSideToMove
    );
    assert_eq!(
        Position::from_fen("8/8/8/8/8/8/8/8 w - z3 0 1").unwrap_err(),
        FenError::BadEnPassant
    );
    assert_eq!(
        Position::from_fen("8/8/8/8/8/8/8/8 w - - x 1").unwrap_err(),
        FenError::BadHalfmoveClock
    );
    assert_eq!(
        Position::from_fen("8/8/8/8/8/8/8/8 w - - -1 1").unwrap_err(),
        FenError::BadHalfmoveClock
    );
    assert_eq!(
        Position::from_fen("8/8/8/8/8/8/8/8 w - - 0 0").unwrap_err(),
        FenError::BadFullmoveNumber
    );
    assert_eq!(
        Position::from_fen("8/8/8/8/8/8/8/8 w - - 0 y").unwrap_err(),
        FenError::BadFullmoveNumber
    );
    assert_eq!(
        Position::from_fen("8/8/8/8/8/8/8/8 w - - 0 4294967296").unwrap_err(),
        FenError::BadFullmoveNumber
    );
    assert_eq!(
        Position::from_fen("8/8/8/8/8/8/8/8 b - - 0 2147483649").unwrap_err(),
        FenError::BadFullmoveNumber
    );
}

#[test]
fn largest_counters_that_fit() {
    let p = decode("8/8/8/8/8/8/8/8 w - - 4294967295 2147483648");
    assert_eq!(p.rule50_count(), u32::MAX);
    assert_eq!(p.game_ply(), u32::MAX - 1);
    let q = decode("8/8/8/8/8/8/8/8 b - - 0 2147483647");
    assert_eq!(q.game_ply(), u32::MAX - 2);
}

#[test]
fn put_piece_updates_all_three_records() {
    let mut p = decode("8/8/8/8/8/8/8/8 w - - 0 1");
    p.put_piece(Piece::BlackKnight, &Square::C3);
    assert_eq!(p.piece_on(&Square::C3), Piece::BlackKnight);
    assert_eq!(p.pieces_of_kind(PieceType::N), Square::C3.to_bb());
    assert_eq!(p.pieces_of_color(Color::Black), Square::C3.to_bb());
    assert_eq!(p.pieces_of_color(Color::White), Bitboard::empty());
    assert_eq!(p.union_of_per_kind_bitboards(), p.union_of_per_color_bitboards());
}
