use vstd::prelude::*;
use crate::bitboard::{bit, lemma_or_has, Bitboard};
use crate::render::{border, border_text, cells, finish_row, grid, legend_text, row, rows};
use crate::fen::{digit_value, fields, is_digit, parse_number, parse_u32, split_fields};
use crate::types::{
    display_to_index, lemma_display_involution, Castling, Color, Piece, PieceType, Square, BLACK_K, BLACK_Q, WHITE_K, WHITE_Q,
};

verus! {

/// The FEN text of the position a game starts from.
pub const DEFAULT_FEN_STRING: &'static str = "rnbqkbnr/pppppppp/8/8/8/8/PPPPPPPP/RNBQKBNR w KQkq - 0 1";

/// The number of colors.
pub const COLOR_CNT: usize = 2;
/// The number of piece-kind tags, `All` included.
pub const PIECE_TYPE_CNT: usize = 8;
/// The number of board squares.
pub const SQ_CNT: usize = 64;

/// A board position: per-kind and per-color square sets, the piece on each
/// square, side to move, castling rights, en-passant target and counters.
#[derive(Clone, Copy, Debug)]
pub struct Position {
    /// Squares of each kind of piece, whatever its color, by kind tag.
    bbs: [Bitboard; PIECE_TYPE_CNT],
    /// Squares of each color's pieces, by color tag.
    bbs_color: [Bitboard; COLOR_CNT],
    /// The piece on each square, by square index.
    board: [Piece; SQ_CNT],
    /// The side to move.
    turn: Color,
    /// Castling rights of both sides.
    castle_rights: Castling,
    /// The square behind a pawn that just advanced two squares, or `NONE`.
    ep_square: Square,
    /// Half-moves since the last pawn advance or capture.
    rule50_count: u32,
    /// Half-moves since the start of the game.
    game_ply: u32,
}

impl Position {
    /// The piece on the square of index `s`.
    pub closed spec fn piece_at(self, s: int) -> Piece {
        self.board@[s]
    }

    /// The pieces on the 64 squares, by index.
    pub closed spec fn pieces(self) -> Seq<Piece> {
        self.board@
    }

    /// The square set of the kind with tag `k`.
    pub closed spec fn kind_bb(self, k: int) -> Bitboard {
        self.bbs@[k]
    }

    /// The square set of the color with tag `c`.
    pub closed spec fn color_bb(self, c: int) -> Bitboard {
        self.bbs_color@[c]
    }

    /// The side to move.
    pub closed spec fn spec_turn(self) -> Color {
        self.turn
    }

    /// The castling rights.
    pub closed spec fn spec_castle_rights(self) -> Castling {
        self.castle_rights
    }

    /// The en-passant target, or `NONE`.
    pub closed spec fn spec_ep_square(self) -> Square {
        self.ep_square
    }

    /// Half-moves since the last pawn advance or capture.
    pub closed spec fn spec_rule50_count(self) -> u32 {
        self.rule50_count
    }

    /// Half-moves since the start of the game.
    pub closed spec fn spec_game_ply(self) -> u32 {
        self.game_ply
    }

    /// The three placement records agree: a square is in the set of kind `k`
    /// exactly when a piece of kind `k` stands on it, and in the set of color
    /// `c` exactly when a piece of color `c` stands on it. Empty squares are
    /// in no set.
    pub open spec fn wf(self) -> bool {
        &&& self.pieces().len() == 64
        &&& forall|s: int, k: int|
            0 <= s < 64 && 0 <= k < 8 ==> (#[trigger] self.kind_bb(k).has(s) <==> (
            self.piece_at(s) != Piece::NoPiece && self.piece_at(s).spec_type_of().spec_tag()
                == k))
        &&& forall|s: int, c: int|
            0 <= s < 64 && 0 <= c < 2 ==> (#[trigger] self.color_bb(c).has(s) <==> (
            self.piece_at(s) != Piece::NoPiece && self.piece_at(s).spec_color().spec_tag()
                == c))
    }

    /// Union of the square sets of the first `n` kind tags.
    pub open spec fn kinds_union(self, n: int) -> u64
        decreases n,
    {
        if n <= 0 {
            0
        } else {
            self.kinds_union(n - 1) | self.kind_bb(n - 1).0
        }
    }

    /// Union of the square sets of the first `n` color tags.
    pub open spec fn colors_union(self, n: int) -> u64
        decreases n,
    {
        if n <= 0 {
            0
        } else {
            self.colors_union(n - 1) | self.color_bb(n - 1).0
        }
    }

    /// Places `pc` on `s`: records it on the square and adds `s` to the set
    /// of its kind and to the set of its color. Nothing is removed, so an
    /// earlier occupant's bits stay.
    pub fn put_piece(&mut self, pc: Piece, s: &Square)
        requires
            *s != Square::NONE,
        ensures
            final(self).pieces() == old(self).pieces().update(s.spec_index(), pc),
            forall|k: int|
                0 <= k < 8 ==> #[trigger] final(self).kind_bb(k).0 == if k
                    == pc.spec_type_of().spec_tag() {
                    old(self).kind_bb(k).0 | (1u64 << (s.spec_index() as u64))
                } else {
                    old(self).kind_bb(k).0
                },
            forall|c: int|
                0 <= c < 2 ==> #[trigger] final(self).color_bb(c).0 == if c
                    == pc.spec_color().spec_tag() {
                    old(self).color_bb(c).0 | (1u64 << (s.spec_index() as u64))
                } else {
                    old(self).color_bb(c).0
                },
            final(self).spec_turn() == old(self).spec_turn(),
            final(self).spec_castle_rights() == old(self).spec_castle_rights(),
            final(self).spec_ep_square() == old(self).spec_ep_square(),
            final(self).spec_rule50_count() == old(self).spec_rule50_count(),
            final(self).spec_game_ply() == old(self).spec_game_ply(),
            old(self).wf() && old(self).piece_at(s.spec_index()) == Piece::NoPiece && pc
                != Piece::NoPiece ==> final(self).wf(),
    {
        let ghost pre = *self;
        let i = s.index();
        let bb = s.to_bb();
        self.board[i] = pc;
        let k = pc.type_of().tag() as usize;
        let mut kb = self.bbs[k];
        kb.bitor_assign(bb);
        self.bbs[k] = kb;
        let c = pc.color().tag() as usize;
        let mut cb = self.bbs_color[c];
        cb.bitor_assign(bb);
        self.bbs_color[c] = cb;
        proof {
            if pre.wf() && pre.piece_at(i as int) == Piece::NoPiece && pc != Piece::NoPiece {
                assert forall|q: int, k2: int| 0 <= q < 64 && 0 <= k2 < 8 implies (
                #[trigger] self.kind_bb(k2).has(q) <==> (self.piece_at(q) != Piece::NoPiece
                    && self.piece_at(q).spec_type_of().spec_tag() == k2)) by {
                    assert(self.kind_bb(k2) == if k2 == k {
                        kb
                    } else {
                        pre.kind_bb(k2)
                    });
                    assert(bb.has(q) <==> q == i);
                    assert(pre.kind_bb(k2).has(q) <==> (pre.piece_at(q) != Piece::NoPiece
                        && pre.piece_at(q).spec_type_of().spec_tag() == k2));
                }
                assert forall|q: int, c2: int| 0 <= q < 64 && 0 <= c2 < 2 implies (
                #[trigger] self.color_bb(c2).has(q) <==> (self.piece_at(q) != Piece::NoPiece
                    && self.piece_at(q).spec_color().spec_tag() == c2)) by {
                    assert(self.color_bb(c2) == if c2 == c {
                        cb
                    } else {
                        pre.color_bb(c2)
                    });
                    assert(bb.has(q) <==> q == i);
                    assert(pre.color_bb(c2).has(q) <==> (pre.piece_at(q) != Piece::NoPiece
                        && pre.piece_at(q).spec_color().spec_tag() == c2));
                }
            }
        }
    }
}

impl Position {
    /// The piece on `s`.
    pub fn piece_on(&self, s: &Square) -> (r: Piece)
        requires
            *s != Square::NONE,
        ensures
            r == self.piece_at(s.spec_index()),
    {
        self.board[s.index()]
    }

    /// The squares holding pieces of kind `pt`, of either color.
    pub fn pieces_of_kind(&self, pt: PieceType) -> (r: Bitboard)
        ensures
            r == self.kind_bb(pt.spec_tag() as int),
    {
        self.bbs[pt.tag() as usize]
    }

    /// The squares holding pieces of color `c`.
    pub fn pieces_of_color(&self, c: Color) -> (r: Bitboard)
        ensures
            r == self.color_bb(c.spec_tag() as int),
    {
        self.bbs_color[c.tag() as usize]
    }

    /// The side to move.
    pub fn turn(&self) -> (r: Color)
        ensures
            r == self.spec_turn(),
    {
        self.turn
    }

    /// The castling rights of both sides.
    pub fn castle_rights(&self) -> (r: Castling)
        ensures
            r == self.spec_castle_rights(),
    {
        self.castle_rights
    }

    /// The en-passant target, or `NONE`.
    pub fn ep_square(&self) -> (r: Square)
        ensures
            r == self.spec_ep_square(),
    {
        self.ep_square
    }

    /// Half-moves since the last pawn advance or capture.
    pub fn rule50_count(&self) -> (r: u32)
        ensures
            r == self.spec_rule50_count(),
    {
        self.rule50_count
    }

    /// Half-moves since the start of the game.
    pub fn game_ply(&self) -> (r: u32)
        ensures
            r == self.spec_game_ply(),
    {
        self.game_ply
    }

    /// The union of the per-kind square sets, over all eight kind tags.
    pub fn union_of_per_kind_bitboards(&self) -> (r: Bitboard)
        ensures
            r.0 == self.kinds_union(8),
    {
        let mut u: u64 = 0;
        let mut k: usize = 0;
        while k < PIECE_TYPE_CNT
            invariant
                k <= 8,
                u == self.kinds_union(k as int),
            decreases 8 - k,
        {
            u = u | self.bbs[k].0;
            k = k + 1;
        }
        Bitboard(u)
    }

    /// The union of the per-color square sets.
    pub fn union_of_per_color_bitboards(&self) -> (r: Bitboard)
        ensures
            r.0 == self.colors_union(2),
    {
        let mut u: u64 = 0;
        let mut c: usize = 0;
        while c < COLOR_CNT
            invariant
                c <= 2,
                u == self.colors_union(c as int),
            decreases 2 - c,
        {
            u = u | self.bbs_color[c].0;
            c = c + 1;
        }
        Bitboard(u)
    }
}

/// A square is in the union of the first `n` kind sets exactly when it is in
/// one of them.
proof fn lemma_kinds_union_has(p: Position, n: int, s: u64)
    requires
        0 <= n <= 8,
        s < 64,
    ensures
        bit(p.kinds_union(n), s) <==> exists|k: int| 0 <= k < n && #[trigger] p.kind_bb(k).has(
            s as int),
    decreases n,
{
    if n > 0 {
        lemma_kinds_union_has(p, n - 1, s);
        lemma_or_has(p.kinds_union(n - 1), p.kind_bb(n - 1).0);
        if bit(p.kinds_union(n), s) && !bit(p.kinds_union(n - 1), s) {
            assert(p.kind_bb(n - 1).has(s as int));
        }
    } else {
        assert((0u64 >> s) & 1u64 == 0u64) by (bit_vector);
    }
}

/// A square is in the union of the first `n` color sets exactly when it is
/// in one of them.
proof fn lemma_colors_union_has(p: Position, n: int, s: u64)
    requires
        0 <= n <= 2,
        s < 64,
    ensures
        bit(p.colors_union(n), s) <==> exists|c: int| 0 <= c < n && #[trigger] p.color_bb(
            c).has(s as int),
    decreases n,
{
    if n > 0 {
        lemma_colors_union_has(p, n - 1, s);
        lemma_or_has(p.colors_union(n - 1), p.color_bb(n - 1).0);
        if bit(p.colors_union(n), s) && !bit(p.colors_union(n - 1), s) {
            assert(p.color_bb(n - 1).has(s as int));
        }
    } else {
        assert((0u64 >> s) & 1u64 == 0u64) by (bit_vector);
    }
}

/// In a well-formed position every square is in the union of the per-kind
/// sets exactly when it is in the union of the per-color sets: both hold
/// the occupied squares.
pub proof fn lemma_kind_union_matches_color_union(p: Position)
    requires
        p.wf(),
    ensures
        forall|s: int|
            0 <= s < 64 ==> (#[trigger] Bitboard(p.kinds_union(8)).has(s) <==> Bitboard(
                p.colors_union(2),
            ).has(s)),
        forall|s: int|
            0 <= s < 64 ==> (#[trigger] Bitboard(p.kinds_union(8)).has(s) <==> p.piece_at(s)
                != Piece::NoPiece),
{
    assert forall|s: int| 0 <= s < 64 implies (#[trigger] Bitboard(p.kinds_union(8)).has(s)
        <==> p.piece_at(s) != Piece::NoPiece) && (Bitboard(p.kinds_union(8)).has(s)
        <==> Bitboard(p.colors_union(2)).has(s)) by {
        lemma_kinds_union_has(p, 8, s as u64);
        lemma_colors_union_has(p, 2, s as u64);
        let pc = p.piece_at(s);
        if pc != Piece::NoPiece {
            assert(p.kind_bb(pc.spec_type_of().spec_tag() as int).has(s));
            assert(p.color_bb(pc.spec_color().spec_tag() as int).has(s));
        }
    }
}

/// Why a FEN text was rejected.
#[derive(Clone, Copy, Debug, PartialEq, Eq, Structural)]
pub enum FenError {
    /// Fewer than six fields.
    MissingField,
    /// A piece letter falls beyond the last square.
    BadPlacement,
    /// The side to move is neither `w` nor `b`.
    BadSideToMove,
    /// The en-passant field starts with neither `-` nor a file letter.
    BadEnPassant,
    /// The half-move clock is not an unsigned 32-bit number.
    BadHalfmoveClock,
    /// The full-move number is not a number from 1 up, or its ply count
    /// does not fit in 32 bits.
    BadFullmoveNumber,
}

/// The piece a placement letter stands for; `NoPiece` for any other
/// character.
pub open spec fn piece_of_char(c: char) -> Piece {
    if c == 'P' {
        Piece::WhitePawn
    } else if c == 'N' {
        Piece::WhiteKnight
    } else if c == 'B' {
        Piece::WhiteBishop
    } else if c == 'R' {
        Piece::WhiteRook
    } else if c == 'Q' {
        Piece::WhiteQueen
    } else if c == 'K' {
        Piece::WhiteKing
    } else if c == 'p' {
        Piece::BlackPawn
    } else if c == 'n' {
        Piece::BlackKnight
    } else if c == 'b' {
        Piece::BlackBishop
    } else if c == 'r' {
        Piece::BlackRook
    } else if c == 'q' {
        Piece::BlackQueen
    } else if c == 'k' {
        Piece::BlackKing
    } else {
        Piece::NoPiece
    }
}

/// The state after the first `n` characters of a placement field: the
/// display-order cursor and the board so far; `None` once a non-digit,
/// non-`/` character came with the cursor past the last square. A digit
/// skips that many squares; any other character takes one square, and a
/// piece letter puts its piece there.
pub open spec fn placement_prefix(f: Seq<char>, n: int) -> Option<(int, Seq<Piece>)>
    decreases n,
{
    if n <= 0 {
        Some((0, Seq::new(64, |i: int| Piece::NoPiece)))
    } else {
        match placement_prefix(f, n - 1) {
            None => None,
            Some((cur, b)) => {
                let c = f[n - 1];
                if is_digit(c) {
                    Some((cur + digit_value(c), b))
                } else if c == '/' {
                    Some((cur, b))
                } else if cur >= 64 {
                    None
                } else if piece_of_char(c) == Piece::NoPiece {
                    Some((cur + 1, b))
                } else {
                    Some((cur + 1, b.update(display_to_index(cur), piece_of_char(c))))
                }
            },
        }
    }
}

/// The board a placement field describes, by square index.
pub open spec fn placement(f: Seq<char>) -> Option<Seq<Piece>> {
    match placement_prefix(f, f.len() as int) {
        None => None,
        Some((_, b)) => Some(b),
    }
}

/// The side to move named by `f`.
pub open spec fn side_of(f: Seq<char>) -> Option<Color> {
    if f == seq!['w'] {
        Some(Color::White)
    } else if f == seq!['b'] {
        Some(Color::Black)
    } else {
        None
    }
}

/// The castling flag a character of the castling field stands for.
pub open spec fn castling_bit(c: char) -> u8 {
    if c == 'K' {
        WHITE_K
    } else if c == 'Q' {
        WHITE_Q
    } else if c == 'k' {
        BLACK_K
    } else if c == 'q' {
        BLACK_Q
    } else {
        0
    }
}

/// The castling rights a castling field grants: one flag per letter
/// `KQkq` present; other characters grant nothing.
pub open spec fn castling_of(f: Seq<char>) -> u8 {
    (if f.contains('K') {
        WHITE_K
    } else {
        0
    }) | (if f.contains('Q') {
        WHITE_Q
    } else {
        0
    }) | (if f.contains('k') {
        BLACK_K
    } else {
        0
    }) | (if f.contains('q') {
        BLACK_Q
    } else {
        0
    })
}

/// The en-passant target an en-passant field names: `-` gives `NONE`; a
/// file letter gives that file's rank-3 square, moved three ranks up to
/// rank 6 when a rank character follows and Black is to move.
pub open spec fn en_passant(f: Seq<char>, turn: Color) -> Option<Square> {
    if f.len() == 0 {
        None
    } else if f[0] == '-' {
        Some(Square::NONE)
    } else if 'a' <= f[0] <= 'h' {
        let base = 16 + (f[0] as int - 'a' as int);
        if f.len() >= 2 && turn == Color::Black {
            Some(Square::spec_from_index(base + 24))
        } else {
            Some(Square::spec_from_index(base))
        }
    } else {
        None
    }
}

/// Half-moves played before full move `fullmove` with `turn` to move.
pub open spec fn ply_of(fullmove: int, turn: Color) -> int {
    2 * (fullmove - 1) + if turn == Color::Black {
        1int
    } else {
        0int
    }
}

/// The first fault of a FEN text, field by field, or `None` when it decodes.
pub open spec fn fen_error(s: Seq<char>) -> Option<FenError> {
    let f = fields(s);
    if f.len() < 6 {
        Some(FenError::MissingField)
    } else if placement(f[0]) is None {
        Some(FenError::BadPlacement)
    } else if side_of(f[1]) is None {
        Some(FenError::BadSideToMove)
    } else if en_passant(f[3], side_of(f[1])->Some_0) is None {
        Some(FenError::BadEnPassant)
    } else if parse_u32(f[4]) is None {
        Some(FenError::BadHalfmoveClock)
    } else if parse_u32(f[5]) is None || parse_u32(f[5])->Some_0 == 0 || ply_of(
        parse_u32(f[5])->Some_0 as int,
        side_of(f[1])->Some_0,
    ) > u32::MAX {
        Some(FenError::BadFullmoveNumber)
    } else {
        None
    }
}

/// What a well-formed FEN text `s` decodes to: `p` holds exactly the
/// placement, side, rights, target and counters its fields give.
pub open spec fn decodes_to(s: Seq<char>, p: Position) -> bool {
    let f = fields(s);
    let turn = side_of(f[1])->Some_0;
    &&& p.wf()
    &&& p.pieces() == placement(f[0])->Some_0
    &&& p.spec_turn() == turn
    &&& p.spec_castle_rights()@ == castling_of(f[2])
    &&& p.spec_ep_square() == en_passant(f[3], turn)->Some_0
    &&& p.spec_rule50_count() == parse_u32(f[4])->Some_0
    &&& p.spec_game_ply() == ply_of(parse_u32(f[5])->Some_0 as int, turn)
}

/// The piece a placement letter stands for.
fn piece_from_char(c: char) -> (r: Piece)
    ensures
        r == piece_of_char(c),
{
    match c {
        'P' => Piece::WhitePawn,
        'N' => Piece::WhiteKnight,
        'B' => Piece::WhiteBishop,
        'R' => Piece::WhiteRook,
        'Q' => Piece::WhiteQueen,
        'K' => Piece::WhiteKing,
        'p' => Piece::BlackPawn,
        'n' => Piece::BlackKnight,
        'b' => Piece::BlackBishop,
        'r' => Piece::BlackRook,
        'q' => Piece::BlackQueen,
        'k' => Piece::BlackKing,
        _ => Piece::NoPiece,
    }
}

/// The castling flag a character stands for.
fn castling_from_char(c: char) -> (r: Castling)
    ensures
        r@ == castling_bit(c),
{
    match c {
        'K' => Castling::white_k(),
        'Q' => Castling::white_q(),
        'k' => Castling::black_k(),
        'q' => Castling::black_q(),
        _ => Castling::none(),
    }
}

/// Once the placement has failed, it stays failed.
proof fn lemma_placement_stays_failed(f: Seq<char>, n: int, m: int)
    requires
        n <= m,
        placement_prefix(f, n) is None,
    ensures
        placement_prefix(f, m) is None,
    decreases m - n,
{
    if n < m {
        lemma_placement_stays_failed(f, n, m - 1);
    }
}

proof fn lemma_push_contains(f: Seq<char>, c: char, x: char)
    ensures
        f.push(c).contains(x) <==> f.contains(x) || c == x,
{
    if f.contains(x) {
        let i = choose|i: int| 0 <= i < f.len() && f[i] == x;
        assert(f.push(c)[i] == x);
    }
    if c == x {
        assert(f.push(c)[f.len() as int] == x);
    }
    if f.push(c).contains(x) {
        let i = choose|i: int| 0 <= i < f.push(c).len() && f.push(c)[i] == x;
        if i < f.len() {
            assert(f[i] == x);
        }
    }
}

/// One more character of the castling field adds its flag.
proof fn lemma_castling_push(f: Seq<char>, c: char)
    ensures
        castling_of(f.push(c)) == castling_of(f) | castling_bit(c),
{
    lemma_push_contains(f, c, 'K');
    lemma_push_contains(f, c, 'Q');
    lemma_push_contains(f, c, 'k');
    lemma_push_contains(f, c, 'q');
    let a: u8 = if f.contains('K') { 8 } else { 0 };
    let b: u8 = if f.contains('Q') { 4 } else { 0 };
    let x: u8 = if f.contains('k') { 2 } else { 0 };
    let d: u8 = if f.contains('q') { 1 } else { 0 };
    assert((a == 0 || a == 8) && (b == 0 || b == 4) && (x == 0 || x == 2) && (d == 0 || d == 1)
        ==> (a | b | x | d) | 8 == 8 | b | x | d && (a | b | x | d) | 4 == a | 4 | x | d && (a
        | b | x | d) | 2 == a | b | 2 | d && (a | b | x | d) | 1 == a | b | x | 1 && (a | b | x
        | d) | 0 == a | b | x | d) by (bit_vector);
}

impl Position {
    /// Decodes a FEN text: six white-space separated fields giving the
    /// placement (rank 8 first, digits skip squares, `/` separates ranks),
    /// side to move, castling rights, en-passant target, half-move clock
    /// and full-move number. Extra fields are ignored.
    pub fn from_fen(fen_str: &str) -> (r: Result<Position, FenError>)
        ensures
            match r {
                Ok(p) => fen_error(fen_str@) is None && decodes_to(fen_str@, p),
                Err(e) => fen_error(fen_str@) == Some(e),
            },
    {
        let parts = split_fields(fen_str);
        if parts.len() < 6 {
            return Err(FenError::MissingField);
        }
        let mut p = Position {
            bbs: [Bitboard(0); PIECE_TYPE_CNT],
            bbs_color: [Bitboard(0); COLOR_CNT],
            board: [Piece::NoPiece; SQ_CNT],
            turn: Color::White,
            castle_rights: Castling::none(),
            ep_square: Square::NONE,
            rule50_count: 0,
            game_ply: 0,
        };
        proof {
            assert forall|s: u64| !bit(0u64, s) by {
                assert((0u64 >> s) & 1u64 == 0u64) by (bit_vector);
            }
            assert(p.pieces() =~= Seq::new(64, |i: int| Piece::NoPiece));
        }
        // Piece placement, walking the squares in display order.
        let f0 = &parts[0];
        let ghost mut cur: int = 0;
        let mut idx: usize = 0;
        let mut i: usize = 0;
        while i < f0.len()
            invariant
                fields(fen_str@).len() >= 6,
                f0@ == fields(fen_str@)[0],
                i <= f0@.len(),
                placement_prefix(f0@, i as int) == Some((cur, p.pieces())),
                cur >= 0,
                cur < 64 ==> idx == cur,
                cur >= 64 ==> idx == 64,
                p.wf(),
                forall|d: int|
                    cur <= d < 64 ==> p.piece_at(#[trigger] display_to_index(d))
                        == Piece::NoPiece,
            decreases f0@.len() - i,
        {
            let c = f0[i];
            if '0' <= c && c <= '9' {
                let dv: usize = ((c as u32) - ('0' as u32)) as usize;
                idx = if idx + dv > 64 {
                    64
                } else {
                    idx + dv
                };
                proof {
                    cur = cur + digit_value(c);
                }
            } else if c == '/' {
            } else {
                if idx >= 64 {
                    proof {
                        lemma_placement_stays_failed(f0@, i + 1, f0@.len() as int);
                    }
                    return Err(FenError::BadPlacement);
                }
                let pc = piece_from_char(c);
                if pc != Piece::NoPiece {
                    let sq = Square::display_order(idx);
                    p.put_piece(pc, &sq);
                    proof {
                        lemma_display_involution(cur);
                        assert forall|d: int| cur + 1 <= d < 64 implies p.piece_at(
                            #[trigger] display_to_index(d),
                        ) == Piece::NoPiece by {
                            lemma_display_involution(d);
                        }
                    }
                }
                idx = idx + 1;
                proof {
                    cur = cur + 1;
                }
            }
            i = i + 1;
        }
        // Side to move.
        let f1 = &parts[1];
        let turn = if f1.len() == 1 && f1[0] == 'w' {
            assert(f1@ =~= seq!['w']);
            Color::White
        } else if f1.len() == 1 && f1[0] == 'b' {
            assert(f1@ =~= seq!['b']);
            Color::Black
        } else {
            return Err(FenError::BadSideToMove);
        };
        // Castling rights.
        let f2 = &parts[2];
        let mut rights = Castling::none();
        let mut j: usize = 0;
        assert(f2@.subrange(0, 0) =~= Seq::<char>::empty());
        assert(0u8 | 0u8 | 0u8 | 0u8 == 0u8) by (bit_vector);
        while j < f2.len()
            invariant
                j <= f2@.len(),
                rights@ == castling_of(f2@.subrange(0, j as int)),
            decreases f2@.len() - j,
        {
            let c = f2[j];
            proof {
                lemma_castling_push(f2@.subrange(0, j as int), c);
                assert(f2@.subrange(0, j + 1) =~= f2@.subrange(0, j as int).push(c));
            }
            rights.bitor_assign(castling_from_char(c));
            j = j + 1;
        }
        assert(f2@.subrange(0, f2@.len() as int) =~= f2@);
        // En-passant target.
        let f3 = &parts[3];
        if f3.len() == 0 {
            return Err(FenError::BadEnPassant);
        }
        let c0 = f3[0];
        let ep = if c0 == '-' {
            Square::NONE
        } else if 'a' <= c0 && c0 <= 'h' {
            let base: usize = 16 + ((c0 as u32) - ('a' as u32)) as usize;
            if f3.len() >= 2 && turn == Color::Black {
                Square::from_index(base + 24)
            } else {
                Square::from_index(base)
            }
        } else {
            return Err(FenError::BadEnPassant);
        };
        // Half-move clock.
        let half = match parse_number(&parts[4]) {
            Some(v) => v,
            None => {
                return Err(FenError::BadHalfmoveClock);
            },
        };
        // Full-move number, kept as a ply count.
        let full = match parse_number(&parts[5]) {
            Some(v) => v,
            None => {
                return Err(FenError::BadFullmoveNumber);
            },
        };
        if full == 0 {
            return Err(FenError::BadFullmoveNumber);
        }
        let black: u64 = if turn == Color::Black {
            1
        } else {
            0
        };
        let ply: u64 = 2 * ((full - 1) as u64) + black;
        if ply > u32::MAX as u64 {
            return Err(FenError::BadFullmoveNumber);
        }
        let ghost placed = p;
        p.turn = turn;
        p.castle_rights = rights;
        p.ep_square = ep;
        p.rule50_count = half;
        p.game_ply = ply as u32;
        proof {
            assert(p.bbs@ == placed.bbs@ && p.bbs_color@ == placed.bbs_color@ && p.board@
                == placed.board@);
            assert forall|s: int, k: int| 0 <= s < 64 && 0 <= k < 8 implies (#[trigger] p.kind_bb(
                k).has(s) <==> (p.piece_at(s) != Piece::NoPiece && p.piece_at(
                s,
            ).spec_type_of().spec_tag() == k)) by {
                assert(placed.kind_bb(k).has(s) <==> (placed.piece_at(s) != Piece::NoPiece
                    && placed.piece_at(s).spec_type_of().spec_tag() == k));
            }
            assert forall|s: int, c: int| 0 <= s < 64 && 0 <= c < 2 implies (#[trigger] p.color_bb(
                c).has(s) <==> (p.piece_at(s) != Piece::NoPiece && p.piece_at(
                s,
            ).spec_color().spec_tag() == c)) by {
                assert(placed.color_bb(c).has(s) <==> (placed.piece_at(s) != Piece::NoPiece
                    && placed.piece_at(s).spec_color().spec_tag() == c));
            }
        }
        Ok(p)
    }
}

/// The text of the diagram cell holding `pc`: its FEN letter, or a blank.
pub open spec fn piece_cell(pc: Piece) -> Seq<char> {
    seq![
        '|',
        ' ',
        if pc == Piece::NoPiece {
            ' '
        } else {
            pc.spec_character()
        },
        ' ',
    ]
}

/// The text of the diagram cell holding `pc`.
fn cell_text(pc: Piece) -> (r: &'static str)
    ensures
        r@ == piece_cell(pc),
{
    proof {
        reveal_strlit("|   ");
        reveal_strlit("| P ");
        reveal_strlit("| N ");
        reveal_strlit("| B ");
        reveal_strlit("| R ");
        reveal_strlit("| Q ");
        reveal_strlit("| K ");
        reveal_strlit("| p ");
        reveal_strlit("| n ");
        reveal_strlit("| b ");
        reveal_strlit("| r ");
        reveal_strlit("| q ");
        reveal_strlit("| k ");
    }
    let r = match pc {
        Piece::NoPiece => "|   ",
        Piece::WhitePawn => "| P ",
        Piece::WhiteKnight => "| N ",
        Piece::WhiteBishop => "| B ",
        Piece::WhiteRook => "| R ",
        Piece::WhiteQueen => "| Q ",
        Piece::WhiteKing => "| K ",
        Piece::BlackPawn => "| p ",
        Piece::BlackKnight => "| n ",
        Piece::BlackBishop => "| b ",
        Piece::BlackRook => "| r ",
        Piece::BlackQueen => "| q ",
        Piece::BlackKing => "| k ",
    };
    assert(r@ =~= piece_cell(pc));
    r
}

impl Position {
    /// The text of the diagram cell of square index `i`.
    pub open spec fn cell(self) -> spec_fn(int) -> Seq<char> {
        |i: int| piece_cell(self.piece_at(i))
    }

    /// An ASCII diagram of the board, rank 8 at the top, each occupied
    /// square showing its piece's FEN letter; the same frame as the square
    /// set diagram.
    pub fn pretty(&self) -> (r: String)
        ensures
            r@ == grid(self.cell()),
    {
        let mut s = String::new();
        s.append(border_text());
        let mut k: usize = 0;
        while k < 8
            invariant
                k <= 8,
                s@ == border() + rows(self.cell(), k as nat),
            decreases 8 - k,
        {
            let ghost before = s@;
            let mut file: usize = 0;
            while file < 8
                invariant
                    file <= 8,
                    k < 8,
                    s@ == before + cells(self.cell(), 7 - k, file as nat),
                decreases 8 - file,
            {
                let sq = Square::display_order(8 * k + file);
                let pc = self.board[sq.index()];
                s.append(cell_text(pc));
                file = file + 1;
            }
            finish_row(&mut s, 7 - k);
            assert(s@ == before + row(self.cell(), 7 - k));
            k = k + 1;
        }
        s.append(legend_text());
        s
    }
}

} // verus!
