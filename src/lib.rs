//! Board representation for a chess engine: square sets, piece encoding,
//! squares, castling rights, and a position decoded from FEN text.
pub mod bitboard;
pub mod fen;
pub mod render;
pub mod types;

pub use bitboard::Bitboard;
pub mod position;
