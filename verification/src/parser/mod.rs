//! External text collaborators: the FEN stub and the PGN movetext reader
//! that feeds the resolver.

pub mod fen;
pub mod pgn;
