//! A chess position engine: board and piece model, movement geometry,
//! move legality, and resolution of algebraic move descriptions.
//!
//! The engine models a board of 64 tiles, the movement geometry of the six
//! piece kinds, castle rights, en-passant bookkeeping, and a game orchestrator
//! that validates and applies movements atomically.  The movement log is
//! the single source of truth: after every accepted play the board is
//! recomputed by replaying the whole log from the classical starting
//! position.  Detection of check,
//! checkmate or stalemate is out of scope: no function here inspects whether
//! a king is attacked.

pub mod board;
pub mod color;
pub mod error;
pub mod game;
pub mod parser;
pub mod piece;

