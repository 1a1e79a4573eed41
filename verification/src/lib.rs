//! A two-party tic-tac-toe session carried over a publish/subscribe message
//! channel: the board engine with incremental win detection, the session
//! state machine for the invite/answer handshake and turn ownership, the
//! wire-message codec, and the command-line parser.

pub mod codec;
pub mod commands;
pub mod session;
pub mod tictactoe;

pub use tictactoe::TicTacToe;
