//! Turn-based two-player game sessions over the `chess` rules engine.
//!
//! A session is created by a challenger, joined by an opponent, and then
//! driven by per-turn move submissions until the rules engine reports a
//! terminal position.  The session lifecycle (Pending, then Active, then
//! Finished), the turn and authorization checks, and the store of sessions
//! are verified; move legality and board semantics are delegated to the
//! `chess` crate through the narrow boundary in [`rules`].

pub mod contract;
pub mod laws;
pub mod rules;
pub mod session;

pub use contract::ChessContract;
pub use rules::PositionStatus;
pub use session::ChessGame;
pub use session::Color;
pub use session::GameError;
pub use session::GameState;
pub use session::MoveOutcome;
