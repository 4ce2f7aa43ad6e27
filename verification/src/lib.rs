//! Checks a recorded chess game against pluggable house rules that standard
//! chess legality does not enforce, such as "only pawns may capture" or
//! "rooks may never be captured".
//!
//! A game record is resolved into a validated list of plies, the plies can be
//! replayed one by one, and rules are evaluated over the replayed sequence
//! for one nominated side. A rule either judges a single ply, in which case
//! it lifts to a whole-game verdict, or judges the whole game directly.

pub mod engine;
pub mod game;
pub mod movetext;
pub mod ply;
pub mod rules;

pub use engine::resolve_line;
pub use engine::resolved_ply;
pub use game::Game;
pub use game::GameIter;
pub use game::ResolveError;
pub use ply::Color;
pub use ply::Ply;
pub use ply::Role;
pub use ply::UciMove;
pub use rules::GameRule;
pub use rules::MoveRule;
pub use rules::Rule;
