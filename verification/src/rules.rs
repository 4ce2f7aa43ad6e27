//! The rule framework: per-ply rules, whole-game rules, the lifting of the
//! former into the latter, and a data-driven rule descriptor.

pub mod capture;
pub mod sequence;

use crate::game::Game;
use crate::ply::{Color, Ply, UciMove};
use crate::rules::capture::{MustCaptureWith, MustCaptureWithUnlessInCheck, MustNotCapture};
use crate::rules::sequence::{opening_ok, sequence_ok, Opening, PlayerSequence};
use vstd::prelude::*;

verus! {

/// A rule that judges an entire game for one nominated side.
pub trait GameRule {
    /// What it means for the game, given as its ply sequence, to comply with
    /// this rule for the nominated side.
    spec fn game_ok(&self, game: Seq<Ply>, color: Color) -> bool;

    /// Decides whether the game complies with this rule for the nominated
    /// side.
    fn is_match(&self, game: &Game, color: Color) -> (r: bool)
        ensures
            r == self.game_ok(game@, color),
    ;
}

/// A rule that judges a single ply on its own.
pub trait MoveRule {
    /// What it means for one ply to be acceptable to this rule.
    spec fn ply_ok(&self, p: Ply) -> bool;

    /// Decides whether one ply is acceptable to this rule.
    fn is_move_match(&self, p: &Ply) -> (r: bool)
        ensures
            r == self.ply_ok(*p),
    ;
}

/// The lifting of a per-ply rule to a whole-game rule: the game complies for
/// the nominated side exactly when every ply that side made is acceptable to
/// the per-ply rule. Plies made by the other side are irrelevant, and a game
/// in which the nominated side never moved complies vacuously.
impl<R: MoveRule> GameRule for R {
    open spec fn game_ok(&self, game: Seq<Ply>, color: Color) -> bool {
        forall|i: int|
            0 <= i < game.len() && (#[trigger] game[i]).by == color ==> self.ply_ok(game[i])
    }

    /// Replays the game and folds the per-ply rule over every ply the
    /// nominated side made.
    fn is_match(&self, game: &Game, color: Color) -> (r: bool) {
        let mut it = game.iter();
        let ghost mut i: int = 0;
        loop
            invariant
                it.wf(),
                0 <= i <= game@.len(),
                it.remaining() == game@.skip(i),
                forall|j: int|
                    0 <= j < i && (#[trigger] game@[j]).by == color ==> self.ply_ok(game@[j]),
            decreases game@.len() - i,
        {
            match it.next() {
                None => {
                    proof {
                        assert(game@.skip(i).len() == 0);
                    }
                    return true;
                },
                Some(p) => {
                    proof {
                        assert(game@.skip(i)[0] == game@[i]);
                    }
                    if p.by == color {
                        if !self.is_move_match(&p) {
                            proof {
                                assert(game@[i].by == color && !self.ply_ok(game@[i]));
                            }
                            return false;
                        }
                    }
                    proof {
                        assert(game@.skip(i).drop_first() =~= game@.skip(i + 1));
                        i = i + 1;
                    }
                },
            }
        }
    }
}

/// A data-driven description of a rule: a plain value naming one rule of the
/// catalog together with its parameters, so that rules can be read from data
/// instead of being written in code. Each variant resolves to the concrete
/// rule it names.
pub enum Rule {
    /// Captures must be made with the given role.
    MustCaptureWith { role: crate::ply::Role },
    /// Captures must be made with the given role, unless in check.
    MustCaptureWithUnlessInCheck { role: crate::ply::Role },
    /// Pieces of the given role must never be captured.
    MustNotCapture { role: crate::ply::Role },
    /// The game must open with the given moves.
    Opening { moves: Vec<UciMove> },
    /// The nominated side's play must start with the given moves.
    PlayerSequence { moves: Vec<UciMove> },
}

impl GameRule for Rule {
    open spec fn game_ok(&self, game: Seq<Ply>, color: Color) -> bool {
        match self {
            Rule::MustCaptureWith { role } => (MustCaptureWith { role: *role }).game_ok(
                game,
                color,
            ),
            Rule::MustCaptureWithUnlessInCheck { role } => (MustCaptureWithUnlessInCheck {
                role: *role,
            }).game_ok(game, color),
            Rule::MustNotCapture { role } => (MustNotCapture { role: *role }).game_ok(
                game,
                color,
            ),
            Rule::Opening { moves } => opening_ok(moves@, game),
            Rule::PlayerSequence { moves } => sequence_ok(moves@, game, color),
        }
    }

    /// Resolves the descriptor to the concrete rule it names and asks that
    /// rule.
    fn is_match(&self, game: &Game, color: Color) -> (r: bool) {
        match self {
            Rule::MustCaptureWith { role } => (MustCaptureWith { role: *role }).is_match(
                game,
                color,
            ),
            Rule::MustCaptureWithUnlessInCheck { role } => (MustCaptureWithUnlessInCheck {
                role: *role,
            }).is_match(game, color),
            Rule::MustNotCapture { role } => (MustNotCapture { role: *role }).is_match(
                game,
                color,
            ),
            Rule::Opening { moves } => crate::rules::sequence::opening_is_match(moves, game),
            Rule::PlayerSequence { moves } => crate::rules::sequence::sequence_is_match(
                moves,
                game,
                color,
            ),
        }
    }
}

/// Lifting law, accepting half: a per-ply rule that accepts every ply lifts
/// to a whole-game rule that accepts every game, for any nominated side.
pub proof fn lemma_lift_always_accepts<R: MoveRule>(rule: &R, game: Seq<Ply>, color: Color)
    requires
        forall|p: Ply| #[trigger] rule.ply_ok(p),
    ensures
        rule.game_ok(game, color),
{
}

/// Vacuous edge of the lifting law: whatever the per-ply rule, a game in
/// which the nominated side never moved — the empty game among them —
/// complies for that side.
pub proof fn lemma_lift_vacuous<R: MoveRule>(rule: &R, game: Seq<Ply>, color: Color)
    requires
        forall|i: int| 0 <= i < game.len() ==> (#[trigger] game[i]).by != color,
    ensures
        rule.game_ok(game, color),
{
}

/// Lifting law, rejecting half: a per-ply rule that rejects every ply lifts
/// to a whole-game rule that rejects every game in which the nominated side
/// made at least one ply, and accepts, vacuously, every game in which it made
/// none.
pub proof fn lemma_lift_always_rejects<R: MoveRule>(rule: &R, game: Seq<Ply>, color: Color)
    requires
        forall|p: Ply| !(#[trigger] rule.ply_ok(p)),
    ensures
        rule.game_ok(game, color) <==> (forall|i: int|
            0 <= i < game.len() ==> (#[trigger] game[i]).by != color),
{
    if forall|i: int| 0 <= i < game.len() ==> (#[trigger] game[i]).by != color {
        assert forall|i: int|
            0 <= i < game.len() && (#[trigger] game[i]).by == color implies rule.ply_ok(
            game[i],
        ) by {
            assert(game[i].by != color);
        }
    } else {
        let i = choose|i: int| 0 <= i < game.len() && (#[trigger] game[i]).by == color;
        assert(!rule.ply_ok(game[i]));
    }
}

} // verus!
