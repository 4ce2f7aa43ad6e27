//! Whole-game rules about fixed move sequences. These need the order of
//! plies across the game, so they judge the whole game directly instead of
//! lifting a per-ply rule.

use crate::game::Game;
use crate::ply::{ply_matches_uci, uci_matches, Color, Ply, UciMove};
use crate::rules::GameRule;
use vstd::prelude::*;

verus! {

/// The plies made by one side, in playing order.
pub open spec fn plies_of(game: Seq<Ply>, color: Color) -> Seq<Ply>
    decreases game.len(),
{
    if game.len() == 0 {
        Seq::empty()
    } else if game.last().by == color {
        plies_of(game.drop_last(), color).push(game.last())
    } else {
        plies_of(game.drop_last(), color)
    }
}

/// A game opens with the given moves: it has at least that many plies, and
/// they are, in playing order, exactly those moves, made by either side.
pub open spec fn opening_ok(moves: Seq<UciMove>, game: Seq<Ply>) -> bool {
    &&& moves.len() <= game.len()
    &&& forall|i: int|
        0 <= i < moves.len() ==> ply_matches_uci(#[trigger] game[i], moves[i])
}

/// One side's play starts with the given moves: the side made at least that
/// many plies, and its first plies are, in order, exactly those moves.
pub open spec fn sequence_ok(moves: Seq<UciMove>, game: Seq<Ply>, color: Color) -> bool {
    &&& moves.len() <= plies_of(game, color).len()
    &&& forall|i: int|
        0 <= i < moves.len() ==> ply_matches_uci(
            #[trigger] plies_of(game, color)[i],
            moves[i],
        )
}

/// Collects the plies one side made, in playing order.
fn plies_by(game: &Game, color: Color) -> (v: Vec<Ply>)
    ensures
        v@ == plies_of(game@, color),
{
    let n = game.len();
    let mut v: Vec<Ply> = Vec::new();
    let mut i: usize = 0;
    proof {
        assert(game@.take(0) =~= Seq::<Ply>::empty());
    }
    while i < n
        invariant
            n == game@.len(),
            i <= n,
            v@ == plies_of(game@.take(i as int), color),
        decreases n - i,
    {
        let p = game.ply_at(i);
        proof {
            assert(game@.take(i + 1).drop_last() =~= game@.take(i as int));
            assert(game@.take(i + 1).last() == game@[i as int]);
        }
        if p.by == color {
            v.push(p);
        }
        i = i + 1;
    }
    proof {
        assert(game@.take(n as int) =~= game@);
    }
    v
}

/// Decides whether the given plies are, in order, exactly the given moves,
/// at least as many of them as there are moves.
fn starts_with(plies: &Vec<Ply>, moves: &Vec<UciMove>) -> (r: bool)
    ensures
        r == (moves@.len() <= plies@.len() && forall|i: int|
            0 <= i < moves@.len() ==> ply_matches_uci(#[trigger] plies@[i], moves@[i])),
{
    if plies.len() < moves.len() {
        return false;
    }
    let mut i: usize = 0;
    while i < moves.len()
        invariant
            moves@.len() <= plies@.len(),
            i <= moves@.len(),
            forall|j: int| 0 <= j < i ==> ply_matches_uci(#[trigger] plies@[j], moves@[j]),
        decreases moves@.len() - i,
    {
        if !uci_matches(&plies[i], &moves[i]) {
            return false;
        }
        i = i + 1;
    }
    true
}

/// The game must open with the given moves, whichever side is nominated.
pub struct Opening {
    pub moves: Vec<UciMove>,
}

impl GameRule for Opening {
    open spec fn game_ok(&self, game: Seq<Ply>, color: Color) -> bool {
        opening_ok(self.moves@, game)
    }

    fn is_match(&self, game: &Game, _color: Color) -> (r: bool) {
        opening_is_match(&self.moves, game)
    }
}

/// Decides whether the game opens with the given moves.
pub(crate) fn opening_is_match(moves: &Vec<UciMove>, game: &Game) -> (r: bool)
    ensures
        r == opening_ok(moves@, game@),
{
    let all = plies_by_either(game);
    starts_with(&all, moves)
}

/// Decides whether the nominated side's play starts with the given moves.
pub(crate) fn sequence_is_match(moves: &Vec<UciMove>, game: &Game, color: Color) -> (r: bool)
    ensures
        r == sequence_ok(moves@, game@, color),
{
    let mine = plies_by(game, color);
    starts_with(&mine, moves)
}

/// The nominated side's play must start with the given moves.
pub struct PlayerSequence {
    pub moves: Vec<UciMove>,
}

impl GameRule for PlayerSequence {
    open spec fn game_ok(&self, game: Seq<Ply>, color: Color) -> bool {
        sequence_ok(self.moves@, game, color)
    }

    fn is_match(&self, game: &Game, color: Color) -> (r: bool) {
        sequence_is_match(&self.moves, game, color)
    }
}

/// Collects all plies of the game, in playing order.
fn plies_by_either(game: &Game) -> (v: Vec<Ply>)
    ensures
        v@ == game@,
{
    let n = game.len();
    let mut v: Vec<Ply> = Vec::new();
    let mut i: usize = 0;
    while i < n
        invariant
            n == game@.len(),
            i <= n,
            v@ == game@.take(i as int),
        decreases n - i,
    {
        v.push(game.ply_at(i));
        proof {
            assert(game@.take(i + 1) =~= game@.take(i as int).push(game@[i as int]));
        }
        i = i + 1;
    }
    proof {
        assert(game@.take(n as int) =~= game@);
    }
    v
}

} // verus!
