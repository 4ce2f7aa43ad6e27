//! A validated game: construction from a record, replay, and rule queries.

use crate::engine;
use crate::engine::{resolve_line, resolved_ply};
use crate::movetext::{movetext_tokens, tokenize};
use crate::ply::{Color, Ply};
use crate::rules::GameRule;
use vstd::prelude::*;

verus! {

/// Construction of a game failed: some notation token of the record could
/// not be resolved to exactly one legal move at its point in the sequence.
/// This one kind covers malformed tokens, illegal moves and ambiguous
/// notation alike.
#[derive(Clone, Copy, PartialEq, Eq, Structural, Debug)]
pub struct ResolveError;

/// A recorded game whose primary line has been resolved into an ordered
/// sequence of validated plies. A game is established once, at construction,
/// and never changed afterwards; construction either succeeds completely or
/// fails without producing a game.
#[derive(Clone, Debug)]
pub struct Game {
    plies: Vec<Ply>,
}

impl View for Game {
    type V = Seq<Ply>;

    /// A game is modelled as the sequence of its plies, in playing order.
    closed spec fn view(&self) -> Seq<Ply> {
        self.plies@
    }
}

impl Default for Game {
    /// The empty game, with no plies.
    fn default() -> (g: Game)
        ensures
            g@ == Seq::<Ply>::empty(),
    {
        Game { plies: Vec::new() }
    }
}

impl Game {
    /// Resolves the primary line of a game record into a game.
    ///
    /// The record is movetext: notation tokens, move numbers, annotations,
    /// comments, results and variation branches, nothing else — a record
    /// carrying header tag pairs is not movetext and fails to resolve. Every
    /// notation token of the primary line is resolved against a working
    /// position that starts from the standard starting position and advances
    /// by each accepted move, so a constructed game holds, in record order,
    /// exactly the ply each token resolved to. Construction fails exactly
    /// when some token of the primary line does not resolve — does not parse
    /// as notation, or does not denote exactly one legal move at its point in
    /// the sequence — and then no partial game is produced.
    pub fn from_pgn(pgn: &str) -> (r: Result<Game, ResolveError>)
        ensures
            r matches Ok(g) ==> Some(g@) == resolve_line(movetext_tokens(pgn@)),
            r is Err <==> resolve_line(movetext_tokens(pgn@)) is None,
            r matches Ok(g) ==> g@.len() == movetext_tokens(pgn@).len(),
    {
        let toks = tokenize(pgn);
        let ghost gt: Seq<Seq<char>> = toks@.map_values(|t: Vec<char>| t@);
        let mut board = engine::Board::new();
        let mut plies: Vec<Ply> = Vec::new();
        let mut i: usize = 0;
        proof {
            assert(gt.take(0) =~= Seq::<Seq<char>>::empty());
        }
        while i < toks.len()
            invariant
                gt == toks@.map_values(|t: Vec<char>| t@),
                gt == movetext_tokens(pgn@),
                i <= toks@.len(),
                plies@.len() == i,
                board.resolved() == gt.take(i as int),
                resolve_line(gt.take(i as int)) == Some(plies@),
            decreases toks@.len() - i,
        {
            proof {
                assert(gt.take(i + 1).drop_last() =~= gt.take(i as int));
                assert(gt.take(i + 1).last() == gt[i as int]);
                assert(gt[i as int] == toks@[i as int]@);
            }
            let n = match engine::parse(&toks[i]) {
                Some(n) => n,
                None => {
                    proof {
                        assert(resolve_line(gt.take(i + 1)) is None);
                        engine::lemma_resolve_line_none(gt, i + 1);
                    }
                    return Err(ResolveError);
                },
            };
            let res = match engine::decode(&board, &n) {
                Some(res) => res,
                None => {
                    proof {
                        assert(resolve_line(gt.take(i + 1)) is None);
                        engine::lemma_resolve_line_none(gt, i + 1);
                    }
                    return Err(ResolveError);
                },
            };
            let ply = Ply {
                by: engine::turn_of(&board),
                in_check: engine::side_in_check(&board),
                role: engine::move_role(&res),
                captured: engine::move_capture(&res),
                from: engine::move_from(&res),
                to: engine::move_to(&res),
                promotion: engine::move_promotion(&res),
            };
            board = match engine::advance(board, &res) {
                Some(b) => b,
                None => {
                    proof {
                        assert(resolve_line(gt.take(i + 1)) is None);
                        engine::lemma_resolve_line_none(gt, i + 1);
                    }
                    return Err(ResolveError);
                },
            };
            plies.push(ply);
            proof {
                assert(resolved_ply(gt.take(i as int), gt[i as int]) == Some(ply));
                assert(resolve_line(gt.take(i + 1)) == Some(plies@));
            }
            i = i + 1;
        }
        proof {
            assert(gt.take(toks@.len() as int) =~= gt);
        }
        Ok(Game { plies })
    }

    /// The number of plies of the game.
    pub fn len(&self) -> (n: usize)
        ensures
            n == self@.len(),
    {
        self.plies.len()
    }

    /// The ply at the given place in the playing order.
    pub fn ply_at(&self, i: usize) -> (p: Ply)
        requires
            i < self@.len(),
        ensures
            p == self@[i as int],
    {
        self.plies[i]
    }

    /// A fresh replay of the game. The iterator owns a private copy of the
    /// ply sequence; replaying never affects the game, and a new iterator
    /// replays from the start again.
    pub fn iter(&self) -> (it: GameIter)
        ensures
            it.wf(),
            it.remaining() == self@,
    {
        let it = GameIter { plies: self.plies.clone(), at: 0 };
        proof {
            assert(it.plies@.skip(0) =~= it.plies@);
            assert(it.plies@ =~= self.plies@);
        }
        it
    }

    /// Whether the game complies with a rule for the nominated side.
    pub fn complies<R: GameRule>(&self, rule: &R, color: Color) -> (r: bool)
        ensures
            r == rule.game_ok(self@, color),
    {
        rule.is_match(self, color)
    }
}

/// A single-pass replay of a game: yields the game's plies in playing order,
/// exactly one per ply, then ends.
pub struct GameIter {
    plies: Vec<Ply>,
    at: usize,
}

impl GameIter {
    /// An iterator never stands past the end of its ply sequence.
    pub closed spec fn wf(&self) -> bool {
        self.at <= self.plies@.len()
    }

    /// The plies not yet yielded, in playing order.
    pub closed spec fn remaining(&self) -> Seq<Ply> {
        self.plies@.skip(self.at as int)
    }

    /// Yields the next ply of the replay, or `None` when the replay is done.
    pub fn next(&mut self) -> (r: Option<Ply>)
        requires
            old(self).wf(),
        ensures
            final(self).wf(),
            old(self).remaining().len() == 0 ==> r is None && final(self).remaining()
                == old(self).remaining(),
            old(self).remaining().len() > 0 ==> r == Some(old(self).remaining()[0])
                && final(self).remaining() == old(self).remaining().drop_first(),
    {
        if self.at < self.plies.len() {
            let p = self.plies[self.at];
            self.at = self.at + 1;
            proof {
                assert(self.plies@.skip(self.at as int) =~= old(
                    self,
                ).remaining().drop_first());
            }
            Some(p)
        } else {
            None
        }
    }
}

} // verus!
