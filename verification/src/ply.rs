use vstd::prelude::*;

verus! {

/// One of the two sides of a chess game.
#[derive(Clone, Copy, PartialEq, Eq, Structural, Debug)]
pub enum Color {
    White,
    Black,
}

/// The kind of a chess piece.
#[derive(Clone, Copy, PartialEq, Eq, Structural, Debug)]
pub enum Role {
    Pawn,
    Knight,
    Bishop,
    Rook,
    Queen,
    King,
}

/// One ply of a game: everything the rule framework reads about a single
/// move, recorded as plain values when the game is constructed.
#[derive(Clone, Copy, Debug)]
pub struct Ply {
    /// The side that made the move: the side to move in the position the
    /// move was played from.
    pub by: Color,
    /// Whether that side was in check before the move.
    pub in_check: bool,
    /// The role of the moved piece.
    pub role: Role,
    /// The role of the captured piece, if the move was a capture.
    pub captured: Option<Role>,
    /// Index of the origin square (0 to 63), if the move has one; for
    /// castling it is the king's square.
    pub from: Option<u8>,
    /// Index of the destination square (0 to 63); for castling it is the
    /// square of the castling rook, not the king's destination.
    pub to: u8,
    /// The role promoted to, if the move promotes a pawn.
    pub promotion: Option<Role>,
}

impl Ply {
    /// Whether the ply captured a piece.
    pub open spec fn spec_is_capture(&self) -> bool {
        self.captured is Some
    }

    /// Whether the ply captured a piece.
    #[verifier::when_used_as_spec(spec_is_capture)]
    pub fn is_capture(&self) -> (r: bool)
        ensures
            r == self.spec_is_capture(),
    {
        self.captured.is_some()
    }
}

/// A move written down plainly by its origin square, destination square and
/// promotion role, the way coordinate notation does. Castling is encoded as
/// a king move whose destination is the castling rook's square, matching the
/// encoding of a castling [`Ply`].
#[derive(Clone, Copy, Debug)]
pub struct UciMove {
    /// Index of the origin square (0 to 63); for castling the king's square.
    pub from: u8,
    /// Index of the destination square (0 to 63); for castling the square of
    /// the castling rook.
    pub to: u8,
    /// The role promoted to, if the move promotes a pawn.
    pub promotion: Option<Role>,
}

/// Whether a played ply is the given plainly written move.
pub open spec fn ply_matches_uci(p: Ply, u: UciMove) -> bool {
    &&& p.from == Some(u.from)
    &&& p.to == u.to
    &&& p.promotion == u.promotion
}

/// Decides whether a played ply is the given plainly written move.
pub fn uci_matches(p: &Ply, u: &UciMove) -> (r: bool)
    ensures
        r == ply_matches_uci(*p, *u),
{
    let from_ok = match p.from {
        Some(f) => f == u.from,
        None => false,
    };
    let promotion_ok = match (p.promotion, u.promotion) {
        (Some(a), Some(b)) => a == b,
        (None, None) => true,
        _ => false,
    };
    from_ok && p.to == u.to && promotion_ok
}

} // verus!
