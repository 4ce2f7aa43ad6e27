//! The two outside collaborators of the library: the position engine and the
//! notation decoder, both provided by the `shakmaty` crate.
//!
//! Chess legality is not this library's subject: positions, moves and
//! notation values stay opaque here, and each call into the engine stands in
//! a small trusted function. What each call returns is deterministic — the
//! same record resolves the same way on every machine — so each engine
//! function's result is given a name, a spec function over the plain values
//! that determine it: the notation tokens already resolved (which fix the
//! position, play being deterministic from the standard starting position)
//! and the token at hand. Every opaque value travels paired with the tokens
//! it arose from, in a type of this module that only this module can build,
//! so the names in the contracts always speak of the pairing that really
//! happened.

use crate::ply::{Color, Ply, Role};
use shakmaty::Position;
use vstd::prelude::*;

verus! {

#[verifier::external_type_specification]
#[verifier::external_body]
pub struct ExChess(shakmaty::Chess);

#[verifier::external_type_specification]
#[verifier::external_body]
pub struct ExMove(shakmaty::Move);

#[verifier::external_type_specification]
#[verifier::external_body]
pub struct ExSan(shakmaty::san::San);

/// Whether a token is syntactically valid algebraic notation: names the
/// success of `shakmaty::san::San::from_ascii`, a function of the token's
/// characters alone.
pub uninterp spec fn parse_ok(tok: Seq<char>) -> bool;

/// Whether a token denotes exactly one legal move in the position reached by
/// resolving `prior`: names the success of `shakmaty::san::San::to_move`.
pub uninterp spec fn decode_ok(prior: Seq<Seq<char>>, tok: Seq<char>) -> bool;

/// Whether the move a token denotes passes the engine's legality test when
/// applied: names the success of `shakmaty::Position::play`.
pub uninterp spec fn apply_ok(prior: Seq<Seq<char>>, tok: Seq<char>) -> bool;

/// The side to move in the position reached by resolving `prior`: names the
/// result of `shakmaty::Position::turn`.
pub uninterp spec fn side_to_move(prior: Seq<Seq<char>>) -> Color;

/// Whether the side to move stands in check in the position reached by
/// resolving `prior`: names the result of `shakmaty::Position::is_check`.
pub uninterp spec fn check_flag(prior: Seq<Seq<char>>) -> bool;

/// The role moved by the move a token denotes: names the result of
/// `shakmaty::Move::role`.
pub uninterp spec fn moved_role(prior: Seq<Seq<char>>, tok: Seq<char>) -> Role;

/// The role captured by the move a token denotes, if any: names the result
/// of `shakmaty::Move::capture`.
pub uninterp spec fn captured_role(prior: Seq<Seq<char>>, tok: Seq<char>) -> Option<Role>;

/// The origin square of the move a token denotes, if it has one: names the
/// result of `shakmaty::Move::from`.
pub uninterp spec fn origin_square(prior: Seq<Seq<char>>, tok: Seq<char>) -> Option<u8>;

/// The destination square of the move a token denotes: names the result of
/// `shakmaty::Move::to`.
pub uninterp spec fn target_square(prior: Seq<Seq<char>>, tok: Seq<char>) -> u8;

/// The promotion role of the move a token denotes, if it promotes: names the
/// result of `shakmaty::Move::promotion`.
pub uninterp spec fn promotion_role(prior: Seq<Seq<char>>, tok: Seq<char>) -> Option<Role>;

/// The ply that the token `tok` resolves to after the resolved tokens
/// `prior`, or `None` when it does not resolve there: it must parse as
/// notation, denote exactly one legal move, and that move must apply.
pub open spec fn resolved_ply(prior: Seq<Seq<char>>, tok: Seq<char>) -> Option<Ply> {
    if parse_ok(tok) && decode_ok(prior, tok) && apply_ok(prior, tok) {
        Some(
            Ply {
                by: side_to_move(prior),
                in_check: check_flag(prior),
                role: moved_role(prior, tok),
                captured: captured_role(prior, tok),
                from: origin_square(prior, tok),
                to: target_square(prior, tok),
                promotion: promotion_role(prior, tok),
            },
        )
    } else {
        None
    }
}

/// The plies of a whole token sequence, resolved in order from the standard
/// starting position, or `None` as soon as one token fails to resolve.
pub open spec fn resolve_line(toks: Seq<Seq<char>>) -> Option<Seq<Ply>>
    decreases toks.len(),
{
    if toks.len() == 0 {
        Some(Seq::empty())
    } else {
        match resolve_line(toks.drop_last()) {
            None => None,
            Some(plies) => match resolved_ply(toks.drop_last(), toks.last()) {
                None => None,
                Some(p) => Some(plies.push(p)),
            },
        }
    }
}

/// A line that fails to resolve at some prefix fails to resolve whole.
pub(crate) proof fn lemma_resolve_line_none(toks: Seq<Seq<char>>, i: int)
    requires
        0 <= i <= toks.len(),
        resolve_line(toks.take(i)) is None,
    ensures
        resolve_line(toks) is None,
    decreases toks.len() - i,
{
    if i == toks.len() {
        assert(toks.take(i) =~= toks);
    } else {
        assert(toks.take(i + 1).drop_last() =~= toks.take(i));
        lemma_resolve_line_none(toks, i + 1);
    }
}

/// A working position of the engine, paired with the tokens whose moves
/// produced it from the standard starting position. Only this module builds
/// one, so the pairing always holds.
pub(crate) struct Board {
    pos: shakmaty::Chess,
    line: Ghost<Seq<Seq<char>>>,
}

/// A parsed notation value, paired with the token it was parsed from.
pub(crate) struct Notation {
    san: shakmaty::san::San,
    word: Ghost<Seq<char>>,
}

/// A decoded move, paired with the tokens that fixed the position it was
/// decoded in and with the token that denoted it.
pub(crate) struct Resolved {
    m: shakmaty::Move,
    ctx: Ghost<Seq<Seq<char>>>,
    word: Ghost<Seq<char>>,
}

impl Board {
    /// The tokens resolved into this position so far.
    pub(crate) closed spec fn resolved(&self) -> Seq<Seq<char>> {
        self.line@
    }

    /// The standard starting position, with nothing resolved yet.
    pub(crate) fn new() -> (b: Board)
        ensures
            b.resolved() == Seq::<Seq<char>>::empty(),
    {
        Board { pos: starting_position(), line: Ghost(Seq::empty()) }
    }
}

impl Notation {
    /// The token this notation was parsed from.
    pub(crate) closed spec fn text(&self) -> Seq<char> {
        self.word@
    }
}

impl Resolved {
    /// The tokens that fixed the position this move was decoded in.
    pub(crate) closed spec fn prior(&self) -> Seq<Seq<char>> {
        self.ctx@
    }

    /// The token that denoted this move.
    pub(crate) closed spec fn text(&self) -> Seq<char> {
        self.word@
    }
}

/// Relies on shakmaty::Chess::default: the standard chess starting position.
#[verifier::external_body]
fn starting_position() -> shakmaty::Chess {
    shakmaty::Chess::default()
}

/// Relies on shakmaty::san::San::from_ascii: parses one word as a move in
/// standard algebraic notation, ignoring a check or checkmate suffix, and
/// succeeds exactly on syntactically valid notation, a property of the
/// characters alone.
#[verifier::external_body]
fn parse_raw(tok: &Vec<char>) -> (r: Option<shakmaty::san::San>)
    ensures
        r is Some <==> parse_ok(tok@),
{
    let s: String = tok.iter().collect();
    match shakmaty::san::San::from_ascii(s.as_bytes()) {
        Ok(san) => Some(san),
        Err(_) => None,
    }
}

/// Relies on shakmaty::san::San::to_move: resolves notation against a
/// position, succeeding exactly when it denotes one legal move there;
/// illegal and ambiguous notation fail alike.
#[verifier::external_body]
fn decode_raw(b: &Board, n: &Notation) -> (r: Option<shakmaty::Move>)
    ensures
        r is Some <==> decode_ok(b.resolved(), n.text()),
{
    match n.san.to_move(&b.pos) {
        Ok(m) => Some(m),
        Err(_) => None,
    }
}

/// Relies on shakmaty::Position::play: tests a move for legality and applies
/// it, succeeding exactly when it is legal.
#[verifier::external_body]
fn play_raw(b: Board, r: &Resolved) -> (p: Option<shakmaty::Chess>)
    requires
        r.prior() == b.resolved(),
    ensures
        p is Some <==> apply_ok(b.resolved(), r.text()),
{
    match b.pos.play(r.m) {
        Ok(next) => Some(next),
        Err(_) => None,
    }
}

/// Relies on shakmaty::Position::turn: the side to move.
#[verifier::external_body]
pub(crate) fn turn_of(b: &Board) -> (c: Color)
    ensures
        c == side_to_move(b.resolved()),
{
    match b.pos.turn() {
        shakmaty::Color::White => Color::White,
        shakmaty::Color::Black => Color::Black,
    }
}

/// Relies on shakmaty::Position::is_check: whether the side to move is in
/// check.
#[verifier::external_body]
pub(crate) fn side_in_check(b: &Board) -> (r: bool)
    ensures
        r == check_flag(b.resolved()),
{
    b.pos.is_check()
}

/// Relies on shakmaty::Move::role: the role of the moved piece.
#[verifier::external_body]
pub(crate) fn move_role(r: &Resolved) -> (role: Role)
    ensures
        role == moved_role(r.prior(), r.text()),
{
    match r.m.role() {
        shakmaty::Role::Pawn => Role::Pawn,
        shakmaty::Role::Knight => Role::Knight,
        shakmaty::Role::Bishop => Role::Bishop,
        shakmaty::Role::Rook => Role::Rook,
        shakmaty::Role::Queen => Role::Queen,
        shakmaty::Role::King => Role::King,
    }
}

/// Relies on shakmaty::Move::capture: the role of the captured piece, or
/// `None` when the move is not a capture.
#[verifier::external_body]
pub(crate) fn move_capture(r: &Resolved) -> (c: Option<Role>)
    ensures
        c == captured_role(r.prior(), r.text()),
{
    match r.m.capture() {
        Some(shakmaty::Role::Pawn) => Some(Role::Pawn),
        Some(shakmaty::Role::Knight) => Some(Role::Knight),
        Some(shakmaty::Role::Bishop) => Some(Role::Bishop),
        Some(shakmaty::Role::Rook) => Some(Role::Rook),
        Some(shakmaty::Role::Queen) => Some(Role::Queen),
        Some(shakmaty::Role::King) => Some(Role::King),
        None => None,
    }
}

/// Relies on shakmaty::Move::promotion: the role promoted to, or `None` when
/// the move does not promote.
#[verifier::external_body]
pub(crate) fn move_promotion(r: &Resolved) -> (p: Option<Role>)
    ensures
        p == promotion_role(r.prior(), r.text()),
{
    match r.m.promotion() {
        Some(shakmaty::Role::Pawn) => Some(Role::Pawn),
        Some(shakmaty::Role::Knight) => Some(Role::Knight),
        Some(shakmaty::Role::Bishop) => Some(Role::Bishop),
        Some(shakmaty::Role::Rook) => Some(Role::Rook),
        Some(shakmaty::Role::Queen) => Some(Role::Queen),
        Some(shakmaty::Role::King) => Some(Role::King),
        None => None,
    }
}

/// Relies on shakmaty::Move::from: the index of the origin square, or `None`
/// for a piece drop, which has no origin; for castling it is the king's
/// square.
#[verifier::external_body]
pub(crate) fn move_from(r: &Resolved) -> (f: Option<u8>)
    ensures
        f == origin_square(r.prior(), r.text()),
        f matches Some(i) ==> i < 64,
{
    match r.m.from() {
        Some(sq) => Some(sq.to_u32() as u8),
        None => None,
    }
}

/// Relies on shakmaty::Move::to: the index of the destination square; for
/// castling it is the rook's square.
#[verifier::external_body]
pub(crate) fn move_to(r: &Resolved) -> (t: u8)
    ensures
        t == target_square(r.prior(), r.text()),
        t < 64,
{
    r.m.to().to_u32() as u8
}

/// Parses one token as notation.
pub(crate) fn parse(tok: &Vec<char>) -> (r: Option<Notation>)
    ensures
        r is Some <==> parse_ok(tok@),
        r matches Some(n) ==> n.text() == tok@,
{
    match parse_raw(tok) {
        Some(san) => Some(Notation { san, word: Ghost(tok@) }),
        None => None,
    }
}

/// Decodes parsed notation against a working position.
pub(crate) fn decode(b: &Board, n: &Notation) -> (r: Option<Resolved>)
    ensures
        r is Some <==> decode_ok(b.resolved(), n.text()),
        r matches Some(res) ==> res.prior() == b.resolved() && res.text() == n.text(),
{
    match decode_raw(b, n) {
        Some(m) => Some(Resolved { m, ctx: Ghost(b.line@), word: Ghost(n.word@) }),
        None => None,
    }
}

/// Applies a decoded move to the working position it was decoded in.
pub(crate) fn advance(b: Board, r: &Resolved) -> (nb: Option<Board>)
    requires
        r.prior() == b.resolved(),
    ensures
        nb is Some <==> apply_ok(b.resolved(), r.text()),
        nb matches Some(n) ==> n.resolved() == b.resolved().push(r.text()),
{
    let ghost hist = b.line@;
    let ghost w = r.word@;
    match play_raw(b, r) {
        Some(pos) => Some(Board { pos, line: Ghost(hist.push(w)) }),
        None => None,
    }
}

} // verus!
