use house_rules::rules::capture::{MustCaptureWith, MustCaptureWithUnlessInCheck, MustNotCapture};
use house_rules::rules::sequence::{Opening, PlayerSequence};
use house_rules::Color::{Black, White};
use house_rules::Role::{Pawn, Queen, Rook};
use house_rules::{Game, Rule, UciMove};

#[test]
fn must_capture_with_pawns_valid() {
    let game = Game::from_pgn(
        "1. d4 d5 2. e4 e6 3. exd5 Bc5 4. dxc5 Qxd5 5. Bd2 Qxg2 6. Bb5+ Kd8 7. Bg5#",
    )
    .unwrap();
    let rule = MustCaptureWith { role: Pawn };
    assert_eq!(true, game.complies(&rule, White));
}

#[test]
fn must_capture_with_pawns_invalid() {
    let game = Game::from_pgn("1. d4 d5 2. e4 e6 3. exd5 Bc5 4. dxc5 Qxd5 5. c4 Qxd1+ 6. Kxd1")
        .unwrap();
    let rule = MustCaptureWith { role: Pawn };
    assert_eq!(false, game.complies(&rule, White));
}

#[test]
fn must_not_capture_rook() {
    let game = Game::from_pgn(
        "1. c4 e5 2. Qa4 Qh4 3. Qxa7 Qxh2 4. Qxb8 Qxh1 5. Qxc8+ Ke7 6. Qxb7 Qxg2 7. Qxg2",
    )
    .unwrap();
    let rule = MustNotCapture { role: Rook };
    assert_eq!(true, game.complies(&rule, White));
    assert_eq!(false, game.complies(&rule, Black));
}

#[test]
fn lifted_rule_is_vacuously_true_without_a_ply() {
    // Black has not moved at all, so any lifted rule accepts for Black.
    let game = Game::from_pgn("1. c4").unwrap();
    assert_eq!(true, game.complies(&MustCaptureWith { role: Rook }, Black));
    assert_eq!(true, game.complies(&MustNotCapture { role: Pawn }, Black));
    // The empty game is vacuous for both sides.
    let empty = Game::default();
    assert_eq!(true, empty.complies(&MustCaptureWith { role: Rook }, White));
    assert_eq!(true, empty.complies(&MustCaptureWith { role: Rook }, Black));
}

#[test]
fn capture_rule_is_waived_in_check() {
    // Black's king captures the queen while Black stands in check.
    let game = Game::from_pgn("1. e4 e5 2. Qh5 Nc6 3. Qxf7+ Kxf7").unwrap();
    assert_eq!(
        true,
        game.complies(&MustCaptureWithUnlessInCheck { role: Pawn }, Black)
    );
    assert_eq!(false, game.complies(&MustCaptureWith { role: Pawn }, Black));
    // White's queen capture was not made in check, so White fails both.
    assert_eq!(
        false,
        game.complies(&MustCaptureWithUnlessInCheck { role: Pawn }, White)
    );
    // the descriptor resolves to the same rule
    assert_eq!(
        true,
        game.complies(&Rule::MustCaptureWithUnlessInCheck { role: Pawn }, Black)
    );
}

#[test]
fn rule_descriptor_resolves_to_the_catalog() {
    let game = Game::from_pgn("1. d4 d5 2. e4 e6 3. exd5 Bc5 4. dxc5 Qxd5 5. c4 Qxd1+ 6. Kxd1")
        .unwrap();
    assert_eq!(false, game.complies(&Rule::MustCaptureWith { role: Pawn }, White));
    // Black captures with the queen twice, so Black fails the rule as well
    assert_eq!(false, game.complies(&Rule::MustCaptureWith { role: Pawn }, Black));
    let rooks = Game::from_pgn(
        "1. c4 e5 2. Qa4 Qh4 3. Qxa7 Qxh2 4. Qxb8 Qxh1 5. Qxc8+ Ke7 6. Qxb7 Qxg2 7. Qxg2",
    )
    .unwrap();
    assert_eq!(true, rooks.complies(&Rule::MustNotCapture { role: Rook }, White));
    assert_eq!(false, rooks.complies(&Rule::MustNotCapture { role: Rook }, Black));
}

// Square indices count files a to h within ranks 1 to 8: a1 is 0, h1 is 7,
// a2 is 8, and so on up to h8 at 63.
fn uci(from: u8, to: u8) -> UciMove {
    UciMove { from, to, promotion: None }
}

#[test]
fn opening_rule_checks_the_first_plies() {
    let game = Game::from_pgn("1. c4 c5 2. b4").unwrap();
    // c2 to c4, then c7 to c5
    let good = Opening { moves: vec![uci(10, 26), uci(50, 34)] };
    assert_eq!(true, game.complies(&good, White));
    assert_eq!(true, game.complies(&good, Black));
    // b2 to b4 is the third ply, not the first
    let bad = Opening { moves: vec![uci(9, 25)] };
    assert_eq!(false, game.complies(&bad, White));
    // an opening longer than the game cannot be satisfied
    let long = Opening {
        moves: vec![uci(10, 26), uci(50, 34), uci(9, 25), uci(9, 25)],
    };
    assert_eq!(false, game.complies(&long, White));
    // the descriptor resolves to the same rule
    let desc = Rule::Opening { moves: vec![uci(10, 26), uci(50, 34)] };
    assert_eq!(true, game.complies(&desc, Black));
}

#[test]
fn player_sequence_rule_checks_one_side() {
    let game = Game::from_pgn("1. c4 c5 2. b4").unwrap();
    let white_moves = PlayerSequence { moves: vec![uci(10, 26), uci(9, 25)] };
    assert_eq!(true, game.complies(&white_moves, White));
    assert_eq!(false, game.complies(&white_moves, Black));
    let black_moves = PlayerSequence { moves: vec![uci(50, 34)] };
    assert_eq!(true, game.complies(&black_moves, Black));
}

#[test]
fn promotion_is_recorded_in_the_ply() {
    let game = Game::from_pgn("1. a4 b5 2. axb5 a6 3. bxa6 Nc6 4. a7 Rb8 5. axb8=Q").unwrap();
    // a2a4, a4xb5, b5xa6, a6a7, a7xb8 promoting to a queen
    let white_moves = Rule::PlayerSequence {
        moves: vec![
            uci(8, 24),
            uci(24, 33),
            uci(33, 40),
            uci(40, 48),
            UciMove { from: 48, to: 57, promotion: Some(Queen) },
        ],
    };
    assert_eq!(true, game.complies(&white_moves, White));
    // the promotion capture took a rook
    assert_eq!(false, game.complies(&MustNotCapture { role: Rook }, White));
}
