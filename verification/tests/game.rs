use house_rules::{Game, ResolveError};

#[test]
fn parse_pgn() {
    let game = Game::from_pgn("1. c4 c5 2. b4").unwrap();
    assert_eq!(3, game.len());
}

#[test]
fn parse_pgn_illegal() {
    let res = Game::from_pgn("1. c4 c5 2. c3");
    assert!(res.is_err());
}

#[test]
fn empty_record_parses_to_empty_game() {
    let game = Game::from_pgn("").unwrap();
    assert_eq!(0, game.len());
}

#[test]
fn replay_yields_one_pair_per_ply() {
    let game = Game::from_pgn("1. c4 c5 2. b4").unwrap();
    let mut it = game.iter();
    let mut count = 0;
    while let Some(_ply) = it.next() {
        count += 1;
    }
    assert_eq!(3, count);
}

#[test]
fn replay_needs_a_new_iterator() {
    let game = Game::from_pgn("1. c4 c5").unwrap();
    let mut it = game.iter();
    while it.next().is_some() {}
    assert!(it.next().is_none());
    // the game is unaffected; a fresh iterator replays from the start
    assert_eq!(2, game.len());
    let mut again = game.iter();
    assert!(again.next().is_some());
}

#[test]
fn variation_branch_is_skipped() {
    let game = Game::from_pgn("1. c4 (1. e4 e5 2. Nf3) c5 2. b4").unwrap();
    assert_eq!(3, game.len());
}

#[test]
fn nested_variations_are_skipped() {
    let game = Game::from_pgn("1. c4 (1. e4 (1. d4 d5) e5) c5").unwrap();
    assert_eq!(2, game.len());
}

#[test]
fn comments_and_annotations_are_dropped() {
    let game = Game::from_pgn("1. c4! {a fine move} c5?! $4 ; rest of the line\n2. b4 1-0")
        .unwrap();
    assert_eq!(3, game.len());
}

#[test]
fn illegal_first_move_fails() {
    assert_eq!(Some(ResolveError), Game::from_pgn("1. c5").err());
}

#[test]
fn malformed_token_fails() {
    assert_eq!(Some(ResolveError), Game::from_pgn("1. xyz").err());
}

#[test]
fn ambiguous_notation_fails() {
    // both knights can reach d2, so the third token denotes two moves
    assert_eq!(Some(ResolveError), Game::from_pgn("1. Nf3 d5 2. Nd2").err());
}

#[test]
fn default_game_is_empty() {
    let game = Game::default();
    assert_eq!(0, game.len());
    let mut it = game.iter();
    assert!(it.next().is_none());
}
