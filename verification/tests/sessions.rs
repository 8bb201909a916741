//! Exercises the session facade end to end: creation, matchmaking, turn
//! enforcement, rejection determinism, and termination detection, with the
//! real rules engine linked in.

use chess_sessions::ChessContract;
use chess_sessions::ChessGame;
use chess_sessions::Color;
use chess_sessions::GameError;
use chess_sessions::GameState;
use chess_sessions::MoveOutcome;

const STARTING_BOARD_STATE: &str = "rnbqkbnr/pppppppp/8/8/8/8/PPPPPPPP/RNBQKBNR w KQkq - 0 1";

fn test_setup() -> (ChessContract, u64) {
    let mut contract = ChessContract::default();

    let game_idx = contract.create_game("bob".to_string());

    // Pending before the challenge is accepted
    assert!(matches!(
        contract.get_board_state(game_idx).unwrap(),
        ChessGame::Pending { challenger: _ }
    ));

    // Alice accepts challenge from bob
    contract
        .accept_challenge(game_idx, "alice".to_string())
        .unwrap();

    // Sanity checks
    let game = contract.get_board_state(game_idx).unwrap();
    if let ChessGame::Active {
        white,
        black,
        board_fen,
        white_to_move,
    } = game
    {
        assert_eq!(white, "bob");
        assert_eq!(black, "alice");
        assert_eq!(board_fen, STARTING_BOARD_STATE);
        assert!(white_to_move);
    } else {
        panic!("Uninitialized game");
    }

    (contract, game_idx)
}

#[test]
fn basic_initialize() {
    let contract = ChessContract::default();
    assert!(contract.get_board_state(0).is_none());
}

#[test]
fn initialize_and_play() {
    let (mut contract, game_idx) = test_setup();

    // Make valid moves (Fool's mate game)
    contract
        .make_move(game_idx, "bob".to_string(), "f2f3".to_string())
        .unwrap();
    contract
        .make_move(game_idx, "alice".to_string(), "e7e5".to_string())
        .unwrap();
    contract
        .make_move(game_idx, "bob".to_string(), "g2g4".to_string())
        .unwrap();
    contract
        .make_move(game_idx, "alice".to_string(), "d8h4".to_string())
        .unwrap();

    let game = contract.get_board_state(game_idx).unwrap();
    if let ChessGame::Finished {
        board_fen, outcome, ..
    } = game
    {
        assert_eq!(
            board_fen,
            "rnb1kbnr/pppp1ppp/8/4p3/6Pq/5P2/PPPPP2P/RNBQKBNR w KQkq - 0 1"
        );
        assert!(matches!(outcome, GameState::Win(Color::Black)));
    } else {
        panic!("Uninitialized game");
    }
}

#[test]
fn identifiers_count_up_from_zero() {
    let mut contract = ChessContract::default();
    assert_eq!(contract.create_game("bob".to_string()), 0);
    assert_eq!(contract.create_game("carol".to_string()), 1);
    assert_eq!(contract.create_game("bob".to_string()), 2);
    assert!(contract.get_board_state(3).is_none());
}

#[test]
fn unknown_session_is_rejected() {
    let mut contract = ChessContract::default();
    assert_eq!(
        contract.accept_challenge(7, "alice".to_string()),
        Err(GameError::NoSuchSession)
    );
    assert_eq!(
        contract.make_move(7, "alice".to_string(), "e2e4".to_string()),
        Err(GameError::NoSuchSession)
    );
}

#[test]
fn self_challenge_is_rejected() {
    let mut contract = ChessContract::default();
    let id = contract.create_game("bob".to_string());
    assert_eq!(
        contract.accept_challenge(id, "bob".to_string()),
        Err(GameError::SelfChallenge)
    );
    // still joinable by someone else
    assert_eq!(contract.accept_challenge(id, "alice".to_string()), Ok(()));
}

#[test]
fn second_join_is_rejected() {
    let (mut contract, game_idx) = test_setup();
    // The session is Active: any further join observes InvalidPhase,
    // whoever asks -- including the participants themselves.
    assert_eq!(
        contract.accept_challenge(game_idx, "carol".to_string()),
        Err(GameError::InvalidPhase)
    );
    assert_eq!(
        contract.accept_challenge(game_idx, "alice".to_string()),
        Err(GameError::InvalidPhase)
    );
}

#[test]
fn move_on_pending_session_is_rejected() {
    let mut contract = ChessContract::default();
    let id = contract.create_game("bob".to_string());
    let before = contract.get_board_state(id).unwrap();
    assert_eq!(
        contract.make_move(id, "bob".to_string(), "e2e4".to_string()),
        Err(GameError::InvalidPhase)
    );
    assert_eq!(contract.get_board_state(id).unwrap(), before);
}

#[test]
fn move_by_non_participant_is_rejected() {
    let (mut contract, game_idx) = test_setup();
    let before = contract.get_board_state(game_idx).unwrap();
    assert_eq!(
        contract.make_move(game_idx, "carol".to_string(), "e2e4".to_string()),
        Err(GameError::NotAParticipant)
    );
    assert_eq!(contract.get_board_state(game_idx).unwrap(), before);
}

#[test]
fn move_out_of_turn_is_rejected() {
    let (mut contract, game_idx) = test_setup();

    // Black cannot open the game
    let before = contract.get_board_state(game_idx).unwrap();
    assert_eq!(
        contract.make_move(game_idx, "alice".to_string(), "e7e5".to_string()),
        Err(GameError::NotYourTurn)
    );
    assert_eq!(contract.get_board_state(game_idx).unwrap(), before);

    // After White's move the turn flips
    assert_eq!(
        contract.make_move(game_idx, "bob".to_string(), "e2e4".to_string()),
        Ok(MoveOutcome::Continued)
    );
    let before = contract.get_board_state(game_idx).unwrap();
    assert_eq!(
        contract.make_move(game_idx, "bob".to_string(), "d2d4".to_string()),
        Err(GameError::NotYourTurn)
    );
    assert_eq!(contract.get_board_state(game_idx).unwrap(), before);
}

#[test]
fn malformed_and_illegal_moves_are_rejected() {
    let (mut contract, game_idx) = test_setup();
    let before = contract.get_board_state(game_idx).unwrap();

    // does not parse in the move grammar
    assert_eq!(
        contract.make_move(game_idx, "bob".to_string(), "zzzz".to_string()),
        Err(GameError::MalformedMove)
    );
    // parses, but no pawn reaches e5 from e2 in one move
    assert_eq!(
        contract.make_move(game_idx, "bob".to_string(), "e2e5".to_string()),
        Err(GameError::IllegalMove)
    );
    assert_eq!(contract.get_board_state(game_idx).unwrap(), before);
}

#[test]
fn rejected_move_retried_is_identical() {
    let (mut contract, game_idx) = test_setup();
    let before = contract.get_board_state(game_idx).unwrap();

    let first = contract.make_move(game_idx, "alice".to_string(), "e7e5".to_string());
    let mid = contract.get_board_state(game_idx).unwrap();
    let second = contract.make_move(game_idx, "alice".to_string(), "e7e5".to_string());
    let after = contract.get_board_state(game_idx).unwrap();

    assert_eq!(first, Err(GameError::NotYourTurn));
    assert_eq!(first, second);
    assert_eq!(before, mid);
    assert_eq!(mid, after);
}

#[test]
fn full_game_scenario() {
    let mut contract = ChessContract::default();

    let id = contract.create_game("bob".to_string());
    assert_eq!(id, 0);
    assert!(matches!(
        contract.get_board_state(0).unwrap(),
        ChessGame::Pending { challenger } if challenger == "bob"
    ));

    assert_eq!(contract.accept_challenge(0, "alice".to_string()), Ok(()));

    assert_eq!(
        contract.make_move(0, "bob".to_string(), "f2f3".to_string()),
        Ok(MoveOutcome::Continued)
    );
    // the turn flipped to Black
    assert!(matches!(
        contract.get_board_state(0).unwrap(),
        ChessGame::Active { white_to_move: false, .. }
    ));
    assert_eq!(
        contract.make_move(0, "bob".to_string(), "e7e5".to_string()),
        Err(GameError::NotYourTurn)
    );
    assert_eq!(
        contract.make_move(0, "alice".to_string(), "e7e5".to_string()),
        Ok(MoveOutcome::Continued)
    );
    assert_eq!(
        contract.make_move(0, "bob".to_string(), "g2g4".to_string()),
        Ok(MoveOutcome::Continued)
    );
    assert_eq!(
        contract.make_move(0, "alice".to_string(), "d8h4".to_string()),
        Ok(MoveOutcome::GameWon(Color::Black))
    );
    assert!(matches!(
        contract.get_board_state(0).unwrap(),
        ChessGame::Finished { outcome: GameState::Win(Color::Black), .. }
    ));
    assert_eq!(
        contract.make_move(0, "alice".to_string(), "e2e4".to_string()),
        Err(GameError::InvalidPhase)
    );
    assert_eq!(
        contract.make_move(0, "bob".to_string(), "e2e4".to_string()),
        Err(GameError::InvalidPhase)
    );
}

#[test]
fn position_changes_after_a_move() {
    let (mut contract, game_idx) = test_setup();
    contract
        .make_move(game_idx, "bob".to_string(), "f2f3".to_string())
        .unwrap();
    if let ChessGame::Active { board_fen, .. } = contract.get_board_state(game_idx).unwrap() {
        assert_eq!(
            board_fen,
            "rnbqkbnr/pppppppp/8/8/8/5P2/PPPPP1PP/RNBQKBNR b KQkq - 0 1"
        );
    } else {
        panic!("Uninitialized game");
    }
}

#[test]
fn stalemate_ends_in_draw() {
    let (mut contract, id) = test_setup();
    let moves = [
        ("bob", "e2e3"),
        ("alice", "a7a5"),
        ("bob", "d1h5"),
        ("alice", "a8a6"),
        ("bob", "h5a5"),
        ("alice", "h7h5"),
        ("bob", "a5c7"),
        ("alice", "a6h6"),
        ("bob", "h2h4"),
        ("alice", "f7f6"),
        ("bob", "c7d7"),
        ("alice", "e8f7"),
        ("bob", "d7b7"),
        ("alice", "d8d3"),
        ("bob", "b7b8"),
        ("alice", "d3h7"),
        ("bob", "b8c8"),
        ("alice", "f7g6"),
    ];
    for (who, m) in moves {
        assert_eq!(
            contract.make_move(id, who.to_string(), m.to_string()),
            Ok(MoveOutcome::Continued)
        );
    }
    // Qe6: Black has no legal move and is not in check
    assert_eq!(
        contract.make_move(id, "bob".to_string(), "c8e6".to_string()),
        Ok(MoveOutcome::GameDrawn)
    );
    assert!(matches!(
        contract.get_board_state(id).unwrap(),
        ChessGame::Finished { outcome: GameState::Draw, .. }
    ));
}
