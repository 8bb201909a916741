//! The session data model and its lifecycle.
//!
//! A session moves through three phases, strictly forward:
//! `Pending` (a challenge with no opponent yet), `Active` (the opponent has
//! joined and moves are accepted), and `Finished` (terminal, immutable).
//! Side assignment is deterministic: the challenger plays White and moves
//! first; the joiner plays Black.
//!
//! Every transition is stated twice: once as a spec function over
//! [`GameView`], the mathematical model of a session, and once as an
//! executable function on [`ChessGame`] whose contract says it returns
//! exactly what the model says.

use vstd::prelude::*;

use crate::rules::{
    apply_move, check_move_legal, fen_ok, move_legal, move_token_ok, move_token_parses,
    position_after, position_status, query_status, start_fen, starting_position, PositionStatus,
};

verus! {

/// The side a participant plays.
#[derive(Clone, Copy, PartialEq, Eq, Structural, Debug)]
pub enum Color {
    White,
    Black,
}

/// How a game stands: still being played, won by one side, or drawn.
/// A `Finished` session holds a `Win(..)` or `Draw` value, never
/// `InProgress`.
#[derive(Clone, Copy, PartialEq, Eq, Structural, Debug)]
pub enum GameState {
    InProgress,
    Win(Color),
    Draw,
}

/// What a successful move submission reports back.
#[derive(Clone, Copy, PartialEq, Eq, Structural, Debug)]
pub enum MoveOutcome {
    /// The game goes on; it is now the other side's turn.
    Continued,
    /// The move checkmated the opponent; the given side won.
    GameWon(Color),
    /// The move left the opponent stalemated; the game is drawn.
    GameDrawn,
}

/// Why a call was rejected.  Every rejection names its reason; no rejection
/// changes any stored session.
#[derive(Clone, Copy, PartialEq, Eq, Structural, Debug)]
pub enum GameError {
    /// No session exists under the given identifier.
    NoSuchSession,
    /// The operation is not valid in the session's current phase.
    InvalidPhase,
    /// The joiner is the challenger of the same session.
    SelfChallenge,
    /// The requester is neither of the two assigned sides.
    NotAParticipant,
    /// The requester is a participant, but it is the other side's turn.
    NotYourTurn,
    /// The move token does not parse in the move grammar.
    MalformedMove,
    /// The move parses but is not legal in the current position.
    IllegalMove,
}

/// One game session.  The position is carried in its textual (FEN) form,
/// owned by the session alone.
#[derive(PartialEq, Eq, Debug)]
pub enum ChessGame {
    /// Created by a challenger; no opponent yet.
    Pending {
        /// The principal which opened the challenge.
        challenger: String,
    },
    /// The opponent has joined; the game accepts moves.
    Active {
        /// Plays the white pieces; the challenger; moves first.
        white: String,
        /// Plays the black pieces; the principal which joined.
        black: String,
        /// Text of the current position.
        board_fen: String,
        /// Whether it is White's turn.
        white_to_move: bool,
    },
    /// Terminal: no further join or move is accepted.
    Finished {
        /// Played the white pieces.
        white: String,
        /// Played the black pieces.
        black: String,
        /// Text of the final position.
        board_fen: String,
        /// How the game ended: `Win(..)` or `Draw`.
        outcome: GameState,
    },
}

/// The mathematical model of a session: the same three phases over
/// character sequences.
pub ghost enum GameView {
    Pending { challenger: Seq<char> },
    Active { white: Seq<char>, black: Seq<char>, board_fen: Seq<char>, white_to_move: bool },
    Finished { white: Seq<char>, black: Seq<char>, board_fen: Seq<char>, outcome: GameState },
}

impl View for ChessGame {
    type V = GameView;

    open spec fn view(&self) -> GameView {
        match self {
            ChessGame::Pending { challenger } => GameView::Pending { challenger: challenger@ },
            ChessGame::Active { white, black, board_fen, white_to_move } => (GameView::Active {
                white: white@,
                black: black@,
                board_fen: board_fen@,
                white_to_move: *white_to_move,
            }),
            ChessGame::Finished { white, black, board_fen, outcome } => (GameView::Finished {
                white: white@,
                black: black@,
                board_fen: board_fen@,
                outcome: *outcome,
            }),
        }
    }
}

impl ChessGame {
    /// Well-formedness of a session: the two sides are distinct, the stored
    /// position is one the rules engine accepts, and a finished game records
    /// a real outcome.  Constructors establish it and transitions preserve
    /// it.
    pub open spec fn wf(self) -> bool {
        match self {
            ChessGame::Pending { .. } => true,
            ChessGame::Active { white, black, board_fen, .. } => {
                white@ != black@ && fen_ok(board_fen@)
            },
            ChessGame::Finished { white, black, board_fen, outcome } => {
                white@ != black@ && fen_ok(board_fen@) && !(outcome is InProgress)
            },
        }
    }
}

/// The session a fresh challenge produces.
pub open spec fn begin_view(challenger: Seq<char>) -> GameView {
    GameView::Pending { challenger }
}

/// What joining a session yields: only a `Pending` session can be joined,
/// and not by its own challenger.  On success the challenger plays White,
/// the joiner plays Black, the position is the canonical starting position,
/// and White is to move.
pub open spec fn join_result(g: GameView, joiner: Seq<char>) -> Result<GameView, GameError> {
    match g {
        GameView::Pending { challenger } => {
            if joiner == challenger {
                Err(GameError::SelfChallenge)
            } else {
                Ok(
                    GameView::Active {
                        white: challenger,
                        black: joiner,
                        board_fen: start_fen(),
                        white_to_move: true,
                    },
                )
            }
        },
        _ => Err(GameError::InvalidPhase),
    }
}

/// What freezing a session with a final outcome yields: only an `Active`
/// session can finish; its sides and position are frozen as they stand.
pub open spec fn finish_result(g: GameView, outcome: GameState) -> Result<GameView, GameError> {
    match g {
        GameView::Active { white, black, board_fen, white_to_move } => {
            Ok(GameView::Finished { white, black, board_fen, outcome })
        },
        _ => Err(GameError::InvalidPhase),
    }
}

/// What submitting a move yields.  The checks run in this order, the first
/// failure winning: the session must be `Active`; the requester must be a
/// participant; it must be the requester's turn; the token must parse; the
/// move must be legal.  On success the move is applied, the turn flips, and
/// the rules engine's report of the new position decides whether the session
/// stays `Active` or finishes with a win for the mover or a draw.
pub open spec fn move_result(g: GameView, requester: Seq<char>, m: Seq<char>) -> Result<
    (GameView, MoveOutcome),
    GameError,
> {
    match g {
        GameView::Active { white, black, board_fen, white_to_move } => {
            if requester != white && requester != black {
                Err(GameError::NotAParticipant)
            } else if white_to_move && requester != white {
                Err(GameError::NotYourTurn)
            } else if !white_to_move && requester != black {
                Err(GameError::NotYourTurn)
            } else if !move_token_ok(m) {
                Err(GameError::MalformedMove)
            } else if !move_legal(board_fen, m) {
                Err(GameError::IllegalMove)
            } else {
                let new_fen = position_after(board_fen, m);
                let mover = if white_to_move {
                    Color::White
                } else {
                    Color::Black
                };
                match position_status(new_fen) {
                    PositionStatus::Ongoing => {
                        let next = GameView::Active {
                            white,
                            black,
                            board_fen: new_fen,
                            white_to_move: !white_to_move,
                        };
                        Ok((next, MoveOutcome::Continued))
                    },
                    PositionStatus::Checkmate => {
                        let next = GameView::Finished {
                            white,
                            black,
                            board_fen: new_fen,
                            outcome: GameState::Win(mover),
                        };
                        Ok((next, MoveOutcome::GameWon(mover)))
                    },
                    PositionStatus::Stalemate => {
                        let next = GameView::Finished {
                            white,
                            black,
                            board_fen: new_fen,
                            outcome: GameState::Draw,
                        };
                        Ok((next, MoveOutcome::GameDrawn))
                    },
                }
            }
        },
        _ => Err(GameError::InvalidPhase),
    }
}

/// The model of a session result: the session's model on success, the same
/// error otherwise.
pub open spec fn session_result_view(r: Result<ChessGame, GameError>) -> Result<
    GameView,
    GameError,
> {
    match r {
        Ok(g) => Ok(g@),
        Err(e) => Err(e),
    }
}

/// The model of a move-submission result.
pub open spec fn move_result_view(r: Result<(ChessGame, MoveOutcome), GameError>) -> Result<
    (GameView, MoveOutcome),
    GameError,
> {
    match r {
        Ok((g, oc)) => Ok((g@, oc)),
        Err(e) => Err(e),
    }
}

impl Clone for ChessGame {
    fn clone(&self) -> (res: Self)
        ensures
            res == *self,
    {
        match self {
            ChessGame::Pending { challenger } => (ChessGame::Pending {
                challenger: challenger.clone(),
            }),
            ChessGame::Active { white, black, board_fen, white_to_move } => (ChessGame::Active {
                white: white.clone(),
                black: black.clone(),
                board_fen: board_fen.clone(),
                white_to_move: *white_to_move,
            }),
            ChessGame::Finished { white, black, board_fen, outcome } => (ChessGame::Finished {
                white: white.clone(),
                black: black.clone(),
                board_fen: board_fen.clone(),
                outcome: *outcome,
            }),
        }
    }
}

impl ChessGame {
    /// Opens a challenge: always succeeds and yields a `Pending` session.
    pub fn begin(challenger: String) -> (r: ChessGame)
        ensures
            r@ == begin_view(challenger@),
    {
        ChessGame::Pending { challenger }
    }

    /// Accepts the challenge: yields the `Active` session [`join_result`]
    /// describes, or the rejection it names.
    pub fn join(&self, joiner: String) -> (r: Result<ChessGame, GameError>)
        ensures
            session_result_view(r) == join_result(self@, joiner@),
            r matches Ok(g) ==> g.wf(),
    {
        match self {
            ChessGame::Pending { challenger } => {
                if joiner == *challenger {
                    Err(GameError::SelfChallenge)
                } else {
                    let fen = starting_position();
                    Ok(
                        ChessGame::Active {
                            white: challenger.clone(),
                            black: joiner,
                            board_fen: fen,
                            white_to_move: true,
                        },
                    )
                }
            },
            _ => Err(GameError::InvalidPhase),
        }
    }

    /// Freezes an `Active` session with a final outcome.
    pub fn finish(&self, outcome: GameState) -> (r: Result<ChessGame, GameError>)
        requires
            !(outcome is InProgress),
        ensures
            session_result_view(r) == finish_result(self@, outcome),
    {
        match self {
            ChessGame::Active { white, black, board_fen, .. } => {
                Ok(
                    ChessGame::Finished {
                        white: white.clone(),
                        black: black.clone(),
                        board_fen: board_fen.clone(),
                        outcome,
                    },
                )
            },
            _ => Err(GameError::InvalidPhase),
        }
    }

    /// Gates and applies one move request: yields exactly what
    /// [`move_result`] describes, the updated session and its outcome on
    /// success, the named rejection otherwise.
    pub fn submit_move(&self, requester: &String, m: &String) -> (r: Result<
        (ChessGame, MoveOutcome),
        GameError,
    >)
        requires
            self.wf(),
        ensures
            move_result_view(r) == move_result(self@, requester@, m@),
            r matches Ok(p) ==> p.0.wf(),
    {
        match self {
            ChessGame::Active { white, black, board_fen, white_to_move } => {
                let is_white = *requester == *white;
                let is_black = *requester == *black;
                let wtm = *white_to_move;
                if !is_white && !is_black {
                    Err(GameError::NotAParticipant)
                } else if wtm && !is_white {
                    Err(GameError::NotYourTurn)
                } else if !wtm && !is_black {
                    Err(GameError::NotYourTurn)
                } else if !move_token_parses(m.as_str()) {
                    Err(GameError::MalformedMove)
                } else if !check_move_legal(board_fen.as_str(), m.as_str()) {
                    Err(GameError::IllegalMove)
                } else {
                    let new_fen = apply_move(board_fen.as_str(), m.as_str());
                    let mover = if wtm {
                        Color::White
                    } else {
                        Color::Black
                    };
                    match query_status(new_fen.as_str()) {
                        PositionStatus::Ongoing => {
                            let next = ChessGame::Active {
                                white: white.clone(),
                                black: black.clone(),
                                board_fen: new_fen,
                                white_to_move: !wtm,
                            };
                            Ok((next, MoveOutcome::Continued))
                        },
                        PositionStatus::Checkmate => {
                            let next = ChessGame::Finished {
                                white: white.clone(),
                                black: black.clone(),
                                board_fen: new_fen,
                                outcome: GameState::Win(mover),
                            };
                            Ok((next, MoveOutcome::GameWon(mover)))
                        },
                        PositionStatus::Stalemate => {
                            let next = ChessGame::Finished {
                                white: white.clone(),
                                black: black.clone(),
                                board_fen: new_fen,
                                outcome: GameState::Draw,
                            };
                            Ok((next, MoveOutcome::GameDrawn))
                        },
                    }
                }
            },
            _ => Err(GameError::InvalidPhase),
        }
    }
}

} // verus!
