//! The laws the session machinery obeys, stated over the store and session
//! models and proved once and for all.  They are what a caller may rely on
//! beyond the operation contracts themselves: phases only ever move
//! forward, every rejection is deterministic and leaves the store
//! untouched, and a race of two joins on one session admits one winner.

use vstd::prelude::*;

use crate::contract::{create_step, join_step, move_step};
use crate::rules::start_fen;
use crate::session::{join_result, move_result, GameError, GameView, MoveOutcome};

verus! {

/// Where a phase stands in the lifecycle: `Pending`, then `Active`, then
/// `Finished`.
pub open spec fn phase_rank(g: GameView) -> int {
    match g {
        GameView::Pending { .. } => 0,
        GameView::Active { .. } => 1,
        GameView::Finished { .. } => 2,
    }
}

/// One step of a session's history: the phase never regresses and never
/// jumps over a stage, so every history is a subsequence of
/// `Pending, Active, Finished`.
pub open spec fn phase_forward(before: GameView, after: GameView) -> bool {
    phase_rank(before) <= phase_rank(after) <= phase_rank(before) + 1
}

/// `create_game` never touches an existing session, and the session it
/// appends begins at `Pending`.
pub proof fn lemma_create_step_phases(games: Seq<GameView>, challenger: Seq<char>)
    ensures
        create_step(games, challenger).0.len() == games.len() + 1,
        forall|i: int|
            0 <= i < games.len() ==> create_step(games, challenger).0[i] == games[i],
        create_step(games, challenger).0[games.len() as int] is Pending,
{
}

/// `accept_challenge` moves the phase of every stored session forward:
/// it changes at most the named session, and only from `Pending` to
/// `Active`.
pub proof fn lemma_join_step_phases(games: Seq<GameView>, board: u64, joiner: Seq<char>)
    ensures
        join_step(games, board, joiner).0.len() == games.len(),
        forall|i: int|
            0 <= i < games.len() ==> phase_forward(
                games[i],
                #[trigger] join_step(games, board, joiner).0[i],
            ),
{
    let after = join_step(games, board, joiner).0;
    assert forall|i: int| 0 <= i < games.len() implies phase_forward(
        games[i],
        #[trigger] after[i],
    ) by {
        if board < games.len() && i == board as int {
            match join_result(games[i], joiner) {
                Ok(v) => {
                    assert(games[i] is Pending && v is Active);
                },
                Err(_) => {},
            }
        }
    }
}

/// `make_move` moves the phase of every stored session forward: it changes
/// at most the named session, and only from `Active` to `Active` or to
/// `Finished`.
pub proof fn lemma_move_step_phases(games: Seq<GameView>, board: u64, p: Seq<char>, m: Seq<char>)
    ensures
        move_step(games, board, p, m).0.len() == games.len(),
        forall|i: int|
            0 <= i < games.len() ==> phase_forward(
                games[i],
                #[trigger] move_step(games, board, p, m).0[i],
            ),
{
    let after = move_step(games, board, p, m).0;
    assert forall|i: int| 0 <= i < games.len() implies phase_forward(
        games[i],
        #[trigger] after[i],
    ) by {
        if board < games.len() && i == board as int {
            match move_result(games[i], p, m) {
                Ok(v) => {
                    assert(games[i] is Active && (v.0 is Active || v.0 is Finished));
                },
                Err(_) => {},
            }
        }
    }
}

/// Joining a session that is not `Pending` fails with `InvalidPhase`,
/// whoever asks.
pub proof fn lemma_join_non_pending(g: GameView, joiner: Seq<char>)
    requires
        !(g is Pending),
    ensures
        join_result(g, joiner) == Err::<GameView, GameError>(GameError::InvalidPhase),
{
}

/// Joining one's own challenge fails with `SelfChallenge`.
pub proof fn lemma_join_self_challenge(g: GameView, joiner: Seq<char>)
    requires
        g matches GameView::Pending { challenger } && joiner == challenger,
    ensures
        join_result(g, joiner) == Err::<GameView, GameError>(GameError::SelfChallenge),
{
}

/// A successful join yields an `Active` session in which the challenger
/// plays White, the joiner plays Black, the position is the canonical
/// starting position, and White (the challenger) is to move.
pub proof fn lemma_join_success_shape(g: GameView, joiner: Seq<char>)
    requires
        join_result(g, joiner) is Ok,
    ensures
        g is Pending,
        join_result(g, joiner)->Ok_0 == (GameView::Active {
            white: g->Pending_challenger,
            black: joiner,
            board_fen: start_fen(),
            white_to_move: true,
        }),
{
}

/// Submitting a move to a `Pending` or `Finished` session fails with
/// `InvalidPhase`, whoever asks and whatever the token.
pub proof fn lemma_move_wrong_phase(g: GameView, p: Seq<char>, m: Seq<char>)
    requires
        g is Pending || g is Finished,
    ensures
        move_result(g, p, m) == Err::<(GameView, MoveOutcome), GameError>(
            GameError::InvalidPhase,
        ),
{
}

/// Submitting a move as a principal that is neither side of an `Active`
/// session fails with `NotAParticipant`.
pub proof fn lemma_move_not_participant(g: GameView, p: Seq<char>, m: Seq<char>)
    requires
        g is Active,
        p != g->Active_white,
        p != g->Active_black,
    ensures
        move_result(g, p, m) == Err::<(GameView, MoveOutcome), GameError>(
            GameError::NotAParticipant,
        ),
{
}

/// Submitting a move as the participant whose turn it is not fails with
/// `NotYourTurn`.
pub proof fn lemma_move_wrong_turn(g: GameView, p: Seq<char>, m: Seq<char>)
    requires
        g is Active,
        p == g->Active_white || p == g->Active_black,
        g->Active_white_to_move ==> p != g->Active_white,
        !g->Active_white_to_move ==> p != g->Active_black,
    ensures
        move_result(g, p, m) == Err::<(GameView, MoveOutcome), GameError>(
            GameError::NotYourTurn,
        ),
{
}

/// A rejected move leaves the store exactly as it was, so the same call
/// retried meets the same store and produces the identical rejection.
pub proof fn lemma_rejected_move_idempotent(
    games: Seq<GameView>,
    board: u64,
    p: Seq<char>,
    m: Seq<char>,
)
    requires
        move_step(games, board, p, m).1 is Err,
    ensures
        move_step(games, board, p, m).0 == games,
        move_step(move_step(games, board, p, m).0, board, p, m) == move_step(games, board, p, m),
{
}

/// A rejected join likewise changes nothing and rejects identically when
/// retried.
pub proof fn lemma_rejected_join_idempotent(games: Seq<GameView>, board: u64, joiner: Seq<char>)
    requires
        join_step(games, board, joiner).1 is Err,
    ensures
        join_step(games, board, joiner).0 == games,
        join_step(join_step(games, board, joiner).0, board, joiner) == join_step(
            games,
            board,
            joiner,
        ),
{
}

/// Two joins racing on one `Pending` session, serialized in either order:
/// after one succeeds, the other observes `InvalidPhase` — exactly one
/// winner.
pub proof fn lemma_join_race(games: Seq<GameView>, board: u64, p1: Seq<char>, p2: Seq<char>)
    requires
        join_step(games, board, p1).1 is Ok,
    ensures
        join_step(join_step(games, board, p1).0, board, p2).1 == Err::<(), GameError>(
            GameError::InvalidPhase,
        ),
{
}

} // verus!
