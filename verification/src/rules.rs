//! The boundary to the rules engine: the `chess` crate decides what a move
//! token means, whether a move is legal, what position a move produces, and
//! whether a position ends the game.  The session core treats all of that as
//! a black box over the textual (FEN) form of a position; the functions named
//! here are the whole surface it relies on.

use vstd::prelude::*;

verus! {

/// What the rules engine reports of a position: play goes on, the side to
/// move is checkmated, or the side to move has no legal move without being
/// in check.
#[derive(Clone, Copy, PartialEq, Eq, Structural, Debug)]
pub enum PositionStatus {
    Ongoing,
    Checkmate,
    Stalemate,
}

/// Whether the rules engine accepts `s` as the text of a board position
/// (`chess::Board::from_str` returns `Ok` on it).
pub uninterp spec fn fen_ok(s: Seq<char>) -> bool;

/// Whether the rules engine accepts `s` as a move token
/// (`chess::ChessMove::from_str` returns `Ok` on it).
pub uninterp spec fn move_token_ok(s: Seq<char>) -> bool;

/// Whether the move written `m` is legal in the position written `fen`:
/// what `chess::Board::legal` answers there.
pub uninterp spec fn move_legal(fen: Seq<char>, m: Seq<char>) -> bool;

/// The text of the position reached by playing `m` in the position written
/// `fen`: what `chess::Board::make_move_new` produces, written back out.
pub uninterp spec fn position_after(fen: Seq<char>, m: Seq<char>) -> Seq<char>;

/// What `chess::Board::status` reports for the position written `fen`.
pub uninterp spec fn position_status(fen: Seq<char>) -> PositionStatus;

/// The canonical starting position.
pub open spec fn start_fen() -> Seq<char> {
    "rnbqkbnr/pppppppp/8/8/8/8/PPPPPPPP/RNBQKBNR w KQkq - 0 1"@
}

/// Relies on `chess::Board`: the default board is the standard starting
/// position, its `Display` form is the canonical FEN above (the crate prints
/// the two move counters as `0 1` unconditionally), and that text parses
/// back with `chess::Board::from_str`.
#[verifier::external_body]
pub(crate) fn starting_position() -> (r: String)
    ensures
        r@ == start_fen(),
        fen_ok(r@),
{
    chess::Board::default().to_string()
}

/// Relies on `chess::ChessMove::from_str`: whether a move token parses
/// depends on the token alone.
#[verifier::external_body]
pub(crate) fn move_token_parses(m: &str) -> (r: bool)
    ensures
        r == move_token_ok(m@),
{
    m.parse::<chess::ChessMove>().is_ok()
}

/// Relies on `chess::Board::legal`, on the position parsed with
/// `chess::Board::from_str` and the move parsed with
/// `chess::ChessMove::from_str`: the answer depends on the two texts alone.
#[verifier::external_body]
pub(crate) fn check_move_legal(fen: &str, m: &str) -> (r: bool)
    requires
        fen_ok(fen@),
        move_token_ok(m@),
    ensures
        r == move_legal(fen@, m@),
{
    let board: chess::Board = fen.parse().unwrap();
    let mv: chess::ChessMove = m.parse().unwrap();
    board.legal(mv)
}

/// Relies on `chess::Board::make_move_new` on a parsed position and move
/// (the crate asks that the move be legal there), and on `chess::Board`'s
/// `Display` form parsing back with `chess::Board::from_str`.
#[verifier::external_body]
pub(crate) fn apply_move(fen: &str, m: &str) -> (r: String)
    requires
        fen_ok(fen@),
        move_token_ok(m@),
        move_legal(fen@, m@),
    ensures
        r@ == position_after(fen@, m@),
        fen_ok(r@),
{
    let board: chess::Board = fen.parse().unwrap();
    let mv: chess::ChessMove = m.parse().unwrap();
    board.make_move_new(mv).to_string()
}

/// Relies on `chess::Board::status` on a parsed position; its three variants
/// are carried over one for one.
#[verifier::external_body]
pub(crate) fn query_status(fen: &str) -> (r: PositionStatus)
    requires
        fen_ok(fen@),
    ensures
        r == position_status(fen@),
{
    let board: chess::Board = fen.parse().unwrap();
    match board.status() {
        chess::BoardStatus::Ongoing => PositionStatus::Ongoing,
        chess::BoardStatus::Checkmate => PositionStatus::Checkmate,
        chess::BoardStatus::Stalemate => PositionStatus::Stalemate,
    }
}

} // verus!
