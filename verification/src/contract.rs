//! The externally visible surface: a store of sessions keyed by a
//! monotonically issued `u64` identifier, and the four operations a
//! transport layer calls.
//!
//! Identifiers are issued densely, starting at 0 and growing by one per
//! created session, so the store is a vector indexed by identifier.  Each
//! call is one atomic read-modify-write of a single session: its whole
//! effect is stated by the step functions below over the model of the
//! store, a sequence of session models.

use vstd::prelude::*;

use crate::session::{
    begin_view, join_result, move_result, ChessGame, GameError, GameView, MoveOutcome,
};

verus! {

/// The store of sessions and the identifier counter.  The next identifier
/// is the number of sessions stored: it starts at 0, grows by one per
/// `create_game` call, and is never reused.
pub struct ChessContract {
    games: Vec<ChessGame>,
}

impl View for ChessContract {
    type V = Seq<GameView>;

    closed spec fn view(&self) -> Seq<GameView> {
        self.games@.map_values(|g: ChessGame| g@)
    }
}

impl ChessContract {
    /// Every stored session is well-formed.
    #[verifier::type_invariant]
    spec fn inv(self) -> bool {
        forall|i: int| 0 <= i < self.games@.len() ==> (#[trigger] self.games@[i]).wf()
    }
}

impl Default for ChessContract {
    /// An empty store: no sessions, the first identifier will be 0.
    fn default() -> (r: Self)
        ensures
            r@ == Seq::<GameView>::empty(),
    {
        let r = ChessContract { games: Vec::new() };
        proof {
            assert(r@ =~= Seq::<GameView>::empty());
        }
        r
    }
}

/// The effect of `create_game` on the store model: a fresh `Pending`
/// session is appended, and its index is the returned identifier.
pub open spec fn create_step(games: Seq<GameView>, challenger: Seq<char>) -> (Seq<GameView>, u64) {
    (games.push(begin_view(challenger)), games.len() as u64)
}

/// The effect of `accept_challenge` on the store model: an unknown
/// identifier is rejected; otherwise the named session is joined as
/// [`join_result`] says, and the store changes exactly on success.
pub open spec fn join_step(games: Seq<GameView>, board: u64, joiner: Seq<char>) -> (
    Seq<GameView>,
    Result<(), GameError>,
) {
    if board >= games.len() {
        (games, Err(GameError::NoSuchSession))
    } else {
        match join_result(games[board as int], joiner) {
            Ok(v) => (games.update(board as int, v), Ok(())),
            Err(e) => (games, Err(e)),
        }
    }
}

/// The effect of `make_move` on the store model: an unknown identifier is
/// rejected; otherwise the named session takes the move as [`move_result`]
/// says, and the store changes exactly on success.
pub open spec fn move_step(
    games: Seq<GameView>,
    board: u64,
    requester: Seq<char>,
    m: Seq<char>,
) -> (Seq<GameView>, Result<MoveOutcome, GameError>) {
    if board >= games.len() {
        (games, Err(GameError::NoSuchSession))
    } else {
        match move_result(games[board as int], requester, m) {
            Ok((v, oc)) => (games.update(board as int, v), Ok(oc)),
            Err(e) => (games, Err(e)),
        }
    }
}

impl ChessContract {
    /// Creates a session with the given principal as the challenger and
    /// returns its identifier.  Visible to every caller through
    /// `get_board_state`.  The one bound is the identifier space itself:
    /// the counter must not exhaust `u64`.
    pub fn create_game(&mut self, challenger: String) -> (id: u64)
        requires
            old(self)@.len() < u64::MAX,
        ensures
            (final(self)@, id) == create_step(old(self)@, challenger@),
    {
        proof {
            use_type_invariant(&*self);
        }
        let id = self.games.len() as u64;
        // The store's invariant is re-checked at every write to the field,
        // so the update is staged in a local and written back whole.
        let mut games: Vec<ChessGame> = Vec::new();
        std::mem::swap(&mut games, &mut self.games);
        games.push(ChessGame::begin(challenger));
        self.games = games;
        proof {
            assert(self@ =~= create_step(old(self)@, challenger@).0);
        }
        id
    }

    /// Retrieves the session stored under `board`, if any.  Visibility is
    /// public: any caller may look any session up, participant or not, as
    /// no session holds private information.
    pub fn get_board_state(&self, board: u64) -> (r: Option<ChessGame>)
        ensures
            match r {
                Some(g) => board < self@.len() && g@ == self@[board as int],
                None => board >= self@.len(),
            },
    {
        if board < self.games.len() as u64 {
            let g = &self.games[board as usize];
            Some(g.clone())
        } else {
            None
        }
    }

    /// Joins the session stored under `board` as `joiner`: the challenger
    /// becomes White, the joiner Black, and White is to move from the
    /// canonical starting position.  Fails, changing nothing, on an unknown
    /// identifier, a session past `Pending`, or a joiner equal to the
    /// challenger.
    pub fn accept_challenge(&mut self, board: u64, joiner: String) -> (r: Result<(), GameError>)
        ensures
            (final(self)@, r) == join_step(old(self)@, board, joiner@),
    {
        if board >= self.games.len() as u64 {
            Err(GameError::NoSuchSession)
        } else {
            let idx = board as usize;
            let joined = self.games[idx].join(joiner);
            match joined {
                Ok(g) => {
                    proof {
                        use_type_invariant(&*self);
                    }
                    let mut games: Vec<ChessGame> = Vec::new();
                    std::mem::swap(&mut games, &mut self.games);
                    games[idx] = g;
                    self.games = games;
                    proof {
                        assert(self@ =~= join_step(old(self)@, board, joiner@).0);
                    }
                    Ok(())
                },
                Err(e) => Err(e),
            }
        }
    }

    /// Submits the move written `m` to the session stored under `board` on
    /// behalf of `requester`.  On success the stored session advances as
    /// the rules engine dictates; every rejection names its reason and
    /// leaves the store unchanged.
    pub fn make_move(&mut self, board: u64, requester: String, m: String) -> (r: Result<
        MoveOutcome,
        GameError,
    >)
        ensures
            (final(self)@, r) == move_step(old(self)@, board, requester@, m@),
    {
        if board >= self.games.len() as u64 {
            Err(GameError::NoSuchSession)
        } else {
            let idx = board as usize;
            proof {
                use_type_invariant(&*self);
            }
            let moved = self.games[idx].submit_move(&requester, &m);
            match moved {
                Ok((g, oc)) => {
                    let mut games: Vec<ChessGame> = Vec::new();
                    std::mem::swap(&mut games, &mut self.games);
                    games[idx] = g;
                    self.games = games;
                    proof {
                        assert(self@ =~= move_step(old(self)@, board, requester@, m@).0);
                    }
                    Ok(oc)
                },
                Err(e) => Err(e),
            }
        }
    }
}

} // verus!
