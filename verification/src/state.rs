use vstd::prelude::*;

verus! {

/// Where a game stands.
#[derive(Clone, Copy, Debug, PartialEq, Eq, Structural)]
pub enum GameStatus {
    Waiting,
    Joined,
    Completed,
    Timeout,
}

/// The contract's configuration, as stored.
#[derive(Clone, Debug, PartialEq)]
pub struct Config {
    pub admin: String,
    pub momo_token: String,
    pub fee_percentage: u64,
    pub min_bet_paxi: u128,
    pub min_bet_momo: u128,
}

/// One game, as stored under its id.
#[derive(Clone, Debug, PartialEq)]
pub struct Game {
    pub creator: String,
    pub joiner: Option<String>,
    pub bet_paxi: u128,
    pub bet_momo: u128,
    pub creator_choice: Option<u8>,
    pub joiner_choice: Option<u8>,
    pub status: GameStatus,
    pub created_at: u64,
    pub timeout_at: u64,
    pub winner: Option<String>,
}

/// How long a game stays open, in seconds.
pub const GAME_TIMEOUT_SECONDS: u64 = 3600;

impl Game {
    /// The shape every game that the contract stores has: who has played is
    /// determined by the status, the joiner is never the creator, only a
    /// completed game has a winner and that winner is one of the players, and
    /// the deadline is one timeout after creation.
    pub open spec fn wf(self) -> bool {
        &&& self.timeout_at == self.created_at + GAME_TIMEOUT_SECONDS
        &&& self.joiner matches Some(j) ==> j@ != self.creator@
        &&& self.winner matches Some(w) ==> self.status == GameStatus::Completed && (w == self.creator || self.winner == self.joiner)
        &&& match self.status {
            GameStatus::Waiting => {
                &&& self.joiner is None
                &&& self.joiner_choice is None
                &&& self.creator_choice is None
            },
            GameStatus::Joined => {
                &&& self.joiner is Some
                &&& self.joiner_choice is Some
                &&& self.creator_choice is None
            },
            GameStatus::Timeout => {
                &&& self.joiner is Some <==> self.joiner_choice is Some
                &&& self.creator_choice is None
            },
            GameStatus::Completed => {
                &&& self.joiner is Some <==> self.joiner_choice is Some
            },
        }
    }
}

} // verus!
