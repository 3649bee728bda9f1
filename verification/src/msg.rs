//! The messages the contract takes and the answers to its queries.

use vstd::prelude::*;

verus! {

/// Sets the contract up.
#[derive(Clone, Debug, PartialEq)]
pub struct InstantiateMsg {
    /// The address of the token contract that the second bet is paid in.
    pub momo_token: String,
    /// The house's share of each pot, in percent.
    pub fee_percentage: u64,
    /// The smallest native bet.
    pub min_bet_paxi: u128,
    /// The smallest token bet.
    pub min_bet_momo: u128,
}

/// The steps the contract offers.
#[derive(Clone, Debug, PartialEq)]
pub enum ExecuteMsg {
    CreateGame { bet_paxi: u128, bet_momo: u128 },
    /// Choices are 0 (rock), 1 (paper) and 2 (scissors).
    JoinGame { game_id: u64, choice: u8 },
    Reveal { game_id: u64, choice: u8, salt: String },
    ClaimTimeout { game_id: u64 },
    UpdateConfig { fee_percentage: Option<u64>, min_bet_paxi: Option<u128>, min_bet_momo: Option<u128> },
}

/// The queries the contract answers.
#[derive(Clone, Copy, Debug, PartialEq, Eq, Structural)]
pub enum QueryMsg {
    GetGame { game_id: u64 },
    GetConfig {},
    GetGames { limit: Option<u32>, start_after: Option<u64> },
}

/// Where a game stands, as queries report it.
#[derive(Clone, Copy, Debug, PartialEq, Eq, Structural)]
pub enum GameStatus {
    Waiting,
    Joined,
    Completed,
    Timeout,
}

/// A game as queries report it.
#[derive(Clone, Debug, PartialEq)]
pub struct GameInfo {
    pub game_id: u64,
    pub creator: String,
    pub joiner: Option<String>,
    pub bet_paxi: u128,
    pub bet_momo: u128,
    pub status: GameStatus,
    pub created_at: u64,
    pub timeout_at: u64,
    pub winner: Option<String>,
}

/// The configuration as queries report it.
#[derive(Clone, Debug, PartialEq)]
pub struct Config {
    pub admin: String,
    pub momo_token: String,
    pub fee_percentage: u64,
    pub min_bet_paxi: u128,
    pub min_bet_momo: u128,
}

} // verus!
