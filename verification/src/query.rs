//! The answers to queries, from what is stored.

use vstd::prelude::*;

use crate::msg::{self, GameInfo};
use crate::state::{self, Game};

verus! {

/// A stored status, as queries report it.
pub open spec fn status_info(status: state::GameStatus) -> msg::GameStatus {
    match status {
        state::GameStatus::Waiting => msg::GameStatus::Waiting,
        state::GameStatus::Joined => msg::GameStatus::Joined,
        state::GameStatus::Completed => msg::GameStatus::Completed,
        state::GameStatus::Timeout => msg::GameStatus::Timeout,
    }
}

/// A stored game, as queries report it.
pub open spec fn game_info(game_id: u64, game: Game) -> GameInfo {
    GameInfo {
        game_id: game_id,
        creator: game.creator,
        joiner: game.joiner,
        bet_paxi: game.bet_paxi,
        bet_momo: game.bet_momo,
        status: status_info(game.status),
        created_at: game.created_at,
        timeout_at: game.timeout_at,
        winner: game.winner,
    }
}

/// Reports a stored status.
pub fn report_status(status: state::GameStatus) -> (res: msg::GameStatus)
    ensures
        res == status_info(status),
{
    match status {
        state::GameStatus::Waiting => msg::GameStatus::Waiting,
        state::GameStatus::Joined => msg::GameStatus::Joined,
        state::GameStatus::Completed => msg::GameStatus::Completed,
        state::GameStatus::Timeout => msg::GameStatus::Timeout,
    }
}

/// A copy of an optional address.
pub fn copy_address(a: &Option<String>) -> (res: Option<String>)
    ensures
        res == *a,
{
    match a {
        Some(s) => Some(s.clone()),
        None => None,
    }
}

/// The answer to `GetGame`: the stored game under its id.
pub fn query_game(game_id: u64, game: &Game) -> (res: GameInfo)
    ensures
        res == game_info(game_id, *game),
{
    GameInfo {
        game_id,
        creator: game.creator.clone(),
        joiner: copy_address(&game.joiner),
        bet_paxi: game.bet_paxi,
        bet_momo: game.bet_momo,
        status: report_status(game.status),
        created_at: game.created_at,
        timeout_at: game.timeout_at,
        winner: copy_address(&game.winner),
    }
}

/// The answer to `GetConfig`: the stored configuration.
pub fn query_config(config: &state::Config) -> (res: msg::Config)
    ensures
        res == (msg::Config {
            admin: config.admin,
            momo_token: config.momo_token,
            fee_percentage: config.fee_percentage,
            min_bet_paxi: config.min_bet_paxi,
            min_bet_momo: config.min_bet_momo,
        }),
{
    msg::Config {
        admin: config.admin.clone(),
        momo_token: config.momo_token.clone(),
        fee_percentage: config.fee_percentage,
        min_bet_paxi: config.min_bet_paxi,
        min_bet_momo: config.min_bet_momo,
    }
}

/// The answer to `GetGames`: every stored game, in the order given (the
/// store hands them out by ascending id).
pub fn query_games(games: &Vec<(u64, Game)>) -> (res: Vec<GameInfo>)
    ensures
        res@ == games@.map_values(|entry: (u64, Game)| game_info(entry.0, entry.1)),
{
    let mut infos: Vec<GameInfo> = Vec::new();
    let mut i: usize = 0;
    while i < games.len()
        invariant
            i <= games.len(),
            infos@ == games@.take(i as int).map_values(|entry: (u64, Game)| game_info(entry.0, entry.1)),
        decreases games.len() - i,
    {
        let (id, ref game) = games[i];
        let info = query_game(id, game);
        infos.push(info);
        assert(games@.take(i + 1) =~= games@.take(i as int).push(games@[i as int]));
        i += 1;
        assert(infos@ =~= games@.take(i as int).map_values(|entry: (u64, Game)| game_info(entry.0, entry.1)));
    }
    assert(games@.take(i as int) =~= games@);
    infos
}

} // verus!
