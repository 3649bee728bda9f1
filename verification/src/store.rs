//! What the contract's storage holds, and what one executed message leaves
//! in it: the steps of `contract`, dispatched as the entry point does, with
//! each step's writes applied (including a write that comes before an error,
//! which the chain itself rolls back with the failed transaction).

use vstd::prelude::*;

use crate::contract::{
    claim_timeout_outcome, create_game_outcome, create_game_overflows, fee_rejected,
    join_game_outcome, reveal_outcome, reveal_panics, reveal_transfer_json, updated_config,
    GameStepView,
};
use crate::external::cw20_transfer_from_json;
use crate::msg::ExecuteMsg;
use crate::state::{Config, Game, GameStatus};
use crate::types::{Env, MessageInfo};

verus! {

/// The storage of an instantiated contract: its configuration, the game
/// counter, and the games by id.
pub struct Store {
    pub config: Config,
    pub game_counter: u64,
    pub games: Map<u64, Game>,
}

/// The store after a step on game `game_id` wrote what it wrote.
pub open spec fn store_step(store: Store, game_id: u64, step: GameStepView) -> Store {
    match step.saved_game {
        Some(g) => Store { games: store.games.insert(game_id, g), ..store },
        None => store,
    }
}

/// The store after executing `msg`. A message about a game that is not
/// stored fails on reading it and changes nothing.
pub open spec fn execute_store(store: Store, env: Env, info: MessageInfo, msg: ExecuteMsg) -> Store {
    match msg {
        ExecuteMsg::CreateGame { bet_paxi, bet_momo } => match create_game_outcome(
            store.config,
            Ok(store.game_counter),
            env,
            info,
            bet_paxi,
            bet_momo,
            Ok(cw20_transfer_from_json(info.sender@, env.contract_address@, bet_momo)),
        ) {
            Ok(created) => Store {
                game_counter: created.game_id,
                games: store.games.insert(created.game_id, created.game),
                ..store
            },
            Err(_) => store,
        },
        ExecuteMsg::JoinGame { game_id, choice } => if store.games.contains_key(game_id) {
            let game = store.games[game_id];
            store_step(store, game_id, join_game_outcome(
                game,
                Ok(store.config),
                env,
                info,
                game_id,
                choice,
                Ok(cw20_transfer_from_json(info.sender@, env.contract_address@, game.bet_momo)),
            ))
        } else {
            store
        },
        ExecuteMsg::Reveal { game_id, choice, salt: _ } => if store.games.contains_key(game_id) {
            let game = store.games[game_id];
            store_step(store, game_id, reveal_outcome(
                game,
                Ok(store.config),
                env,
                info,
                game_id,
                choice,
                Ok(reveal_transfer_json(game, Ok(store.config), choice)),
            ))
        } else {
            store
        },
        ExecuteMsg::ClaimTimeout { game_id } => if store.games.contains_key(game_id) {
            store_step(store, game_id, claim_timeout_outcome(store.games[game_id], info, game_id))
        } else {
            store
        },
        ExecuteMsg::UpdateConfig { fee_percentage, min_bet_paxi, min_bet_momo } => {
            if info.sender@ == store.config.admin@ && !fee_rejected(fee_percentage) {
                Store { config: updated_config(store.config, fee_percentage, min_bet_paxi, min_bet_momo), ..store }
            } else {
                store
            }
        },
    }
}

/// The messages on which executing panics (and so is left out of the laws).
pub open spec fn execute_panics(store: Store, env: Env, info: MessageInfo, msg: ExecuteMsg) -> bool {
    match msg {
        ExecuteMsg::CreateGame { bet_paxi, bet_momo } => create_game_overflows(
            store.config,
            Ok(store.game_counter),
            env,
            info,
            bet_paxi,
            bet_momo,
        ),
        ExecuteMsg::Reveal { game_id, choice: _, salt: _ } => store.games.contains_key(game_id) && reveal_panics(
            store.games[game_id],
            Ok(store.config),
            env,
            info,
        ),
        _ => false,
    }
}

/// Every stored game is well formed and has an id between 1 and the counter.
pub open spec fn store_inv(store: Store) -> bool {
    forall|k: u64| #[trigger] store.games.contains_key(k) ==> 1 <= k <= store.game_counter && store.games[k].wf()
}

/// The moves a game's status can make in one step (staying is one of them).
pub open spec fn status_successor(from: GameStatus, to: GameStatus) -> bool {
    ||| from == to
    ||| from == GameStatus::Waiting && (to == GameStatus::Joined || to == GameStatus::Timeout)
    ||| from == GameStatus::Joined && (to == GameStatus::Completed || to == GameStatus::Timeout)
    ||| from == GameStatus::Timeout && to == GameStatus::Completed
}

} // verus!
