//! What holds of the game across its steps.

use vstd::prelude::*;

use crate::contract::{
    bank_send_view, beats, claim_timeout_outcome, completed_game, create_game_outcome,
    create_game_overflows, fee_of, join_game_outcome, pot, refused, reveal_outcome,
    reveal_panics, reveal_settlement, reveal_transfer_json, reveal_winner, timed_out, winner_messages, winner_of,
    winner_text, GameStepView,
};
use crate::error::{ContractError, StdFailure};
use crate::external::{cw20_transfer_from_json, decimal};
use crate::msg::ExecuteMsg;
use crate::state::{Config, Game, GameStatus};
use crate::store::{execute_panics, execute_store, status_successor, store_inv, Store};
use crate::types::{Env, MessageInfo, ResponseView};

verus! {

/// Rock beats scissors, paper beats rock, scissors beat paper; no choice
/// beats itself; of two different valid choices exactly one beats the other;
/// a choice outside the three beats nothing and loses to nothing.
pub proof fn beats_is_the_game_rule(a: u8, b: u8)
    ensures
        beats(0, 2) && beats(1, 0) && beats(2, 1),
        !beats(a, a),
        beats(a, b) ==> !beats(b, a),
        a < 3 && b < 3 && a != b ==> (beats(a, b) || beats(b, a)),
        a >= 3 || b >= 3 ==> !beats(a, b) && !beats(b, a),
{
}

/// The winner does not depend on which side a player is on: swapping the
/// choices and the players gives the same winner; equal choices are a draw.
pub proof fn winner_is_symmetric(a: u8, b: u8, creator: String, joiner: String)
    ensures
        winner_of(a, b, creator, joiner) == winner_of(b, a, joiner, creator),
        winner_of(a, a, creator, joiner) is None,
        a < 3 && b < 3 && a != b ==> winner_of(a, b, creator, joiner) is Some,
{
}

/// A created game is well formed.
pub proof fn created_game_is_wf(
    config: Config,
    game_counter: Result<u64, StdFailure>,
    env: Env,
    info: MessageInfo,
    bet_paxi: u128,
    bet_momo: u128,
    transfer_from: Result<Seq<u8>, StdFailure>,
)
    requires
        !create_game_overflows(config, game_counter, env, info, bet_paxi, bet_momo),
    ensures
        create_game_outcome(config, game_counter, env, info, bet_paxi, bet_momo, transfer_from) matches Ok(created)
            ==> created.game.wf() && created.game_id > game_counter->Ok_0,
{
}

/// Joining keeps a game well formed.
pub proof fn join_keeps_wf(
    game: Game,
    config: Result<Config, StdFailure>,
    env: Env,
    info: MessageInfo,
    game_id: u64,
    choice: u8,
    transfer_from: Result<Seq<u8>, StdFailure>,
)
    requires
        game.wf(),
    ensures
        join_game_outcome(game, config, env, info, game_id, choice, transfer_from).saved_game matches Some(g) ==> g.wf(),
{
}

/// Revealing keeps a game well formed.
pub proof fn reveal_keeps_wf(
    game: Game,
    config: Result<Config, StdFailure>,
    env: Env,
    info: MessageInfo,
    game_id: u64,
    choice: u8,
    transfer: Result<Seq<u8>, StdFailure>,
)
    requires
        game.wf(),
    ensures
        reveal_outcome(game, config, env, info, game_id, choice, transfer).saved_game matches Some(g) ==> g.wf(),
{
}

/// Claiming keeps a game well formed.
pub proof fn claim_keeps_wf(game: Game, info: MessageInfo, game_id: u64)
    requires
        game.wf(),
    ensures
        claim_timeout_outcome(game, info, game_id).saved_game matches Some(g) ==> g.wf(),
{
}

/// The house's share of a pot is at most the pot when the fee is at most
/// 100 percent.
pub proof fn fee_within_pot(pot: int, fee_percentage: u64)
    requires
        pot >= 0,
        fee_percentage <= 100,
    ensures
        0 <= fee_of(pot, fee_percentage) <= pot,
{
    assert(pot * fee_percentage <= pot * 100) by (nonlinear_arith)
        requires
            pot >= 0,
            fee_percentage <= 100,
    ;
    assert(0 <= pot * fee_percentage) by (nonlinear_arith)
        requires
            pot >= 0,
    ;
}

/// A well-formed game under a fee of at most 100 percent is always settled
/// without a panic.
pub proof fn reveal_of_wf_game_never_panics(game: Game, config: Result<Config, StdFailure>, env: Env, info: MessageInfo)
    requires
        game.wf(),
        config matches Ok(c) ==> c.fee_percentage <= 100,
    ensures
        !reveal_panics(game, config, env, info),
{
    if let Ok(c) = config {
        fee_within_pot(pot(game.bet_paxi), c.fee_percentage);
        fee_within_pot(pot(game.bet_momo), c.fee_percentage);
    }
}

/// Under a fee of at most 100 percent, settling a game whose pots fit
/// succeeds (short of the token transfer failing to serialise): the game is
/// completed with its winner; the winner is paid each pot less the house's
/// share, and on a draw each player gets the native bet back.
pub proof fn settlement_pays_pot_less_fee(
    game: Game,
    config: Config,
    game_id: u64,
    choice: u8,
    transfer: Result<Seq<u8>, StdFailure>,
)
    requires
        game.joiner is Some,
        config.fee_percentage <= 100,
        pot(game.bet_paxi) <= u128::MAX,
        pot(game.bet_momo) <= u128::MAX,
    ensures
        ({
            let outcome = reveal_settlement(game, config, game_id, choice, transfer);
            let winner = reveal_winner(game, choice);
            let fee_paxi = fee_of(pot(game.bet_paxi), config.fee_percentage);
            let fee_momo = fee_of(pot(game.bet_momo), config.fee_percentage);
            let attributes = seq![("action"@, "reveal"@), ("game_id"@, decimal(game_id as nat)), ("winner"@, winner_text(winner))];
            &&& outcome.saved_game == Some(completed_game(game, choice, winner))
            &&& 0 <= fee_paxi <= pot(game.bet_paxi)
            &&& 0 <= fee_momo <= pot(game.bet_momo)
            &&& winner is None ==> outcome.result == Ok::<ResponseView, ContractError>(ResponseView {
                messages: seq![bank_send_view(game.creator@, game.bet_paxi), bank_send_view((game.joiner->0)@, game.bet_paxi)],
                attributes: attributes,
            })
            &&& winner is Some && transfer is Ok ==> outcome.result == Ok::<ResponseView, ContractError>(ResponseView {
                messages: winner_messages(
                    (winner->0)@,
                    (pot(game.bet_paxi) - fee_paxi) as u128,
                    (pot(game.bet_momo) - fee_momo) as u128,
                    config.momo_token@,
                    transfer->Ok_0,
                ),
                attributes: attributes,
            })
        }),
{
    fee_within_pot(pot(game.bet_paxi), config.fee_percentage);
    fee_within_pot(pot(game.bet_momo), config.fee_percentage);
}

/// A completed game is final: joining, revealing or claiming it is refused
/// as not available, and nothing is stored.
pub proof fn completed_game_is_final(
    game: Game,
    config: Result<Config, StdFailure>,
    env: Env,
    info: MessageInfo,
    game_id: u64,
    choice: u8,
    transfer: Result<Seq<u8>, StdFailure>,
)
    requires
        game.status == GameStatus::Completed,
    ensures
        join_game_outcome(game, config, env, info, game_id, choice, transfer) == refused(ContractError::GameNotAvailable {}),
        reveal_outcome(game, config, env, info, game_id, choice, transfer) == refused(ContractError::GameNotAvailable {}),
        claim_timeout_outcome(game, info, game_id) == refused(ContractError::GameNotAvailable {}),
{
}

/// Once its deadline has passed, an open game can no longer be played: a
/// join or a reveal stores it as timed out and fails, and a timed-out game's
/// creator can take the native bet back, which completes it. The timeout is
/// written together with an error, which the chain rolls back; so on the
/// chain a game never stays timed out and the claim is never reached.
pub proof fn expired_game_returns_to_creator(
    game: Game,
    config: Result<Config, StdFailure>,
    env: Env,
    info: MessageInfo,
    creator_info: MessageInfo,
    game_id: u64,
    choice: u8,
    transfer: Result<Seq<u8>, StdFailure>,
)
    requires
        env.block_time > game.timeout_at,
        creator_info.sender@ == game.creator@,
    ensures
        game.status == GameStatus::Waiting ==> join_game_outcome(game, config, env, info, game_id, choice, transfer) == (GameStepView {
            saved_game: Some(timed_out(game)),
            result: Err(ContractError::GameTimeout {}),
        }),
        game.status == GameStatus::Joined ==> reveal_outcome(game, config, env, info, game_id, choice, transfer) == (GameStepView {
            saved_game: Some(timed_out(game)),
            result: Err(ContractError::GameTimeout {}),
        }),
        claim_timeout_outcome(timed_out(game), creator_info, game_id) == (GameStepView {
            saved_game: Some(Game { status: GameStatus::Completed, ..game }),
            result: Ok(ResponseView {
                messages: seq![bank_send_view(game.creator@, game.bet_paxi)],
                attributes: seq![("action"@, "claim_timeout"@), ("game_id"@, decimal(game_id as nat))],
            }),
        }),
{
}

/// Only the creator settles or claims a game, and the creator cannot join
/// it: whoever else tries is refused and nothing is stored.
pub proof fn only_the_creator_settles(
    game: Game,
    config: Result<Config, StdFailure>,
    env: Env,
    info: MessageInfo,
    game_id: u64,
    choice: u8,
    transfer: Result<Seq<u8>, StdFailure>,
)
    requires
        env.block_time <= game.timeout_at,
    ensures
        game.status == GameStatus::Joined && info.sender@ != game.creator@
            ==> reveal_outcome(game, config, env, info, game_id, choice, transfer) == refused(ContractError::Unauthorized {}),
        game.status == GameStatus::Timeout && info.sender@ != game.creator@
            ==> claim_timeout_outcome(game, info, game_id) == refused(ContractError::Unauthorized {}),
        game.status == GameStatus::Waiting && info.sender@ == game.creator@
            ==> join_game_outcome(game, config, env, info, game_id, choice, transfer) == refused(ContractError::CannotJoinOwnGame {}),
{
}

/// A step on a game moves its status only forward.
pub proof fn steps_move_status_forward(
    game: Game,
    config: Result<Config, StdFailure>,
    env: Env,
    info: MessageInfo,
    game_id: u64,
    choice: u8,
    transfer: Result<Seq<u8>, StdFailure>,
)
    ensures
        join_game_outcome(game, config, env, info, game_id, choice, transfer).saved_game matches Some(g)
            ==> status_successor(game.status, g.status),
        reveal_outcome(game, config, env, info, game_id, choice, transfer).saved_game matches Some(g)
            ==> status_successor(game.status, g.status),
        claim_timeout_outcome(game, info, game_id).saved_game matches Some(g)
            ==> status_successor(game.status, g.status),
{
}

/// Whether executing `msg` creates a game.
pub open spec fn creates_game(store: Store, env: Env, info: MessageInfo, msg: ExecuteMsg) -> bool {
    msg matches ExecuteMsg::CreateGame { bet_paxi, bet_momo } && create_game_outcome(
        store.config,
        Ok(store.game_counter),
        env,
        info,
        bet_paxi,
        bet_momo,
        Ok(cw20_transfer_from_json(info.sender@, env.contract_address@, bet_momo)),
    ) is Ok
}

/// Executing any message keeps every stored game well formed, with its id
/// between 1 and the game counter.
pub proof fn execute_keeps_store_invariant(store: Store, env: Env, info: MessageInfo, msg: ExecuteMsg)
    requires
        store_inv(store),
        !execute_panics(store, env, info, msg),
    ensures
        store_inv(execute_store(store, env, info, msg)),
{
    let after = execute_store(store, env, info, msg);
    match msg {
        ExecuteMsg::CreateGame { bet_paxi, bet_momo } => {
            let t = Ok(cw20_transfer_from_json(info.sender@, env.contract_address@, bet_momo));
            created_game_is_wf(store.config, Ok(store.game_counter), env, info, bet_paxi, bet_momo, t);
            assert forall|k: u64| #[trigger] after.games.contains_key(k) implies 1 <= k <= after.game_counter
                && after.games[k].wf() by {
                if store.games.contains_key(k) {
                    assert(store.games[k].wf());
                }
            }
        },
        ExecuteMsg::JoinGame { game_id, choice } => {
            if store.games.contains_key(game_id) {
                let game = store.games[game_id];
                join_keeps_wf(game, Ok(store.config), env, info, game_id, choice,
                    Ok(cw20_transfer_from_json(info.sender@, env.contract_address@, game.bet_momo)));
            }
            assert forall|k: u64| #[trigger] after.games.contains_key(k) implies 1 <= k <= after.game_counter
                && after.games[k].wf() by {
                assert(store.games.contains_key(k));
            }
        },
        ExecuteMsg::Reveal { game_id, choice, salt: _ } => {
            if store.games.contains_key(game_id) {
                let game = store.games[game_id];
                reveal_keeps_wf(game, Ok(store.config), env, info, game_id, choice,
                    Ok(reveal_transfer_json(game, Ok(store.config), choice)));
            }
            assert forall|k: u64| #[trigger] after.games.contains_key(k) implies 1 <= k <= after.game_counter
                && after.games[k].wf() by {
                assert(store.games.contains_key(k));
            }
        },
        ExecuteMsg::ClaimTimeout { game_id } => {
            if store.games.contains_key(game_id) {
                claim_keeps_wf(store.games[game_id], info, game_id);
            }
            assert forall|k: u64| #[trigger] after.games.contains_key(k) implies 1 <= k <= after.game_counter
                && after.games[k].wf() by {
                assert(store.games.contains_key(k));
            }
        },
        ExecuteMsg::UpdateConfig { .. } => {},
    }
}

/// Executing any message keeps every stored game stored and moves its status
/// only forward (waiting to joined or timed out, joined to completed or timed
/// out, timed out to completed); a completed game never changes again.
pub proof fn execute_moves_games_forward(store: Store, env: Env, info: MessageInfo, msg: ExecuteMsg, id: u64)
    requires
        store_inv(store),
        !execute_panics(store, env, info, msg),
        store.games.contains_key(id),
    ensures
        ({
            let after = execute_store(store, env, info, msg);
            &&& after.games.contains_key(id)
            &&& status_successor(store.games[id].status, after.games[id].status)
            &&& store.games[id].status == GameStatus::Completed ==> after.games[id] == store.games[id]
        }),
{
    let game = store.games[id];
    assert(1 <= id <= store.game_counter);
    match msg {
        ExecuteMsg::CreateGame { .. } => {},
        ExecuteMsg::JoinGame { game_id, choice } => {
            if game_id == id {
                let t = Ok(cw20_transfer_from_json(info.sender@, env.contract_address@, game.bet_momo));
                steps_move_status_forward(game, Ok(store.config), env, info, game_id, choice, t);
                if game.status == GameStatus::Completed {
                    completed_game_is_final(game, Ok(store.config), env, info, game_id, choice, t);
                }
            }
        },
        ExecuteMsg::Reveal { game_id, choice, salt: _ } => {
            if game_id == id {
                let t = Ok(reveal_transfer_json(game, Ok(store.config), choice));
                steps_move_status_forward(game, Ok(store.config), env, info, game_id, choice, t);
                if game.status == GameStatus::Completed {
                    completed_game_is_final(game, Ok(store.config), env, info, game_id, choice, t);
                }
            }
        },
        ExecuteMsg::ClaimTimeout { game_id } => {
            if game_id == id {
                let t = Ok(Seq::<u8>::empty());
                steps_move_status_forward(game, Ok(store.config), env, info, game_id, 0, t);
                if game.status == GameStatus::Completed {
                    completed_game_is_final(game, Ok(store.config), env, info, game_id, 0, t);
                }
            }
        },
        ExecuteMsg::UpdateConfig { .. } => {},
    }
}

/// The game counter moves by exactly one when a game is created and stays
/// otherwise; a created game takes a fresh id, waits for a joiner, and every
/// game stored before stays as it was.
pub proof fn execute_advances_counter(store: Store, env: Env, info: MessageInfo, msg: ExecuteMsg)
    requires
        store_inv(store),
        !execute_panics(store, env, info, msg),
    ensures
        ({
            let after = execute_store(store, env, info, msg);
            &&& creates_game(store, env, info, msg) ==> {
                &&& after.game_counter == store.game_counter + 1
                &&& !store.games.contains_key(after.game_counter)
                &&& after.games.contains_key(after.game_counter)
                &&& after.games[after.game_counter].status == GameStatus::Waiting
                &&& forall|k: u64| #[trigger] store.games.contains_key(k)
                    ==> after.games.contains_key(k) && after.games[k] == store.games[k]
            }
            &&& !creates_game(store, env, info, msg) ==> after.game_counter == store.game_counter
            &&& after.game_counter >= store.game_counter
        }),
{
    if creates_game(store, env, info, msg) {
        let after = execute_store(store, env, info, msg);
        if store.games.contains_key(after.game_counter) {
            assert(after.game_counter <= store.game_counter);
        }
    }
}

} // verus!
