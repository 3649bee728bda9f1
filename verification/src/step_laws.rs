//! What each step does, stated over its inputs and the plain values of its
//! results (coins, amounts, addresses, stored fields), each proved of the
//! step's outcome.

use vstd::prelude::*;

use crate::contract::{
    beats, claim_timeout_outcome, coin_amount, create_game_outcome, create_game_overflows,
    fee_rejected, join_game_outcome, reveal_outcome, reveal_transfer_json, update_config_response,
    updated_config, winner_of, GameStepView,
};
use crate::error::{ContractError, StdFailure};
use crate::external::{cw20_transfer_from_json, cw20_transfer_json, decimal, digit_char};
use crate::laws::fee_within_pot;
use crate::query::{game_info, status_info};
use crate::state::{Config, Game, GameStatus};
use crate::types::{Coin, CoinView, CosmosMsgView, Env, MessageInfo, ResponseView};

verus! {

/// The winner is the player whose choice beats the other's; with neither
/// beating the other, there is none.
pub proof fn winner_is_who_beats(a: u8, b: u8, creator: String, joiner: String)
    ensures
        beats(a, b) ==> winner_of(a, b, creator, joiner) == Some(creator),
        beats(b, a) ==> winner_of(a, b, creator, joiner) == Some(joiner),
        !beats(a, b) && !beats(b, a) ==> winner_of(a, b, creator, joiner) is None,
{
}

/// The amount that counts as paid in a denomination is that of the first
/// coin of the denomination among those sent; with none, nothing is paid.
pub proof fn paid_is_the_first_coin(funds: Seq<Coin>, denom: Seq<char>)
    ensures
        coin_amount(funds, denom) is Some ==> exists|i: int|
            0 <= i < funds.len() && #[trigger] funds[i].denom@ == denom && funds[i].amount == coin_amount(funds, denom)->0
                && forall|j: int| 0 <= j < i ==> funds[j].denom@ != denom,
        coin_amount(funds, denom) is None ==> forall|i: int| 0 <= i < funds.len() ==> funds[i].denom@ != denom,
    decreases funds.len(),
{
    if funds.len() > 0 && funds[0].denom@ != denom {
        let rest = funds.drop_first();
        paid_is_the_first_coin(rest, denom);
        if coin_amount(rest, denom) is Some {
            let i = choose|i: int|
                0 <= i < rest.len() && #[trigger] rest[i].denom@ == denom && rest[i].amount == coin_amount(rest, denom)->0
                    && forall|j: int| 0 <= j < i ==> rest[j].denom@ != denom;
            assert(funds[i + 1] == rest[i]);
            assert forall|j: int| 0 <= j < i + 1 implies funds[j].denom@ != denom by {
                if j > 0 {
                    assert(funds[j] == rest[j - 1]);
                }
            }
        } else {
            assert forall|i: int| 0 <= i < funds.len() implies funds[i].denom@ != denom by {
                if i > 0 {
                    assert(funds[i] == rest[i - 1]);
                }
            }
        }
    } else if funds.len() > 0 {
        assert(funds[0].denom@ == denom);
    }
}

/// A creation succeeds exactly when both bets reach the minimums, the first
/// `upaxi` coin sent covers the native bet, and the counter was read; it then
/// stores, under the next id, a waiting game of the sender with these bets and
/// a deadline one hour on, and asks the token contract to move the token bet
/// from the sender to this contract. Refusals come in that order.
pub proof fn creation_law(
    config: Config,
    game_counter: Result<u64, StdFailure>,
    env: Env,
    info: MessageInfo,
    bet_paxi: u128,
    bet_momo: u128,
)
    requires
        !create_game_overflows(config, game_counter, env, info, bet_paxi, bet_momo),
    ensures
        ({
            let transfer = cw20_transfer_from_json(info.sender@, env.contract_address@, bet_momo);
            let outcome = create_game_outcome(config, game_counter, env, info, bet_paxi, bet_momo, Ok(transfer));
            let paid = coin_amount(info.funds@, "upaxi"@);
            &&& outcome is Ok <==> (bet_paxi >= config.min_bet_paxi && bet_momo >= config.min_bet_momo && paid is Some
                && paid->0 >= bet_paxi && game_counter is Ok)
            &&& bet_paxi < config.min_bet_paxi ==> outcome == Err::<crate::contract::NewGameView, ContractError>(
                ContractError::BetTooSmall { min: config.min_bet_paxi },
            )
            &&& bet_paxi >= config.min_bet_paxi && bet_momo < config.min_bet_momo ==> outcome == Err::<crate::contract::NewGameView, ContractError>(
                ContractError::BetTooSmall { min: config.min_bet_momo },
            )
            &&& bet_paxi >= config.min_bet_paxi && bet_momo >= config.min_bet_momo && (paid is None || paid->0 < bet_paxi)
                ==> outcome == Err::<crate::contract::NewGameView, ContractError>(ContractError::InsufficientFunds {})
            &&& bet_paxi >= config.min_bet_paxi && bet_momo >= config.min_bet_momo && paid is Some && paid->0 >= bet_paxi
                && game_counter is Err ==> outcome == Err::<crate::contract::NewGameView, ContractError>(
                ContractError::Std(game_counter->Err_0),
            )
            &&& outcome is Ok ==> {
                let created = outcome->Ok_0;
                &&& created.game_id == game_counter->Ok_0 + 1
                &&& created.game == (Game {
                    creator: info.sender,
                    joiner: None,
                    bet_paxi: bet_paxi,
                    bet_momo: bet_momo,
                    creator_choice: None,
                    joiner_choice: None,
                    status: GameStatus::Waiting,
                    created_at: env.block_time,
                    timeout_at: (env.block_time + 3600) as u64,
                    winner: None,
                })
                &&& created.response.messages == seq![
                    CosmosMsgView::WasmExecute { contract_addr: config.momo_token@, msg: transfer, funds: Seq::empty() },
                ]
                &&& created.response.attributes == seq![
                    ("action"@, "create_game"@),
                    ("game_id"@, decimal(created.game_id as nat)),
                    ("creator"@, info.sender@),
                    ("bet_paxi"@, decimal(bet_paxi as nat)),
                    ("bet_momo"@, decimal(bet_momo as nat)),
                ]
            }
        }),
{
}

/// A join succeeds exactly when the game is waiting, its deadline has not
/// passed, the sender is not its creator, the first `upaxi` coin sent covers
/// the native bet, and the configuration was read. It then stores the game as
/// joined by the sender with exactly the sender's choice, all else unchanged,
/// and asks the token contract to move the token bet from the sender. A join
/// past the deadline stores the waiting game as timed out; any other failure
/// stores nothing.
pub proof fn join_law(game: Game, config: Result<Config, StdFailure>, env: Env, info: MessageInfo, game_id: u64, choice: u8)
    ensures
        ({
            let transfer = cw20_transfer_from_json(info.sender@, env.contract_address@, game.bet_momo);
            let outcome = join_game_outcome(game, config, env, info, game_id, choice, Ok(transfer));
            let paid = coin_amount(info.funds@, "upaxi"@);
            &&& outcome.result is Ok <==> (game.status == GameStatus::Waiting && env.block_time <= game.timeout_at
                && game.creator@ != info.sender@ && paid is Some && paid->0 >= game.bet_paxi && config is Ok)
            &&& outcome.result is Ok ==> {
                &&& outcome.saved_game == Some(Game {
                    joiner: Some(info.sender),
                    joiner_choice: Some(choice),
                    status: GameStatus::Joined,
                    ..game
                })
                &&& outcome.result->Ok_0.messages == seq![
                    CosmosMsgView::WasmExecute { contract_addr: config->Ok_0.momo_token@, msg: transfer, funds: Seq::empty() },
                ]
                &&& outcome.result->Ok_0.attributes == seq![
                    ("action"@, "join_game"@),
                    ("game_id"@, decimal(game_id as nat)),
                    ("joiner"@, info.sender@),
                    ("choice"@, decimal(choice as nat)),
                ]
            }
            &&& game.status != GameStatus::Waiting ==> outcome == (GameStepView {
                saved_game: None,
                result: Err(ContractError::GameNotAvailable {}),
            })
            &&& game.status == GameStatus::Waiting && env.block_time > game.timeout_at ==> outcome == (GameStepView {
                saved_game: Some(Game { status: GameStatus::Timeout, ..game }),
                result: Err(ContractError::GameTimeout {}),
            })
            &&& outcome.result is Err && !(game.status == GameStatus::Waiting && env.block_time > game.timeout_at)
                ==> outcome.saved_game is None
            &&& game.status == GameStatus::Waiting && env.block_time <= game.timeout_at && game.creator@ == info.sender@
                ==> outcome.result == Err::<ResponseView, ContractError>(ContractError::CannotJoinOwnGame {})
            &&& game.status == GameStatus::Waiting && env.block_time <= game.timeout_at && game.creator@ != info.sender@
                && (paid is None || paid->0 < game.bet_paxi)
                ==> outcome.result == Err::<ResponseView, ContractError>(ContractError::InsufficientFunds {})
            &&& game.status == GameStatus::Waiting && env.block_time <= game.timeout_at && game.creator@ != info.sender@
                && paid is Some && paid->0 >= game.bet_paxi && config is Err
                ==> outcome.result == Err::<ResponseView, ContractError>(ContractError::Std(config->Err_0))
        }),
{
}

/// The native payment of `amount` to `to`, by value.
pub open spec fn native_payment(to: Seq<char>, amount: int) -> CosmosMsgView {
    CosmosMsgView::BankSend { to_address: to, amount: seq![CoinView { denom: "upaxi"@, amount: amount as u128 }] }
}

/// When the revealed choice beats the joiner's (or the joiner's beats it),
/// the creator (or the joiner) wins: the game is stored as completed with the
/// creator's choice and that winner, and the winner is paid each pot (twice
/// the bet) less the house's share, `fee_percentage` percent of the pot
/// rounded down: the native prize in a bank payment, the token prize in a
/// token transfer to the winner, each only if it is not zero.
pub proof fn reveal_pays_the_winner(
    game: Game,
    config: Config,
    env: Env,
    info: MessageInfo,
    game_id: u64,
    choice: u8,
    winner: String,
)
    requires
        game.status == GameStatus::Joined,
        env.block_time <= game.timeout_at,
        info.sender@ == game.creator@,
        game.joiner is Some,
        game.joiner_choice is Some,
        config.fee_percentage <= 100,
        game.bet_paxi * 2 <= u128::MAX,
        game.bet_momo * 2 <= u128::MAX,
        (beats(choice, game.joiner_choice->0) && winner == game.creator)
            || (beats(game.joiner_choice->0, choice) && winner == game.joiner->0),
    ensures
        ({
            let prize_paxi = game.bet_paxi * 2 - game.bet_paxi * 2 * config.fee_percentage / 100;
            let prize_momo = game.bet_momo * 2 - game.bet_momo * 2 * config.fee_percentage / 100;
            let outcome = reveal_outcome(game, Ok(config), env, info, game_id, choice,
                Ok(reveal_transfer_json(game, Ok(config), choice)));
            &&& reveal_transfer_json(game, Ok(config), choice) == cw20_transfer_json(winner@, prize_momo as u128)
            &&& outcome == (GameStepView {
                saved_game: Some(Game {
                    creator_choice: Some(choice),
                    status: GameStatus::Completed,
                    winner: Some(winner),
                    ..game
                }),
                result: Ok(ResponseView {
                    messages: (if prize_paxi > 0 { seq![native_payment(winner@, prize_paxi)] } else { Seq::empty() })
                        + (if prize_momo > 0 {
                            seq![CosmosMsgView::WasmExecute {
                                contract_addr: config.momo_token@,
                                msg: cw20_transfer_json(winner@, prize_momo as u128),
                                funds: Seq::empty(),
                            }]
                        } else {
                            Seq::empty()
                        }),
                    attributes: seq![("action"@, "reveal"@), ("game_id"@, decimal(game_id as nat)), ("winner"@, winner@)],
                }),
            })
            &&& 0 <= prize_paxi <= game.bet_paxi * 2
            &&& 0 <= prize_momo <= game.bet_momo * 2
        }),
{
    fee_within_pot(game.bet_paxi * 2, config.fee_percentage);
    fee_within_pot(game.bet_momo * 2, config.fee_percentage);
    winner_is_who_beats(choice, game.joiner_choice->0, game.creator, game.joiner->0);
    crate::laws::beats_is_the_game_rule(choice, game.joiner_choice->0);
}

/// When neither choice beats the other, the game is stored as completed with
/// no winner, each player gets the native bet back, and no token moves.
pub proof fn reveal_draw_refunds(game: Game, config: Config, env: Env, info: MessageInfo, game_id: u64, choice: u8)
    requires
        game.status == GameStatus::Joined,
        env.block_time <= game.timeout_at,
        info.sender@ == game.creator@,
        game.joiner is Some,
        game.joiner_choice is Some,
        config.fee_percentage <= 100,
        game.bet_paxi * 2 <= u128::MAX,
        game.bet_momo * 2 <= u128::MAX,
        !beats(choice, game.joiner_choice->0),
        !beats(game.joiner_choice->0, choice),
    ensures
        reveal_outcome(game, Ok(config), env, info, game_id, choice, Ok(reveal_transfer_json(game, Ok(config), choice)))
            == (GameStepView {
            saved_game: Some(Game { creator_choice: Some(choice), status: GameStatus::Completed, winner: None, ..game }),
            result: Ok(ResponseView {
                messages: seq![native_payment(game.creator@, game.bet_paxi as int), native_payment((game.joiner->0)@, game.bet_paxi as int)],
                attributes: seq![("action"@, "reveal"@), ("game_id"@, decimal(game_id as nat)), ("winner"@, "draw"@)],
            }),
        }),
{
    fee_within_pot(game.bet_paxi * 2, config.fee_percentage);
    fee_within_pot(game.bet_momo * 2, config.fee_percentage);
    winner_is_who_beats(choice, game.joiner_choice->0, game.creator, game.joiner->0);
}

/// A reveal of a game that is not joined, or by anyone but its creator
/// before the deadline, is refused and stores nothing; past the deadline it
/// stores the joined game as timed out and fails.
pub proof fn reveal_refusals(
    game: Game,
    config: Result<Config, StdFailure>,
    env: Env,
    info: MessageInfo,
    game_id: u64,
    choice: u8,
    transfer: Result<Seq<u8>, StdFailure>,
)
    ensures
        game.status != GameStatus::Joined ==> reveal_outcome(game, config, env, info, game_id, choice, transfer)
            == (GameStepView { saved_game: None, result: Err(ContractError::GameNotAvailable {}) }),
        game.status == GameStatus::Joined && env.block_time > game.timeout_at
            ==> reveal_outcome(game, config, env, info, game_id, choice, transfer) == (GameStepView {
            saved_game: Some(Game { status: GameStatus::Timeout, ..game }),
            result: Err(ContractError::GameTimeout {}),
        }),
        game.status == GameStatus::Joined && env.block_time <= game.timeout_at && info.sender@ != game.creator@
            ==> reveal_outcome(game, config, env, info, game_id, choice, transfer)
            == (GameStepView { saved_game: None, result: Err(ContractError::Unauthorized {}) }),
        game.status == GameStatus::Joined && env.block_time <= game.timeout_at && info.sender@ == game.creator@
            && game.joiner_choice is None ==> reveal_outcome(game, config, env, info, game_id, choice, transfer)
            == (GameStepView { saved_game: None, result: Err(ContractError::GameNotAvailable {}) }),
        game.status == GameStatus::Joined && env.block_time <= game.timeout_at && info.sender@ == game.creator@
            && game.joiner_choice is Some && config is Err ==> reveal_outcome(game, config, env, info, game_id, choice, transfer)
            == (GameStepView { saved_game: None, result: Err(ContractError::Std(config->Err_0)) }),
        game.status == GameStatus::Joined && env.block_time <= game.timeout_at && info.sender@ == game.creator@
            && game.joiner_choice is Some && config is Ok && game.bet_paxi * 2 > u128::MAX
            ==> reveal_outcome(game, config, env, info, game_id, choice, transfer) == (GameStepView {
            saved_game: None,
            result: Err(ContractError::Std(StdFailure::Overflow {
                operation: crate::error::OverflowOperation::Mul,
                operand1: game.bet_paxi,
                operand2: 2,
            })),
        }),
        game.status == GameStatus::Joined && env.block_time <= game.timeout_at && info.sender@ == game.creator@
            && game.joiner_choice is Some && config is Ok && game.bet_paxi * 2 <= u128::MAX && game.bet_momo * 2 > u128::MAX
            ==> reveal_outcome(game, config, env, info, game_id, choice, transfer) == (GameStepView {
            saved_game: None,
            result: Err(ContractError::Std(StdFailure::Overflow {
                operation: crate::error::OverflowOperation::Mul,
                operand1: game.bet_momo,
                operand2: 2,
            })),
        }),
        game.status == GameStatus::Joined && env.block_time <= game.timeout_at && info.sender@ == game.creator@
            && game.joiner_choice is Some && config is Ok && game.bet_paxi * 2 <= u128::MAX && game.bet_momo * 2 <= u128::MAX
            && game.bet_paxi * 2 * config->Ok_0.fee_percentage / 100 > game.bet_paxi * 2
            ==> reveal_outcome(game, config, env, info, game_id, choice, transfer) == (GameStepView {
            saved_game: None,
            result: Err(ContractError::Std(StdFailure::Overflow {
                operation: crate::error::OverflowOperation::Sub,
                operand1: (game.bet_paxi * 2) as u128,
                operand2: (game.bet_paxi * 2 * config->Ok_0.fee_percentage / 100) as u128,
            })),
        }),
{
}

/// A claim succeeds only on a timed-out game and only for its creator: the
/// creator gets the native bet back and the game is stored as completed, all
/// else unchanged. A claim on a game that is not timed out is refused as not
/// available, and one by anyone else as unauthorized; neither stores anything.
pub proof fn claim_law(game: Game, info: MessageInfo, game_id: u64)
    ensures
        game.status != GameStatus::Timeout ==> claim_timeout_outcome(game, info, game_id)
            == (GameStepView { saved_game: None, result: Err(ContractError::GameNotAvailable {}) }),
        game.status == GameStatus::Timeout && info.sender@ != game.creator@ ==> claim_timeout_outcome(game, info, game_id)
            == (GameStepView { saved_game: None, result: Err(ContractError::Unauthorized {}) }),
        game.status == GameStatus::Timeout && info.sender@ == game.creator@ ==> claim_timeout_outcome(game, info, game_id)
            == (GameStepView {
            saved_game: Some(Game { status: GameStatus::Completed, ..game }),
            result: Ok(ResponseView {
                messages: seq![native_payment(game.creator@, game.bet_paxi as int)],
                attributes: seq![("action"@, "claim_timeout"@), ("game_id"@, decimal(game_id as nat))],
            }),
        }),
{
}

/// An update is refused for a fee above 100 percent; otherwise each value that
/// is given replaces the stored one and each value that is not given stays,
/// the admin and the token stay, and the answer reports the resulting fee and
/// minimums.
pub proof fn update_config_law(
    config: Config,
    fee_percentage: Option<u64>,
    min_bet_paxi: Option<u128>,
    min_bet_momo: Option<u128>,
)
    ensures
        fee_rejected(fee_percentage) <==> (fee_percentage is Some && fee_percentage->0 > 100),
        ({
            let updated = updated_config(config, fee_percentage, min_bet_paxi, min_bet_momo);
            &&& updated.fee_percentage == (if fee_percentage is Some { fee_percentage->0 } else { config.fee_percentage })
            &&& updated.min_bet_paxi == (if min_bet_paxi is Some { min_bet_paxi->0 } else { config.min_bet_paxi })
            &&& updated.min_bet_momo == (if min_bet_momo is Some { min_bet_momo->0 } else { config.min_bet_momo })
            &&& updated.admin == config.admin
            &&& updated.momo_token == config.momo_token
            &&& update_config_response(updated) == (ResponseView {
                messages: Seq::empty(),
                attributes: seq![
                    ("action"@, "update_config"@),
                    ("fee_percentage"@, decimal(updated.fee_percentage as nat)),
                    ("min_bet_paxi"@, decimal(updated.min_bet_paxi as nat)),
                    ("min_bet_momo"@, decimal(updated.min_bet_momo as nat)),
                ],
            })
        }),
{
}

/// A pot is both bets, and the house's share of a pot is `fee_percentage`
/// percent of it, rounded down; bets are paid in `upaxi`.
pub proof fn pot_and_fee_rule(bet: u128, pot: int, fee_percentage: u64)
    ensures
        crate::contract::pot(bet) == bet + bet,
        crate::contract::fee_of(pot, fee_percentage) == pot * fee_percentage / 100,
        crate::contract::paxi_denom() == "upaxi"@,
{
}

/// A stored status is reported under the same name.
pub proof fn status_reported_by_name()
    ensures
        status_info(GameStatus::Waiting) == crate::msg::GameStatus::Waiting,
        status_info(GameStatus::Joined) == crate::msg::GameStatus::Joined,
        status_info(GameStatus::Completed) == crate::msg::GameStatus::Completed,
        status_info(GameStatus::Timeout) == crate::msg::GameStatus::Timeout,
{
}

/// A game is reported with its id and exactly its stored players, bets,
/// times and winner.
pub proof fn game_reported_as_stored(game_id: u64, game: Game)
    ensures
        ({
            let info = game_info(game_id, game);
            &&& info.game_id == game_id
            &&& info.creator == game.creator
            &&& info.joiner == game.joiner
            &&& info.bet_paxi == game.bet_paxi
            &&& info.bet_momo == game.bet_momo
            &&& info.status == status_info(game.status)
            &&& info.created_at == game.created_at
            &&& info.timeout_at == game.timeout_at
            &&& info.winner == game.winner
        }),
{
}

/// The value that decimal digits spell, most significant first.
pub open spec fn decimal_value(s: Seq<char>) -> int
    decreases s.len(),
{
    if s.len() == 0 {
        0
    } else {
        decimal_value(s.drop_last()) * 10 + (s.last() as int - 48)
    }
}

/// The decimal text of a number is made of digits, starts with a zero only
/// for zero itself, and spells the number back.
pub proof fn decimal_spells_the_number(n: nat)
    ensures
        decimal(n).len() >= 1,
        forall|i: int| 0 <= i < decimal(n).len() ==> '0' <= #[trigger] decimal(n)[i] <= '9',
        decimal(n)[0] == '0' ==> n == 0,
        decimal_value(decimal(n)) == n,
    decreases n,
{
    let r = (n % 10) as nat;
    assert((((r + 48) as u32) as char) as int == r + 48);
    if n >= 10 {
        decimal_spells_the_number(n / 10);
        let d = decimal(n);
        assert(d.drop_last() =~= decimal(n / 10));
        assert(d[0] == decimal(n / 10)[0]);
        assert(d.last() == digit_char(r));
        assert(decimal_value(d) == decimal_value(decimal(n / 10)) * 10 + (d.last() as int - 48));
        assert(n == (n / 10) * 10 + r);
    } else {
        let d = decimal(n);
        assert(d.drop_last() =~= Seq::<char>::empty());
        assert(d.last() == digit_char(r));
        assert(decimal_value(d) == decimal_value(d.drop_last()) * 10 + (d.last() as int - 48));
    }
}

} // verus!
