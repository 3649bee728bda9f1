//! The contract's steps. Each takes what was read from storage and returns
//! what is to be stored and answered.

use vstd::prelude::*;

use crate::error::{ContractError, OverflowOperation, StdFailure};
use crate::external::{
    cw20_transfer_binary, cw20_transfer_from_binary, cw20_transfer_from_json, cw20_transfer_json,
    decimal, u128_text, uint128_checked_mul, uint128_checked_sub, uint128_multiply_ratio,
    uint128_text,
};
use crate::state::{Config, Game, GameStatus, GAME_TIMEOUT_SECONDS};
use crate::types::{
    Coin, CoinView, CosmosMsg, CosmosMsgView, Env, MessageInfo, Response, ResponseView,
};

verus! {

// ---------------------------------------------------------------------------
// Choices and the winner
// ---------------------------------------------------------------------------

/// Rock is 0, paper 1, scissors 2: `a` beats `b`.
pub open spec fn beats(a: u8, b: u8) -> bool {
    ||| a == 0 && b == 2
    ||| a == 1 && b == 0
    ||| a == 2 && b == 1
}

/// The winner of a round between the creator's and the joiner's choice;
/// `None` is a draw (equal choices, or a choice outside the three).
pub open spec fn winner_of(creator_choice: u8, joiner_choice: u8, creator: String, joiner: String) -> Option<String> {
    if beats(creator_choice, joiner_choice) {
        Some(creator)
    } else if beats(joiner_choice, creator_choice) {
        Some(joiner)
    } else {
        None
    }
}

/// Decides who wins a round.
pub fn determine_winner(choice1: u8, choice2: u8, creator: &String, joiner: &String) -> (res: Option<String>)
    ensures
        res == winner_of(choice1, choice2, *creator, *joiner),
{
    if (choice1 == 0 && choice2 == 2) || (choice1 == 1 && choice2 == 0) || (choice1 == 2 && choice2 == 1) {
        Some(creator.clone())
    } else if (choice1 == 2 && choice2 == 0) || (choice1 == 0 && choice2 == 1) || (choice1 == 1 && choice2 == 2) {
        Some(joiner.clone())
    } else {
        None
    }
}

// ---------------------------------------------------------------------------
// Payment
// ---------------------------------------------------------------------------

/// The native denomination that bets are paid in.
pub open spec fn paxi_denom() -> Seq<char> {
    "upaxi"@
}

/// The amount of the first coin of `denom` among `funds`.
pub open spec fn coin_amount(funds: Seq<Coin>, denom: Seq<char>) -> Option<u128>
    decreases funds.len(),
{
    if funds.len() == 0 {
        None
    } else if funds[0].denom@ == denom {
        Some(funds[0].amount)
    } else {
        coin_amount(funds.drop_first(), denom)
    }
}

/// The native denomination, as a string.
pub fn paxi_denom_string() -> (s: String)
    ensures
        s@ == paxi_denom(),
{
    "upaxi".to_owned()
}

/// Finds the amount of the first coin of `denom` that was sent.
pub fn paid_amount(funds: &Vec<Coin>, denom: &String) -> (res: Option<u128>)
    ensures
        res == coin_amount(funds@, denom@),
{
    let mut i: usize = 0;
    assert(funds@.skip(0) =~= funds@);
    while i < funds.len()
        invariant
            i <= funds.len(),
            coin_amount(funds@, denom@) == coin_amount(funds@.skip(i as int), denom@),
        decreases funds.len() - i,
    {
        assert(funds@.skip(i as int).drop_first() =~= funds@.skip(i + 1));
        assert(funds@.skip(i as int)[0] == funds@[i as int]);
        if funds[i].denom == *denom {
            return Some(funds[i].amount);
        }
        i += 1;
    }
    assert(funds@.skip(i as int).len() == 0);
    None
}

/// Why a payment of `bet_paxi` falls short, if it does.
pub open spec fn payment_rejection(info: MessageInfo, bet_paxi: u128) -> Option<ContractError> {
    match coin_amount(info.funds@, paxi_denom()) {
        None => Some(ContractError::InsufficientFunds {}),
        Some(amount) => if amount < bet_paxi {
            Some(ContractError::InsufficientFunds {})
        } else {
            None
        },
    }
}

/// Checks that at least `bet_paxi` of the native denomination was sent.
pub fn check_payment(info: &MessageInfo, bet_paxi: u128) -> (res: Result<(), ContractError>)
    ensures
        match payment_rejection(*info, bet_paxi) {
            Some(e) => res == Err::<(), ContractError>(e),
            None => res is Ok,
        },
{
    let denom = paxi_denom_string();
    match paid_amount(&info.funds, &denom) {
        None => Err(ContractError::InsufficientFunds {}),
        Some(amount) => if amount < bet_paxi {
            Err(ContractError::InsufficientFunds {})
        } else {
            Ok(())
        },
    }
}


// ---------------------------------------------------------------------------
// Creating a game
// ---------------------------------------------------------------------------

/// A game that was created, under its new id, with the answer to send.
pub struct NewGame {
    pub game_id: u64,
    pub game: Game,
    pub response: Response,
}

/// A created game, by value.
pub struct NewGameView {
    pub game_id: u64,
    pub game: Game,
    pub response: ResponseView,
}

impl View for NewGame {
    type V = NewGameView;

    open spec fn view(&self) -> NewGameView {
        NewGameView { game_id: self.game_id, game: self.game, response: self.response@ }
    }
}

/// A creation's outcome, by value.
pub open spec fn new_game_result_view(r: Result<NewGame, ContractError>) -> Result<NewGameView, ContractError> {
    match r {
        Ok(ng) => Ok(ng@),
        Err(e) => Err(e),
    }
}

/// A serialisation's outcome, by value.
pub open spec fn bytes_result_view(r: Result<Vec<u8>, StdFailure>) -> Result<Seq<u8>, StdFailure> {
    match r {
        Ok(b) => Ok(b@),
        Err(e) => Err(e),
    }
}

/// Why a creation is refused before anything is sent or stored, if it is.
pub open spec fn create_game_rejection(config: Config, info: MessageInfo, bet_paxi: u128, bet_momo: u128) -> Option<ContractError> {
    if bet_paxi < config.min_bet_paxi {
        Some(ContractError::BetTooSmall { min: config.min_bet_paxi })
    } else if bet_momo < config.min_bet_momo {
        Some(ContractError::BetTooSmall { min: config.min_bet_momo })
    } else {
        payment_rejection(info, bet_paxi)
    }
}

/// The game that a creation stores.
pub open spec fn fresh_game(creator: String, bet_paxi: u128, bet_momo: u128, now: u64) -> Game {
    Game {
        creator: creator,
        joiner: None,
        bet_paxi: bet_paxi,
        bet_momo: bet_momo,
        creator_choice: None,
        joiner_choice: None,
        status: GameStatus::Waiting,
        created_at: now,
        timeout_at: (now + GAME_TIMEOUT_SECONDS) as u64,
        winner: None,
    }
}

/// The message that moves a bet of the token into the contract.
pub open spec fn pull_token_msg(token: Seq<char>, transfer_from: Seq<u8>) -> CosmosMsgView {
    CosmosMsgView::WasmExecute { contract_addr: token, msg: transfer_from, funds: Seq::empty() }
}

/// The answer to a creation.
pub open spec fn create_game_response(config: Config, info: MessageInfo, game_id: u64, bet_paxi: u128, bet_momo: u128, transfer_from: Seq<u8>) -> ResponseView {
    ResponseView {
        messages: seq![pull_token_msg(config.momo_token@, transfer_from)],
        attributes: seq![
            ("action"@, "create_game"@),
            ("game_id"@, decimal(game_id as nat)),
            ("creator"@, info.sender@),
            ("bet_paxi"@, decimal(bet_paxi as nat)),
            ("bet_momo"@, decimal(bet_momo as nat)),
        ],
    }
}

/// What a creation does, given what serialising the token transfer gave.
pub open spec fn create_game_outcome(
    config: Config,
    game_counter: Result<u64, StdFailure>,
    env: Env,
    info: MessageInfo,
    bet_paxi: u128,
    bet_momo: u128,
    transfer_from: Result<Seq<u8>, StdFailure>,
) -> Result<NewGameView, ContractError> {
    match create_game_rejection(config, info, bet_paxi, bet_momo) {
        Some(e) => Err(e),
        None => match transfer_from {
            Err(e) => Err(ContractError::Std(e)),
            Ok(bytes) => match game_counter {
                Err(f) => Err(ContractError::Std(f)),
                Ok(counter) => {
                    let game_id = (counter + 1) as u64;
                    Ok(NewGameView {
                        game_id: game_id,
                        game: fresh_game(info.sender, bet_paxi, bet_momo, env.block_time),
                        response: create_game_response(config, info, game_id, bet_paxi, bet_momo, bytes),
                    })
                },
            },
        },
    }
}

/// The inputs on which a creation would overflow the game counter or the
/// deadline (a panic), once the bets and the payment are accepted.
pub open spec fn create_game_overflows(
    config: Config,
    game_counter: Result<u64, StdFailure>,
    env: Env,
    info: MessageInfo,
    bet_paxi: u128,
    bet_momo: u128,
) -> bool {
    &&& create_game_rejection(config, info, bet_paxi, bet_momo) is None
    &&& game_counter matches Ok(counter) && (counter == u64::MAX || env.block_time + GAME_TIMEOUT_SECONDS > u64::MAX)
}

/// Tells whether a creation would overflow the game counter or the deadline,
/// so that a caller can stop before the step.
pub fn create_game_would_overflow(
    config: &Config,
    game_counter: &Result<u64, StdFailure>,
    env: &Env,
    info: &MessageInfo,
    bet_paxi: u128,
    bet_momo: u128,
) -> (res: bool)
    ensures
        res == create_game_overflows(*config, *game_counter, *env, *info, bet_paxi, bet_momo),
{
    if bet_paxi < config.min_bet_paxi || bet_momo < config.min_bet_momo {
        return false;
    }
    if check_payment(info, bet_paxi).is_err() {
        return false;
    }
    match game_counter {
        Ok(counter) => *counter == u64::MAX || env.block_time > u64::MAX - GAME_TIMEOUT_SECONDS,
        Err(_) => false,
    }
}

/// Completes a creation once the token transfer was serialised (or failed to be).
pub fn create_game_with_transfer(
    config: &Config,
    game_counter: Result<u64, StdFailure>,
    env: &Env,
    info: &MessageInfo,
    bet_paxi: u128,
    bet_momo: u128,
    transfer_from: Result<Vec<u8>, StdFailure>,
) -> (res: Result<NewGame, ContractError>)
    requires
        create_game_rejection(*config, *info, bet_paxi, bet_momo) is None,
        transfer_from is Ok ==> !create_game_overflows(*config, game_counter, *env, *info, bet_paxi, bet_momo),
    ensures
        new_game_result_view(res) == create_game_outcome(
            *config,
            game_counter,
            *env,
            *info,
            bet_paxi,
            bet_momo,
            bytes_result_view(transfer_from),
        ),
{
    let bytes = match transfer_from {
        Err(e) => return Err(ContractError::Std(e)),
        Ok(b) => b,
    };
    let ghost bytes_view = bytes@;
    let counter = match game_counter {
        Err(f) => return Err(ContractError::Std(f)),
        Ok(c) => c,
    };
    let game_id = counter + 1;
    let transfer_msg = CosmosMsg::WasmExecute {
        contract_addr: config.momo_token.clone(),
        msg: bytes,
        funds: Vec::new(),
    };
    assert(transfer_msg@ == pull_token_msg(config.momo_token@, bytes_view)) by {
        assert(Seq::<Coin>::empty().map_values(|c: Coin| c@) =~= Seq::<CoinView>::empty());
    }
    let game = Game {
        creator: info.sender.clone(),
        joiner: None,
        bet_paxi,
        bet_momo,
        creator_choice: None,
        joiner_choice: None,
        status: GameStatus::Waiting,
        created_at: env.block_time,
        timeout_at: env.block_time + GAME_TIMEOUT_SECONDS,
        winner: None,
    };
    let mut response = Response::new();
    response.add_message(transfer_msg);
    response.add_attribute("action", "create_game".to_owned());
    response.add_attribute("game_id", u128_text(game_id as u128));
    response.add_attribute("creator", info.sender.clone());
    response.add_attribute("bet_paxi", uint128_text(bet_paxi));
    response.add_attribute("bet_momo", uint128_text(bet_momo));
    assert(response@.messages =~= create_game_response(*config, *info, game_id, bet_paxi, bet_momo, bytes_view).messages);
    assert(response@.attributes =~= create_game_response(*config, *info, game_id, bet_paxi, bet_momo, bytes_view).attributes);
    Ok(NewGame { game_id, game, response })
}

/// Opens a game with the given bets: checks them against the configured
/// minimums and the coins sent, asks the token contract to pull the token
/// bet, and takes the next game id.
pub fn execute_create_game(
    config: &Config,
    game_counter: Result<u64, StdFailure>,
    env: &Env,
    info: &MessageInfo,
    bet_paxi: u128,
    bet_momo: u128,
) -> (res: Result<NewGame, ContractError>)
    requires
        !create_game_overflows(*config, game_counter, *env, *info, bet_paxi, bet_momo),
    ensures
        new_game_result_view(res) == create_game_outcome(
            *config,
            game_counter,
            *env,
            *info,
            bet_paxi,
            bet_momo,
            Ok(cw20_transfer_from_json(info.sender@, env.contract_address@, bet_momo)),
        ),
{
    if bet_paxi < config.min_bet_paxi {
        return Err(ContractError::BetTooSmall { min: config.min_bet_paxi });
    }
    if bet_momo < config.min_bet_momo {
        return Err(ContractError::BetTooSmall { min: config.min_bet_momo });
    }
    check_payment(info, bet_paxi)?;
    let transfer_from = cw20_transfer_from_binary(&info.sender, &env.contract_address, bet_momo);
    create_game_with_transfer(config, game_counter, env, info, bet_paxi, bet_momo, transfer_from)
}


// ---------------------------------------------------------------------------
// Steps on an existing game
// ---------------------------------------------------------------------------

/// What a step on an existing game does: the game it stores (if it stores
/// one) and its answer. A step that stores the game and then fails (a join or
/// a reveal past the deadline, which store the game as timed out) reports the
/// game too. On the chain the writes of a failed message are rolled back, so
/// such a write does not persist there.
pub struct GameStep {
    pub saved_game: Option<Game>,
    pub result: Result<Response, ContractError>,
}

/// A step on a game, by value.
pub struct GameStepView {
    pub saved_game: Option<Game>,
    pub result: Result<ResponseView, ContractError>,
}

impl View for GameStep {
    type V = GameStepView;

    open spec fn view(&self) -> GameStepView {
        GameStepView {
            saved_game: self.saved_game,
            result: match self.result {
                Ok(r) => Ok(r@),
                Err(e) => Err(e),
            },
        }
    }
}

/// A step that stores nothing and fails.
pub open spec fn refused(e: ContractError) -> GameStepView {
    GameStepView { saved_game: None, result: Err(e) }
}

/// A game whose deadline has passed, as a step stores it.
pub open spec fn timed_out(game: Game) -> Game {
    Game { status: GameStatus::Timeout, ..game }
}

/// The game, once joined by `joiner` with `choice`.
pub open spec fn joined_game(game: Game, joiner: String, choice: u8) -> Game {
    Game { joiner: Some(joiner), joiner_choice: Some(choice), status: GameStatus::Joined, ..game }
}

/// The answer to a join.
pub open spec fn join_game_response(config: Config, info: MessageInfo, game_id: u64, choice: u8, transfer_from: Seq<u8>) -> ResponseView {
    ResponseView {
        messages: seq![pull_token_msg(config.momo_token@, transfer_from)],
        attributes: seq![
            ("action"@, "join_game"@),
            ("game_id"@, decimal(game_id as nat)),
            ("joiner"@, info.sender@),
            ("choice"@, decimal(choice as nat)),
        ],
    }
}

/// What a join does, given what serialising the token transfer gave.
pub open spec fn join_game_outcome(
    game: Game,
    config: Result<Config, StdFailure>,
    env: Env,
    info: MessageInfo,
    game_id: u64,
    choice: u8,
    transfer_from: Result<Seq<u8>, StdFailure>,
) -> GameStepView {
    if game.status != GameStatus::Waiting {
        refused(ContractError::GameNotAvailable {})
    } else if env.block_time > game.timeout_at {
        GameStepView { saved_game: Some(timed_out(game)), result: Err(ContractError::GameTimeout {}) }
    } else if game.creator@ == info.sender@ {
        refused(ContractError::CannotJoinOwnGame {})
    } else if payment_rejection(info, game.bet_paxi) is Some {
        refused(payment_rejection(info, game.bet_paxi)->0)
    } else {
        match config {
            Err(f) => refused(ContractError::Std(f)),
            Ok(config) => match transfer_from {
                Err(e) => refused(ContractError::Std(e)),
                Ok(bytes) => GameStepView {
                    saved_game: Some(joined_game(game, info.sender, choice)),
                    result: Ok(join_game_response(config, info, game_id, choice, bytes)),
                },
            },
        }
    }
}

/// Completes a join once the token transfer was serialised (or failed to be).
pub fn join_game_with_transfer(
    game: Game,
    config: &Config,
    info: &MessageInfo,
    game_id: u64,
    choice: u8,
    transfer_from: Result<Vec<u8>, StdFailure>,
) -> (res: GameStep)
    ensures
        res@ == match bytes_result_view(transfer_from) {
            Err(e) => refused(ContractError::Std(e)),
            Ok(bytes) => GameStepView {
                saved_game: Some(joined_game(game, info.sender, choice)),
                result: Ok(join_game_response(*config, *info, game_id, choice, bytes)),
            },
        },
{
    let bytes = match transfer_from {
        Err(e) => return GameStep { saved_game: None, result: Err(ContractError::Std(e)) },
        Ok(b) => b,
    };
    let ghost bytes_view = bytes@;
    let transfer_msg = CosmosMsg::WasmExecute {
        contract_addr: config.momo_token.clone(),
        msg: bytes,
        funds: Vec::new(),
    };
    assert(transfer_msg@ == pull_token_msg(config.momo_token@, bytes_view)) by {
        assert(Seq::<Coin>::empty().map_values(|c: Coin| c@) =~= Seq::<CoinView>::empty());
    }
    let mut game = game;
    game.joiner = Some(info.sender.clone());
    game.joiner_choice = Some(choice);
    game.status = GameStatus::Joined;
    let mut response = Response::new();
    response.add_message(transfer_msg);
    response.add_attribute("action", "join_game".to_owned());
    response.add_attribute("game_id", u128_text(game_id as u128));
    response.add_attribute("joiner", info.sender.clone());
    response.add_attribute("choice", u128_text(choice as u128));
    assert(response@.messages =~= join_game_response(*config, *info, game_id, choice, bytes_view).messages);
    assert(response@.attributes =~= join_game_response(*config, *info, game_id, choice, bytes_view).attributes);
    GameStep { saved_game: Some(game), result: Ok(response) }
}

/// Joins a waiting game with a choice: the game must still be open, the
/// joiner must not be its creator and must match the native bet; the token
/// contract is asked to pull the token bet.
pub fn execute_join_game(
    game: Game,
    config: Result<Config, StdFailure>,
    env: &Env,
    info: &MessageInfo,
    game_id: u64,
    choice: u8,
) -> (res: GameStep)
    ensures
        res@ == join_game_outcome(
            game,
            config,
            *env,
            *info,
            game_id,
            choice,
            Ok(cw20_transfer_from_json(info.sender@, env.contract_address@, game.bet_momo)),
        ),
{
    if game.status != GameStatus::Waiting {
        return GameStep { saved_game: None, result: Err(ContractError::GameNotAvailable {}) };
    }
    if env.block_time > game.timeout_at {
        let mut game = game;
        game.status = GameStatus::Timeout;
        return GameStep { saved_game: Some(game), result: Err(ContractError::GameTimeout {}) };
    }
    if game.creator == info.sender {
        return GameStep { saved_game: None, result: Err(ContractError::CannotJoinOwnGame {}) };
    }
    match check_payment(info, game.bet_paxi) {
        Err(e) => return GameStep { saved_game: None, result: Err(e) },
        Ok(()) => {},
    }
    let config = match config {
        Err(f) => return GameStep { saved_game: None, result: Err(ContractError::Std(f)) },
        Ok(c) => c,
    };
    let transfer_from = cw20_transfer_from_binary(&info.sender, &env.contract_address, game.bet_momo);
    join_game_with_transfer(game, &config, info, game_id, choice, transfer_from)
}


// ---------------------------------------------------------------------------
// Revealing and settling a game
// ---------------------------------------------------------------------------

/// The pot of one side: both players' bets.
pub open spec fn pot(bet: u128) -> int {
    bet * 2
}

/// The house's share of a pot, rounded down.
pub open spec fn fee_of(pot: int, fee_percentage: u64) -> int {
    pot * fee_percentage / 100
}

/// A payment of `amount` of the native denomination to `to`.
pub open spec fn bank_send_view(to: Seq<char>, amount: u128) -> CosmosMsgView {
    CosmosMsgView::BankSend { to_address: to, amount: seq![CoinView { denom: paxi_denom(), amount: amount }] }
}

/// The messages that pay the winner: the native prize if it is not zero,
/// then the token prize if it is not zero.
pub open spec fn winner_messages(winner: Seq<char>, prize_paxi: u128, prize_momo: u128, token: Seq<char>, transfer: Seq<u8>) -> Seq<CosmosMsgView> {
    (if prize_paxi > 0 { seq![bank_send_view(winner, prize_paxi)] } else { Seq::empty() })
        + (if prize_momo > 0 {
            seq![CosmosMsgView::WasmExecute { contract_addr: token, msg: transfer, funds: Seq::empty() }]
        } else {
            Seq::empty()
        })
}

/// The text that reports the winner.
pub open spec fn winner_text(winner: Option<String>) -> Seq<char> {
    match winner {
        Some(w) => w@,
        None => "draw"@,
    }
}

/// The game once revealed and settled.
pub open spec fn completed_game(game: Game, choice: u8, winner: Option<String>) -> Game {
    Game { creator_choice: Some(choice), status: GameStatus::Completed, winner: winner, ..game }
}

/// The winner of a revealed game (the joiner's side is read as stored).
pub open spec fn reveal_winner(game: Game, choice: u8) -> Option<String> {
    winner_of(choice, game.joiner_choice->0, game.creator, game.joiner->0)
}

/// The token prize of a revealed game under `config`.
pub open spec fn reveal_prize_momo(game: Game, config: Config) -> int {
    pot(game.bet_momo) - fee_of(pot(game.bet_momo), config.fee_percentage)
}

/// The serialised token transfer that pays the winner of a revealed game
/// (empty where there is no winner to pay).
pub open spec fn reveal_transfer_json(game: Game, config: Result<Config, StdFailure>, choice: u8) -> Seq<u8> {
    match (config, reveal_winner(game, choice)) {
        (Ok(c), Some(w)) => cw20_transfer_json(w@, reveal_prize_momo(game, c) as u128),
        _ => Seq::empty(),
    }
}

/// What settling a revealed game does under `config`, given what serialising
/// the token prize transfer gave.
pub open spec fn reveal_settlement(game: Game, config: Config, game_id: u64, choice: u8, transfer: Result<Seq<u8>, StdFailure>) -> GameStepView {
    let winner = reveal_winner(game, choice);
    let total_paxi = pot(game.bet_paxi);
    let total_momo = pot(game.bet_momo);
    let fee_paxi = fee_of(total_paxi, config.fee_percentage);
    let fee_momo = fee_of(total_momo, config.fee_percentage);
    if total_paxi > u128::MAX {
        refused(ContractError::Std(StdFailure::Overflow { operation: OverflowOperation::Mul, operand1: game.bet_paxi, operand2: 2 }))
    } else if total_momo > u128::MAX {
        refused(ContractError::Std(StdFailure::Overflow { operation: OverflowOperation::Mul, operand1: game.bet_momo, operand2: 2 }))
    } else if fee_paxi > total_paxi {
        refused(ContractError::Std(StdFailure::Overflow { operation: OverflowOperation::Sub, operand1: total_paxi as u128, operand2: fee_paxi as u128 }))
    } else if fee_momo > total_momo {
        refused(ContractError::Std(StdFailure::Overflow { operation: OverflowOperation::Sub, operand1: total_momo as u128, operand2: fee_momo as u128 }))
    } else {
        let prize_paxi = (total_paxi - fee_paxi) as u128;
        let prize_momo = (total_momo - fee_momo) as u128;
        let completed = completed_game(game, choice, winner);
        let attributes = seq![
            ("action"@, "reveal"@),
            ("game_id"@, decimal(game_id as nat)),
            ("winner"@, winner_text(winner)),
        ];
        match winner {
            Some(w) => if prize_momo > 0 && transfer is Err {
                GameStepView { saved_game: Some(completed), result: Err(ContractError::Std(transfer->Err_0)) }
            } else {
                GameStepView {
                    saved_game: Some(completed),
                    result: Ok(ResponseView {
                        messages: winner_messages(w@, prize_paxi, prize_momo, config.momo_token@, transfer->Ok_0),
                        attributes: attributes,
                    }),
                }
            },
            None => GameStepView {
                saved_game: Some(completed),
                result: Ok(ResponseView {
                    messages: seq![
                        bank_send_view(game.creator@, game.bet_paxi),
                        bank_send_view((game.joiner->0)@, game.bet_paxi),
                    ],
                    attributes: attributes,
                }),
            },
        }
    }
}

/// What a reveal does, given what serialising the token prize transfer gave.
pub open spec fn reveal_outcome(
    game: Game,
    config: Result<Config, StdFailure>,
    env: Env,
    info: MessageInfo,
    game_id: u64,
    choice: u8,
    transfer: Result<Seq<u8>, StdFailure>,
) -> GameStepView {
    if game.status != GameStatus::Joined {
        refused(ContractError::GameNotAvailable {})
    } else if env.block_time > game.timeout_at {
        GameStepView { saved_game: Some(timed_out(game)), result: Err(ContractError::GameTimeout {}) }
    } else if info.sender@ != game.creator@ {
        refused(ContractError::Unauthorized {})
    } else if game.joiner_choice is None {
        refused(ContractError::GameNotAvailable {})
    } else {
        match config {
            Err(f) => refused(ContractError::Std(f)),
            Ok(config) => reveal_settlement(game, config, game_id, choice, transfer),
        }
    }
}

/// Whether a reveal gets as far as settling the game.
pub open spec fn reveal_settles(game: Game, env: Env, info: MessageInfo) -> bool {
    &&& game.status == GameStatus::Joined
    &&& env.block_time <= game.timeout_at
    &&& info.sender@ == game.creator@
    &&& game.joiner_choice is Some
}

/// The inputs on which a reveal panics: a joined game without a joiner, or a
/// house share above 128 bits (possible only with a fee above 100 percent).
pub open spec fn reveal_panics(game: Game, config: Result<Config, StdFailure>, env: Env, info: MessageInfo) -> bool {
    &&& reveal_settles(game, env, info)
    &&& {
        ||| game.joiner is None
        ||| config matches Ok(c) && {
            &&& pot(game.bet_paxi) <= u128::MAX
            &&& pot(game.bet_momo) <= u128::MAX
            &&& {
                ||| fee_of(pot(game.bet_paxi), c.fee_percentage) > u128::MAX
                ||| fee_of(pot(game.bet_momo), c.fee_percentage) > u128::MAX
            }
        }
    }
}

/// Tells whether a reveal would panic, so that a caller can stop before the step.
pub fn reveal_would_panic(game: &Game, config: &Result<Config, StdFailure>, env: &Env, info: &MessageInfo) -> (res: bool)
    ensures
        res == reveal_panics(*game, *config, *env, *info),
{
    if game.status != GameStatus::Joined || env.block_time > game.timeout_at || info.sender != game.creator
        || game.joiner_choice.is_none() {
        return false;
    }
    if game.joiner.is_none() {
        return true;
    }
    match config {
        Err(_) => false,
        Ok(c) => match (uint128_checked_mul(game.bet_paxi, 2), uint128_checked_mul(game.bet_momo, 2)) {
            (Some(total_paxi), Some(total_momo)) => {
                share_overflows(total_paxi, c.fee_percentage) || share_overflows(total_momo, c.fee_percentage)
            },
            _ => false,
        },
    }
}

/// Whether the house's share of a pot is above 128 bits.
pub fn share_overflows(total: u128, fee_percentage: u64) -> (res: bool)
    ensures
        res == (fee_of(total as int, fee_percentage) > u128::MAX),
{
    // total * fee / 100 == (total / 100) * fee + (total % 100) * fee / 100,
    // and both terms can be compared with the maximum without overflowing.
    let q = total / 100;
    let r = total % 100;
    let f = fee_percentage as u128;
    assert(total * f / 100 == q * f + r * f / 100) by (nonlinear_arith)
        requires
            q == total / 100,
            r == total % 100,
    ;
    if f != 0 && q > u128::MAX / f {
        assert(q * f > u128::MAX) by (nonlinear_arith)
            requires
                f != 0,
                q > u128::MAX / f,
        ;
        return true;
    }
    assert(q * f <= u128::MAX) by (nonlinear_arith)
        requires
            f == 0 || q <= u128::MAX / f,
    ;
    let qf = q * f;
    assert(r * f <= 99 * 18446744073709551615) by (nonlinear_arith)
        requires
            r < 100,
            f <= 18446744073709551615,
    ;
    let rf = r * f / 100;
    qf > u128::MAX - rf
}

/// A payment of `amount` of the native denomination to `to`.
pub fn bank_send(to: &String, amount: u128) -> (m: CosmosMsg)
    ensures
        m@ == bank_send_view(to@, amount),
{
    let coin = Coin { denom: paxi_denom_string(), amount };
    let ghost cv = coin@;
    let amount_list = vec![coin];
    assert(amount_list@.map_values(|c: Coin| c@) =~= seq![cv]);
    CosmosMsg::BankSend { to_address: to.clone(), amount: amount_list }
}

/// Builds the messages that pay the winner, once the token prize transfer
/// was serialised (or failed to be); `momo_transfer` is there exactly when
/// there is a token prize.
pub fn winner_payout(
    winner: &String,
    prize_paxi: u128,
    prize_momo: u128,
    token: &String,
    momo_transfer: Option<Result<Vec<u8>, StdFailure>>,
) -> (res: Result<Vec<CosmosMsg>, StdFailure>)
    requires
        momo_transfer is Some <==> prize_momo > 0,
    ensures
        match momo_transfer {
            Some(Err(e)) => res == Err::<Vec<CosmosMsg>, StdFailure>(e),
            Some(Ok(bytes)) => res matches Ok(msgs) && msgs@.map_values(|m: CosmosMsg| m@)
                == winner_messages(winner@, prize_paxi, prize_momo, token@, bytes@),
            None => res matches Ok(msgs) && msgs@.map_values(|m: CosmosMsg| m@)
                == winner_messages(winner@, prize_paxi, prize_momo, token@, Seq::empty()),
        },
{
    let mut msgs: Vec<CosmosMsg> = Vec::new();
    if prize_paxi > 0 {
        msgs.push(bank_send(winner, prize_paxi));
    }
    let ghost first = msgs@.map_values(|m: CosmosMsg| m@);
    assert(first =~= (if prize_paxi > 0 { seq![bank_send_view(winner@, prize_paxi)] } else { Seq::<CosmosMsgView>::empty() }));
    match momo_transfer {
        None => {
            assert(msgs@.map_values(|m: CosmosMsg| m@) =~= winner_messages(winner@, prize_paxi, prize_momo, token@, Seq::empty()));
        },
        Some(Err(e)) => {
            return Err(e);
        },
        Some(Ok(bytes)) => {
            let ghost bytes_view = bytes@;
            let m = CosmosMsg::WasmExecute { contract_addr: token.clone(), msg: bytes, funds: Vec::new() };
            let ghost mv = m@;
            assert(mv == CosmosMsgView::WasmExecute { contract_addr: token@, msg: bytes_view, funds: Seq::empty() }) by {
                assert(Seq::<Coin>::empty().map_values(|c: Coin| c@) =~= Seq::<CoinView>::empty());
            }
            let ghost before = msgs@;
            msgs.push(m);
            assert(msgs@.map_values(|m: CosmosMsg| m@) =~= before.map_values(|m: CosmosMsg| m@).push(mv));
            assert(msgs@.map_values(|m: CosmosMsg| m@) =~= winner_messages(winner@, prize_paxi, prize_momo, token@, bytes_view));
        },
    }
    Ok(msgs)
}

/// Splits a pot between the house and the winner: the house takes
/// `fee_percentage` percent, rounded down, and the winner the rest.
pub fn split_pot(total: u128, fee_percentage: u64) -> (res: Result<(u128, u128), StdFailure>)
    requires
        fee_of(total as int, fee_percentage) <= u128::MAX,
    ensures
        fee_of(total as int, fee_percentage) <= total ==> res == Ok::<(u128, u128), StdFailure>(
            (fee_of(total as int, fee_percentage) as u128, (total - fee_of(total as int, fee_percentage)) as u128),
        ),
        fee_of(total as int, fee_percentage) > total ==> res == Err::<(u128, u128), StdFailure>(
            StdFailure::Overflow { operation: OverflowOperation::Sub, operand1: total, operand2: fee_of(total as int, fee_percentage) as u128 },
        ),
{
    let fee = uint128_multiply_ratio(total, fee_percentage, 100);
    match uint128_checked_sub(total, fee) {
        Some(prize) => Ok((fee, prize)),
        None => Err(StdFailure::Overflow { operation: OverflowOperation::Sub, operand1: total, operand2: fee }),
    }
}

/// Doubles a bet into a pot, failing on overflow.
pub fn pot_of(bet: u128) -> (res: Result<u128, StdFailure>)
    ensures
        pot(bet) <= u128::MAX ==> res == Ok::<u128, StdFailure>(pot(bet) as u128),
        pot(bet) > u128::MAX ==> res == Err::<u128, StdFailure>(
            StdFailure::Overflow { operation: OverflowOperation::Mul, operand1: bet, operand2: 2 },
        ),
{
    match uint128_checked_mul(bet, 2) {
        Some(total) => Ok(total),
        None => Err(StdFailure::Overflow { operation: OverflowOperation::Mul, operand1: bet, operand2: 2 }),
    }
}

/// The creator reveals a choice for a joined game; the round is decided and
/// settled. The winner is paid both pots less the house's share; on a draw
/// each player gets the native bet back.
pub fn execute_reveal(
    game: Game,
    config: Result<Config, StdFailure>,
    env: &Env,
    info: &MessageInfo,
    game_id: u64,
    choice: u8,
) -> (res: GameStep)
    requires
        !reveal_panics(game, config, *env, *info),
    ensures
        res@ == reveal_outcome(game, config, *env, *info, game_id, choice, Ok(reveal_transfer_json(game, config, choice))),
{
    if game.status != GameStatus::Joined {
        return GameStep { saved_game: None, result: Err(ContractError::GameNotAvailable {}) };
    }
    if env.block_time > game.timeout_at {
        let mut game = game;
        game.status = GameStatus::Timeout;
        return GameStep { saved_game: Some(game), result: Err(ContractError::GameTimeout {}) };
    }
    if info.sender != game.creator {
        return GameStep { saved_game: None, result: Err(ContractError::Unauthorized {}) };
    }
    let joiner_choice = match game.joiner_choice {
        None => return GameStep { saved_game: None, result: Err(ContractError::GameNotAvailable {}) },
        Some(c) => c,
    };
    let winner = match &game.joiner {
        Some(joiner) => determine_winner(choice, joiner_choice, &game.creator, joiner),
        None => {
            assert(false);
            None
        },
    };
    let config = match config {
        Err(f) => return GameStep { saved_game: None, result: Err(ContractError::Std(f)) },
        Ok(c) => c,
    };
    let total_paxi = match pot_of(game.bet_paxi) {
        Err(f) => return GameStep { saved_game: None, result: Err(ContractError::Std(f)) },
        Ok(t) => t,
    };
    let total_momo = match pot_of(game.bet_momo) {
        Err(f) => return GameStep { saved_game: None, result: Err(ContractError::Std(f)) },
        Ok(t) => t,
    };
    let (fee_paxi, prize_paxi) = match split_pot(total_paxi, config.fee_percentage) {
        Err(f) => return GameStep { saved_game: None, result: Err(ContractError::Std(f)) },
        Ok(p) => p,
    };
    let (fee_momo, prize_momo) = match split_pot(total_momo, config.fee_percentage) {
        Err(f) => return GameStep { saved_game: None, result: Err(ContractError::Std(f)) },
        Ok(p) => p,
    };
    let mut response = Response::new();
    response.add_attribute("action", "reveal".to_owned());
    response.add_attribute("game_id", u128_text(game_id as u128));
    let winner_attr = match &winner {
        Some(w) => w.clone(),
        None => "draw".to_owned(),
    };
    response.add_attribute("winner", winner_attr);
    let ghost attributes = response@.attributes;
    let mut game = game;
    game.creator_choice = Some(choice);
    game.status = GameStatus::Completed;
    let messages = match &winner {
        Some(w) => {
            let momo_transfer = if prize_momo > 0 {
                Some(cw20_transfer_binary(w, prize_momo))
            } else {
                None
            };
            match winner_payout(w, prize_paxi, prize_momo, &config.momo_token, momo_transfer) {
                Err(e) => {
                    game.winner = winner;
                    return GameStep { saved_game: Some(game), result: Err(ContractError::Std(e)) };
                },
                Ok(msgs) => msgs,
            }
        },
        None => {
            let joiner = match &game.joiner {
                Some(j) => j,
                None => {
                    assert(false);
                    &game.creator
                },
            };
            let refund_creator = bank_send(&game.creator, game.bet_paxi);
            let refund_joiner = bank_send(joiner, game.bet_paxi);
            let ghost v1 = refund_creator@;
            let ghost v2 = refund_joiner@;
            let msgs = vec![refund_creator, refund_joiner];
            assert(msgs@.map_values(|m: CosmosMsg| m@) =~= seq![v1, v2]);
            msgs
        },
    };
    game.winner = winner;
    assert(attributes =~= seq![
        ("action"@, "reveal"@),
        ("game_id"@, decimal(game_id as nat)),
        ("winner"@, winner_text(winner)),
    ]);
    let response = Response { messages, attributes: response.attributes };
    GameStep { saved_game: Some(game), result: Ok(response) }
}


// ---------------------------------------------------------------------------
// Claiming a timed-out game
// ---------------------------------------------------------------------------

/// What claiming a timed-out game does.
pub open spec fn claim_timeout_outcome(game: Game, info: MessageInfo, game_id: u64) -> GameStepView {
    if game.status != GameStatus::Timeout {
        refused(ContractError::GameNotAvailable {})
    } else if info.sender@ != game.creator@ {
        refused(ContractError::Unauthorized {})
    } else {
        GameStepView {
            saved_game: Some(Game { status: GameStatus::Completed, ..game }),
            result: Ok(ResponseView {
                messages: seq![bank_send_view(game.creator@, game.bet_paxi)],
                attributes: seq![("action"@, "claim_timeout"@), ("game_id"@, decimal(game_id as nat))],
            }),
        }
    }
}

/// The creator of a timed-out game takes the native bet back and closes it.
pub fn execute_claim_timeout(game: Game, info: &MessageInfo, game_id: u64) -> (res: GameStep)
    ensures
        res@ == claim_timeout_outcome(game, *info, game_id),
{
    if game.status != GameStatus::Timeout {
        return GameStep { saved_game: None, result: Err(ContractError::GameNotAvailable {}) };
    }
    if info.sender != game.creator {
        return GameStep { saved_game: None, result: Err(ContractError::Unauthorized {}) };
    }
    let refund = bank_send(&game.creator, game.bet_paxi);
    let mut response = Response::new();
    response.add_message(refund);
    response.add_attribute("action", "claim_timeout".to_owned());
    response.add_attribute("game_id", u128_text(game_id as u128));
    let mut game = game;
    game.status = GameStatus::Completed;
    let ghost rv = response@;
    assert(rv.messages =~= seq![bank_send_view(game.creator@, game.bet_paxi)]);
    assert(rv.attributes =~= seq![("action"@, "claim_timeout"@), ("game_id"@, decimal(game_id as nat))]);
    GameStep { saved_game: Some(game), result: Ok(response) }
}

// ---------------------------------------------------------------------------
// Configuration
// ---------------------------------------------------------------------------

/// The message of the error that refuses a fee above 100 percent.
pub open spec fn fee_too_high_msg() -> Seq<char> {
    "Fee percentage cannot exceed 100"@
}

/// Whether an update asks for a fee above 100 percent.
pub open spec fn fee_rejected(fee_percentage: Option<u64>) -> bool {
    fee_percentage matches Some(p) && p > 100
}

/// A configuration that was stored, with the answer to send.
pub struct ConfigUpdate {
    pub config: Config,
    pub response: Response,
}

/// The configuration after an update with the given optional values.
pub open spec fn updated_config(config: Config, fee_percentage: Option<u64>, min_bet_paxi: Option<u128>, min_bet_momo: Option<u128>) -> Config {
    Config {
        fee_percentage: match fee_percentage { Some(p) => p, None => config.fee_percentage },
        min_bet_paxi: match min_bet_paxi { Some(m) => m, None => config.min_bet_paxi },
        min_bet_momo: match min_bet_momo { Some(m) => m, None => config.min_bet_momo },
        ..config
    }
}

/// The answer to a configuration update.
pub open spec fn update_config_response(config: Config) -> ResponseView {
    ResponseView {
        messages: Seq::empty(),
        attributes: seq![
            ("action"@, "update_config"@),
            ("fee_percentage"@, decimal(config.fee_percentage as nat)),
            ("min_bet_paxi"@, decimal(config.min_bet_paxi as nat)),
            ("min_bet_momo"@, decimal(config.min_bet_momo as nat)),
        ],
    }
}

/// The admin changes the fee and the minimum bets; a value that is not given
/// stays. A fee above 100 percent is refused.
pub fn execute_update_config(
    config: Config,
    info: &MessageInfo,
    fee_percentage: Option<u64>,
    min_bet_paxi: Option<u128>,
    min_bet_momo: Option<u128>,
) -> (res: Result<ConfigUpdate, ContractError>)
    ensures
        info.sender@ != config.admin@ ==> res == Err::<ConfigUpdate, ContractError>(ContractError::Unauthorized {}),
        info.sender@ == config.admin@ && fee_rejected(fee_percentage) ==> (
            res matches Err(ContractError::Std(StdFailure::GenericErr { msg })) && msg@ == fee_too_high_msg()),
        info.sender@ == config.admin@ && !fee_rejected(fee_percentage) ==> (
            res matches Ok(u) && u.config == updated_config(config, fee_percentage, min_bet_paxi, min_bet_momo)
                && u.response@ == update_config_response(u.config)),
{
    if info.sender != config.admin {
        return Err(ContractError::Unauthorized {});
    }
    let mut config = config;
    if let Some(percent) = fee_percentage {
        if percent > 100 {
            return Err(ContractError::Std(StdFailure::GenericErr { msg: "Fee percentage cannot exceed 100".to_owned() }));
        }
        config.fee_percentage = percent;
    }
    if let Some(min) = min_bet_paxi {
        config.min_bet_paxi = min;
    }
    if let Some(min) = min_bet_momo {
        config.min_bet_momo = min;
    }
    let mut response = Response::new();
    response.add_attribute("action", "update_config".to_owned());
    response.add_attribute("fee_percentage", u128_text(config.fee_percentage as u128));
    response.add_attribute("min_bet_paxi", uint128_text(config.min_bet_paxi));
    response.add_attribute("min_bet_momo", uint128_text(config.min_bet_momo));
    assert(response@.messages =~= update_config_response(config).messages);
    assert(response@.attributes =~= update_config_response(config).attributes);
    Ok(ConfigUpdate { config, response })
}

/// The state that instantiation stores, with the answer to send.
pub struct Instantiated {
    pub config: Config,
    pub game_counter: u64,
    pub response: Response,
}

/// Sets the contract up: the sender becomes admin, the (validated) token
/// address and the rules are stored, and no game exists yet.
pub fn instantiate(sender: &String, momo_token: String, msg: &crate::msg::InstantiateMsg) -> (res: Instantiated)
    ensures
        res.config == (Config {
            admin: *sender,
            momo_token: momo_token,
            fee_percentage: msg.fee_percentage,
            min_bet_paxi: msg.min_bet_paxi,
            min_bet_momo: msg.min_bet_momo,
        }),
        res.game_counter == 0,
        res.response@ == (ResponseView {
            messages: Seq::empty(),
            attributes: seq![("action"@, "instantiate"@), ("admin"@, sender@), ("momo_token"@, momo_token@)],
        }),
{
    let ghost token = momo_token;
    let mut response = Response::new();
    response.add_attribute("action", "instantiate".to_owned());
    response.add_attribute("admin", sender.clone());
    response.add_attribute("momo_token", momo_token.clone());
    let config = Config {
        admin: sender.clone(),
        momo_token,
        fee_percentage: msg.fee_percentage,
        min_bet_paxi: msg.min_bet_paxi,
        min_bet_momo: msg.min_bet_momo,
    };
    assert(response@.messages =~= Seq::<CosmosMsgView>::empty());
    assert(response@.attributes =~= seq![("action"@, "instantiate"@), ("admin"@, sender@), ("momo_token"@, token@)]);
    Instantiated { config, game_counter: 0, response }
}

} // verus!
