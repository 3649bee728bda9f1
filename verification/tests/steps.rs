use rps_game::contract::{
    determine_winner, execute_claim_timeout, execute_create_game, execute_join_game,
    execute_reveal, execute_update_config, instantiate, GameStep,
};
use rps_game::error::{ContractError, OverflowOperation, StdFailure};
use rps_game::msg::InstantiateMsg;
use rps_game::state::{Config, Game, GameStatus};
use rps_game::types::{Attribute, Coin, CosmosMsg, Env, MessageInfo};

fn s(x: &str) -> String {
    x.to_string()
}

fn config(fee: u64) -> Config {
    Config {
        admin: s("admin"),
        momo_token: s("momo"),
        fee_percentage: fee,
        min_bet_paxi: 10,
        min_bet_momo: 20,
    }
}

fn env(time: u64) -> Env {
    Env { block_time: time, contract_address: s("contract") }
}

fn info(sender: &str, funds: Vec<(&str, u128)>) -> MessageInfo {
    MessageInfo {
        sender: s(sender),
        funds: funds.into_iter().map(|(d, a)| Coin { denom: s(d), amount: a }).collect(),
    }
}

fn attrs(pairs: &[(&str, &str)]) -> Vec<Attribute> {
    pairs.iter().map(|(k, v)| Attribute { key: s(k), value: s(v) }).collect()
}

fn bank(to: &str, amount: u128) -> CosmosMsg {
    CosmosMsg::BankSend { to_address: s(to), amount: vec![Coin { denom: s("upaxi"), amount }] }
}

fn waiting_game() -> Game {
    Game {
        creator: s("alice"),
        joiner: None,
        bet_paxi: 100,
        bet_momo: 50,
        creator_choice: None,
        joiner_choice: None,
        status: GameStatus::Waiting,
        created_at: 1000,
        timeout_at: 4600,
        winner: None,
    }
}

fn joined_game(joiner_choice: u8) -> Game {
    Game {
        joiner: Some(s("bob")),
        joiner_choice: Some(joiner_choice),
        status: GameStatus::Joined,
        ..waiting_game()
    }
}

fn response_of(step: &GameStep) -> &rps_game::types::Response {
    match &step.result {
        Ok(r) => r,
        Err(e) => panic!("unexpected error {:?}", e),
    }
}

#[test]
fn winner_follows_rock_paper_scissors() {
    let (c, j) = (s("alice"), s("bob"));
    assert_eq!(determine_winner(0, 2, &c, &j), Some(s("alice")));
    assert_eq!(determine_winner(1, 0, &c, &j), Some(s("alice")));
    assert_eq!(determine_winner(2, 1, &c, &j), Some(s("alice")));
    assert_eq!(determine_winner(2, 0, &c, &j), Some(s("bob")));
    assert_eq!(determine_winner(0, 1, &c, &j), Some(s("bob")));
    assert_eq!(determine_winner(1, 2, &c, &j), Some(s("bob")));
    for x in 0..3u8 {
        assert_eq!(determine_winner(x, x, &c, &j), None);
    }
    assert_eq!(determine_winner(3, 0, &c, &j), None);
    assert_eq!(determine_winner(0, 7, &c, &j), None);
}

#[test]
fn winner_is_symmetric_in_the_players() {
    let (c, j) = (s("alice"), s("bob"));
    for a in 0..5u8 {
        for b in 0..5u8 {
            assert_eq!(determine_winner(a, b, &c, &j), determine_winner(b, a, &j, &c));
        }
    }
}

#[test]
fn create_game_stores_a_waiting_game_and_pulls_the_token_bet() {
    let created = execute_create_game(&config(5), Ok(4), &env(1000), &info("alice", vec![("uatom", 7), ("upaxi", 100)]), 60, 30)
        .unwrap();
    assert_eq!(created.game_id, 5);
    assert_eq!(
        created.game,
        Game {
            creator: s("alice"),
            joiner: None,
            bet_paxi: 60,
            bet_momo: 30,
            creator_choice: None,
            joiner_choice: None,
            status: GameStatus::Waiting,
            created_at: 1000,
            timeout_at: 4600,
            winner: None,
        }
    );
    let expected_msg = br#"{"transfer_from":{"owner":"alice","recipient":"contract","amount":"30"}}"#.to_vec();
    assert_eq!(
        created.response.messages,
        vec![CosmosMsg::WasmExecute { contract_addr: s("momo"), msg: expected_msg, funds: vec![] }]
    );
    assert_eq!(
        created.response.attributes,
        attrs(&[("action", "create_game"), ("game_id", "5"), ("creator", "alice"), ("bet_paxi", "60"), ("bet_momo", "30")])
    );
}

#[test]
fn create_game_refuses_small_bets() {
    let payer = info("alice", vec![("upaxi", 100)]);
    assert_eq!(
        execute_create_game(&config(5), Ok(0), &env(1), &payer, 9, 30).err(),
        Some(ContractError::BetTooSmall { min: 10 })
    );
    assert_eq!(
        execute_create_game(&config(5), Ok(0), &env(1), &payer, 10, 19).err(),
        Some(ContractError::BetTooSmall { min: 20 })
    );
}

#[test]
fn create_game_refuses_missing_or_short_payment() {
    let c = config(5);
    assert_eq!(
        execute_create_game(&c, Ok(0), &env(1), &info("alice", vec![]), 10, 20).err(),
        Some(ContractError::InsufficientFunds {})
    );
    assert_eq!(
        execute_create_game(&c, Ok(0), &env(1), &info("alice", vec![("uatom", 500)]), 10, 20).err(),
        Some(ContractError::InsufficientFunds {})
    );
    // the first coin of the denomination is the one that counts
    assert_eq!(
        execute_create_game(&c, Ok(0), &env(1), &info("alice", vec![("upaxi", 5), ("upaxi", 500)]), 10, 20).err(),
        Some(ContractError::InsufficientFunds {})
    );
    assert!(execute_create_game(&c, Ok(0), &env(1), &info("alice", vec![("upaxi", 10)]), 10, 20).is_ok());
}

#[test]
fn create_game_fails_without_a_counter() {
    let missing = StdFailure::NotFound { kind: s("u64") };
    assert_eq!(
        execute_create_game(&config(5), Err(missing.clone()), &env(1), &info("alice", vec![("upaxi", 10)]), 10, 20).err(),
        Some(ContractError::Std(missing))
    );
}

#[test]
fn join_game_records_the_joiner() {
    let step = execute_join_game(waiting_game(), Ok(config(5)), &env(2000), &info("bob", vec![("upaxi", 100)]), 3, 1);
    assert_eq!(
        step.saved_game,
        Some(Game { joiner: Some(s("bob")), joiner_choice: Some(1), status: GameStatus::Joined, ..waiting_game() })
    );
    let r = response_of(&step);
    let expected_msg = br#"{"transfer_from":{"owner":"bob","recipient":"contract","amount":"50"}}"#.to_vec();
    assert_eq!(r.messages, vec![CosmosMsg::WasmExecute { contract_addr: s("momo"), msg: expected_msg, funds: vec![] }]);
    assert_eq!(r.attributes, attrs(&[("action", "join_game"), ("game_id", "3"), ("joiner", "bob"), ("choice", "1")]));
}

#[test]
fn join_game_refusals() {
    let c = Ok(config(5));
    let bob = info("bob", vec![("upaxi", 100)]);
    let step = execute_join_game(joined_game(0), c.clone(), &env(2000), &bob, 3, 1);
    assert_eq!((step.saved_game, step.result.err()), (None, Some(ContractError::GameNotAvailable {})));
    let step = execute_join_game(waiting_game(), c.clone(), &env(2000), &info("alice", vec![("upaxi", 100)]), 3, 1);
    assert_eq!((step.saved_game, step.result.err()), (None, Some(ContractError::CannotJoinOwnGame {})));
    let step = execute_join_game(waiting_game(), c.clone(), &env(2000), &info("bob", vec![("upaxi", 99)]), 3, 1);
    assert_eq!((step.saved_game, step.result.err()), (None, Some(ContractError::InsufficientFunds {})));
    let missing = StdFailure::NotFound { kind: s("config") };
    let step = execute_join_game(waiting_game(), Err(missing.clone()), &env(2000), &bob, 3, 1);
    assert_eq!((step.saved_game, step.result.err()), (None, Some(ContractError::Std(missing))));
}

#[test]
fn join_after_the_deadline_times_the_game_out() {
    let step = execute_join_game(waiting_game(), Ok(config(5)), &env(4601), &info("bob", vec![("upaxi", 100)]), 3, 1);
    assert_eq!(step.saved_game, Some(Game { status: GameStatus::Timeout, ..waiting_game() }));
    assert_eq!(step.result.err(), Some(ContractError::GameTimeout {}));
    // exactly at the deadline the game is still open
    let step = execute_join_game(waiting_game(), Ok(config(5)), &env(4600), &info("bob", vec![("upaxi", 100)]), 3, 1);
    assert!(step.result.is_ok());
}

#[test]
fn reveal_pays_the_winner_both_pots_less_the_fee() {
    // creator rock (0) against scissors (2): creator wins
    let step = execute_reveal(joined_game(2), Ok(config(5)), &env(2000), &info("alice", vec![]), 3, 0);
    assert_eq!(
        step.saved_game,
        Some(Game { creator_choice: Some(0), status: GameStatus::Completed, winner: Some(s("alice")), ..joined_game(2) })
    );
    let r = response_of(&step);
    let transfer = br#"{"transfer":{"recipient":"alice","amount":"95"}}"#.to_vec();
    assert_eq!(
        r.messages,
        vec![bank("alice", 190), CosmosMsg::WasmExecute { contract_addr: s("momo"), msg: transfer, funds: vec![] }]
    );
    assert_eq!(r.attributes, attrs(&[("action", "reveal"), ("game_id", "3"), ("winner", "alice")]));
}

#[test]
fn reveal_pays_the_joiner_when_the_joiner_wins() {
    // creator scissors (2) against rock (0): joiner wins; fee 10% of 200 = 20, of 100 = 10
    let step = execute_reveal(joined_game(0), Ok(config(10)), &env(2000), &info("alice", vec![]), 8, 2);
    let r = response_of(&step);
    let transfer = br#"{"transfer":{"recipient":"bob","amount":"90"}}"#.to_vec();
    assert_eq!(r.messages, vec![bank("bob", 180), CosmosMsg::WasmExecute { contract_addr: s("momo"), msg: transfer, funds: vec![] }]);
    assert_eq!(r.attributes, attrs(&[("action", "reveal"), ("game_id", "8"), ("winner", "bob")]));
    assert_eq!(step.saved_game.unwrap().winner, Some(s("bob")));
}

#[test]
fn reveal_rounds_the_fee_down() {
    // pots 2*33 = 66 and 2*50 = 100; 7% of 66 is 4.62, taken as 4
    let game = Game { bet_paxi: 33, ..joined_game(2) };
    let step = execute_reveal(game, Ok(config(7)), &env(2000), &info("alice", vec![]), 1, 0);
    let r = response_of(&step);
    assert_eq!(r.messages[0], bank("alice", 62));
}

#[test]
fn reveal_draw_refunds_the_native_bets() {
    let step = execute_reveal(joined_game(1), Ok(config(5)), &env(2000), &info("alice", vec![]), 3, 1);
    let r = response_of(&step);
    assert_eq!(r.messages, vec![bank("alice", 100), bank("bob", 100)]);
    assert_eq!(r.attributes, attrs(&[("action", "reveal"), ("game_id", "3"), ("winner", "draw")]));
    assert_eq!(step.saved_game.unwrap().winner, None);
}

#[test]
fn reveal_with_the_whole_pot_as_fee_sends_nothing() {
    let step = execute_reveal(joined_game(2), Ok(config(100)), &env(2000), &info("alice", vec![]), 3, 0);
    let r = response_of(&step);
    assert!(r.messages.is_empty());
    assert_eq!(step.saved_game.unwrap().status, GameStatus::Completed);
}

#[test]
fn reveal_refusals() {
    let c = Ok(config(5));
    let step = execute_reveal(waiting_game(), c.clone(), &env(2000), &info("alice", vec![]), 3, 0);
    assert_eq!((step.saved_game, step.result.err()), (None, Some(ContractError::GameNotAvailable {})));
    let step = execute_reveal(joined_game(2), c.clone(), &env(2000), &info("bob", vec![]), 3, 0);
    assert_eq!((step.saved_game, step.result.err()), (None, Some(ContractError::Unauthorized {})));
    let step = execute_reveal(joined_game(2), c.clone(), &env(4601), &info("alice", vec![]), 3, 0);
    assert_eq!(step.saved_game, Some(Game { status: GameStatus::Timeout, ..joined_game(2) }));
    assert_eq!(step.result.err(), Some(ContractError::GameTimeout {}));
    let no_choice = Game { joiner_choice: None, ..joined_game(2) };
    let step = execute_reveal(no_choice, c, &env(2000), &info("alice", vec![]), 3, 0);
    assert_eq!((step.saved_game, step.result.err()), (None, Some(ContractError::GameNotAvailable {})));
}

#[test]
fn reveal_overflow_errors() {
    let huge = Game { bet_paxi: u128::MAX, ..joined_game(2) };
    let step = execute_reveal(huge, Ok(config(5)), &env(2000), &info("alice", vec![]), 3, 0);
    assert_eq!(
        (step.saved_game, step.result.err()),
        (None, Some(ContractError::Std(StdFailure::Overflow { operation: OverflowOperation::Mul, operand1: u128::MAX, operand2: 2 })))
    );
    // a fee above 100 percent takes more than the pot
    let step = execute_reveal(joined_game(2), Ok(config(150)), &env(2000), &info("alice", vec![]), 3, 0);
    assert_eq!(
        (step.saved_game, step.result.err()),
        (None, Some(ContractError::Std(StdFailure::Overflow { operation: OverflowOperation::Sub, operand1: 200, operand2: 300 })))
    );
}

#[test]
fn claim_timeout_refunds_the_creator() {
    let timed_out = Game { status: GameStatus::Timeout, ..waiting_game() };
    let step = execute_claim_timeout(timed_out.clone(), &info("alice", vec![]), 4);
    assert_eq!(step.saved_game, Some(Game { status: GameStatus::Completed, ..timed_out.clone() }));
    let r = response_of(&step);
    assert_eq!(r.messages, vec![bank("alice", 100)]);
    assert_eq!(r.attributes, attrs(&[("action", "claim_timeout"), ("game_id", "4")]));
    let step = execute_claim_timeout(timed_out, &info("bob", vec![]), 4);
    assert_eq!((step.saved_game, step.result.err()), (None, Some(ContractError::Unauthorized {})));
    let step = execute_claim_timeout(waiting_game(), &info("alice", vec![]), 4);
    assert_eq!((step.saved_game, step.result.err()), (None, Some(ContractError::GameNotAvailable {})));
}

#[test]
fn completed_games_are_final() {
    let done = Game { status: GameStatus::Completed, creator_choice: Some(0), winner: Some(s("alice")), ..joined_game(2) };
    let step = execute_join_game(done.clone(), Ok(config(5)), &env(2000), &info("carol", vec![("upaxi", 100)]), 3, 1);
    assert_eq!((step.saved_game, step.result.err()), (None, Some(ContractError::GameNotAvailable {})));
    let step = execute_reveal(done.clone(), Ok(config(5)), &env(2000), &info("alice", vec![]), 3, 1);
    assert_eq!((step.saved_game, step.result.err()), (None, Some(ContractError::GameNotAvailable {})));
    let step = execute_claim_timeout(done, &info("alice", vec![]), 3);
    assert_eq!((step.saved_game, step.result.err()), (None, Some(ContractError::GameNotAvailable {})));
}

#[test]
fn update_config_by_the_admin() {
    let u = execute_update_config(config(5), &info("admin", vec![]), Some(7), None, Some(99)).unwrap();
    assert_eq!(u.config, Config { fee_percentage: 7, min_bet_momo: 99, ..config(5) });
    assert!(u.response.messages.is_empty());
    assert_eq!(
        u.response.attributes,
        attrs(&[("action", "update_config"), ("fee_percentage", "7"), ("min_bet_paxi", "10"), ("min_bet_momo", "99")])
    );
    let u = execute_update_config(config(5), &info("admin", vec![]), Some(100), Some(1), None).unwrap();
    assert_eq!(u.config, Config { fee_percentage: 100, min_bet_paxi: 1, ..config(5) });
}

#[test]
fn update_config_refusals() {
    assert_eq!(
        execute_update_config(config(5), &info("alice", vec![]), Some(7), None, None).err(),
        Some(ContractError::Unauthorized {})
    );
    assert_eq!(
        execute_update_config(config(5), &info("admin", vec![]), Some(101), None, None).err(),
        Some(ContractError::Std(StdFailure::GenericErr { msg: s("Fee percentage cannot exceed 100") }))
    );
}

#[test]
fn instantiate_makes_the_sender_admin() {
    let msg = InstantiateMsg { momo_token: s("momo"), fee_percentage: 3, min_bet_paxi: 1, min_bet_momo: 2 };
    let i = instantiate(&s("owner"), s("momo"), &msg);
    assert_eq!(
        i.config,
        Config { admin: s("owner"), momo_token: s("momo"), fee_percentage: 3, min_bet_paxi: 1, min_bet_momo: 2 }
    );
    assert_eq!(i.game_counter, 0);
    assert!(i.response.messages.is_empty());
    assert_eq!(i.response.attributes, attrs(&[("action", "instantiate"), ("admin", "owner"), ("momo_token", "momo")]));
}

#[test]
fn a_full_round_keeps_games_well_formed() {
    let created = execute_create_game(&config(0), Ok(0), &env(10), &info("alice", vec![("upaxi", 100)]), 100, 50).unwrap();
    assert_eq!(created.game.timeout_at, created.game.created_at + 3600);
    let step = execute_join_game(created.game, Ok(config(0)), &env(20), &info("bob", vec![("upaxi", 100)]), 1, 2);
    let joined = step.saved_game.unwrap();
    assert!(joined.joiner.is_some() && joined.joiner_choice.is_some() && joined.creator_choice.is_none());
    let step = execute_reveal(joined, Ok(config(0)), &env(30), &info("alice", vec![]), 1, 0);
    let done = step.saved_game.clone().unwrap();
    assert_eq!(done.status, GameStatus::Completed);
    assert_eq!(done.winner, Some(s("alice")));
    // with no fee the winner takes both whole pots
    assert_eq!(response_of(&step).messages[0], bank("alice", 200));
}

#[test]
fn large_amounts_are_written_in_decimal() {
    let created = execute_create_game(&config(0), Ok(u64::MAX - 1), &env(10), &info("alice", vec![("upaxi", u128::MAX)]), u128::MAX, 20)
        .unwrap();
    assert_eq!(created.game_id, u64::MAX);
    assert_eq!(created.response.attributes[1].value, u64::MAX.to_string());
    assert_eq!(created.response.attributes[3].value, s("340282366920938463463374607431768211455"));
}

#[test]
fn successive_creations_take_successive_ids() {
    let payer = info("alice", vec![("upaxi", 100)]);
    let first = execute_create_game(&config(5), Ok(0), &env(10), &payer, 10, 20).unwrap();
    let second = execute_create_game(&config(5), Ok(first.game_id), &env(11), &payer, 10, 20).unwrap();
    assert_eq!((first.game_id, second.game_id), (1, 2));
    // a refused creation takes no id
    assert!(execute_create_game(&config(5), Ok(second.game_id), &env(12), &payer, 1, 20).is_err());
}

#[test]
fn a_joiner_is_never_the_creator_and_the_winner_is_a_player() {
    let step = execute_join_game(waiting_game(), Ok(config(5)), &env(2000), &info("alice", vec![("upaxi", 100)]), 3, 1);
    assert!(step.saved_game.is_none());
    let step = execute_reveal(joined_game(0), Ok(config(5)), &env(2000), &info("alice", vec![]), 3, 2);
    let g = step.saved_game.unwrap();
    assert!(g.winner == Some(g.creator.clone()) || g.winner == g.joiner);
}
