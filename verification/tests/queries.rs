use rps_game::msg::{self, GameInfo};
use rps_game::query::{query_config, query_game, query_games};
use rps_game::state::{Config, Game, GameStatus};

fn s(x: &str) -> String {
    x.to_string()
}

fn game(status: GameStatus) -> Game {
    Game {
        creator: s("alice"),
        joiner: Some(s("bob")),
        bet_paxi: 100,
        bet_momo: 50,
        creator_choice: Some(0),
        joiner_choice: Some(2),
        status,
        created_at: 1,
        timeout_at: 3601,
        winner: Some(s("alice")),
    }
}

fn info(id: u64, status: msg::GameStatus) -> GameInfo {
    GameInfo {
        game_id: id,
        creator: s("alice"),
        joiner: Some(s("bob")),
        bet_paxi: 100,
        bet_momo: 50,
        status,
        created_at: 1,
        timeout_at: 3601,
        winner: Some(s("alice")),
    }
}

#[test]
fn query_game_reports_the_stored_game() {
    assert_eq!(query_game(7, &game(GameStatus::Completed)), info(7, msg::GameStatus::Completed));
}

#[test]
fn query_games_reports_every_game_in_order() {
    let stored = vec![(1, game(GameStatus::Waiting)), (2, game(GameStatus::Joined)), (5, game(GameStatus::Timeout))];
    assert_eq!(
        query_games(&stored),
        vec![info(1, msg::GameStatus::Waiting), info(2, msg::GameStatus::Joined), info(5, msg::GameStatus::Timeout)]
    );
    assert!(query_games(&vec![]).is_empty());
}

#[test]
fn query_config_reports_the_stored_config() {
    let c = Config { admin: s("a"), momo_token: s("m"), fee_percentage: 4, min_bet_paxi: 5, min_bet_momo: 6 };
    assert_eq!(
        query_config(&c),
        msg::Config { admin: s("a"), momo_token: s("m"), fee_percentage: 4, min_bet_paxi: 5, min_bet_momo: 6 }
    );
}
