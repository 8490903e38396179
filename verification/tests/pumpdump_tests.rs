use candid::Principal;
use page::pumpdump::{
    convert_e8s_to_cents, CardQuery, GameResult, GameRunningData, GameState, PlayerData,
};

#[test]
fn game_state_questions() {
    let won = GameState::ResultDeclared(GameResult::Win { amount: 7 });
    let lost = GameState::ResultDeclared(GameResult::Loss { amount: 3 });
    assert_eq!(won.winnings(), Some(7));
    assert_eq!(won.lossings(), None);
    assert!(won.has_won() && !won.has_lost() && !won.is_running());
    assert_eq!(lost.lossings(), Some(3));
    assert!(lost.has_lost());
    assert!(GameState::Playing.is_running());
    assert_eq!(GameState::Playing.winnings(), None);
}

#[test]
fn constructors_keep_values() {
    let d = GameRunningData::from_estimate(1, 2, 30, Some(5));
    assert_eq!(d.player_count, 30);
    assert_eq!(d.winning_pot, Some(5));
    let p = PlayerData::new(4, 900);
    assert_eq!(p.games_count, 4);
    assert_eq!(p.wallet_balance, 900);
}

#[test]
fn card_queries() {
    let root = Principal::anonymous();
    let q = CardQuery { root, state: "win".to_string(), amount: Some(10) };
    assert!(q.is_valid());
    assert_eq!(q.details(), (root, Some(GameResult::Win { amount: 10 })));
    let l = CardQuery { root, state: "loss".to_string(), amount: Some(4) };
    assert_eq!(l.details().1, Some(GameResult::Loss { amount: 4 }));
    let p = CardQuery { root, state: "pending".to_string(), amount: None };
    assert!(p.is_valid());
    assert_eq!(p.details().1, None);
    assert!(!CardQuery { root, state: "pending".to_string(), amount: Some(1) }.is_valid());
    assert!(!CardQuery { root, state: "win".to_string(), amount: None }.is_valid());
    assert!(!CardQuery { root, state: "draw".to_string(), amount: Some(1) }.is_valid());
}

#[test]
fn e8s_become_cents() {
    assert_eq!(convert_e8s_to_cents(&vec![100_000_000]), 100);
    assert_eq!(convert_e8s_to_cents(&vec![999_999]), 0);
    assert_eq!(convert_e8s_to_cents(&vec![]), 0);
    assert_eq!(convert_e8s_to_cents(&vec![0, 1]), 18_446_744_073_709);
    let big = (u64::MAX as u128) * (1u128 << 64) + u64::MAX as u128;
    assert_eq!(convert_e8s_to_cents(&vec![u64::MAX, u64::MAX]), big / 1_000_000);
    assert_eq!(convert_e8s_to_cents(&vec![0, 0, 999_999]), 340282026638571542524911144057160779687u128);
}

