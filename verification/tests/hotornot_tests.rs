use page::hotornot::{
    balance_after_vote, check_bet_amount, coin_disabled, coin_for_vote_amount, comparison_query,
    is_insufficient_funds, login_nudge_needed, needs_balance_refresh, nsfw_tap,
    pick_comparison_value, previous_uid_literal, result_lines, sentiment_of, separate_scores,
    toggle_like, BetCoin, CoinState, HotOrNot, NsfwAction, VoteKind,
};

#[test]
fn coins_cycle_both_ways() {
    assert_eq!(CoinState::C50.wrapping_next(), CoinState::C100);
    assert_eq!(CoinState::C200.wrapping_next(), CoinState::C50);
    assert_eq!(CoinState::C50.wrapping_prev(), CoinState::C200);
    assert_eq!(CoinState::C100.wrapping_next().wrapping_prev(), CoinState::C100);
    assert_eq!(CoinState::C200.to_u64(), 200);
}

#[test]
fn settled_amount_picks_its_coin() {
    assert_eq!(coin_for_vote_amount(1), BetCoin::C1);
    assert_eq!(coin_for_vote_amount(20), BetCoin::C20);
    assert_eq!(coin_for_vote_amount(200), BetCoin::C200);
    assert_eq!(coin_for_vote_amount(7), BetCoin::C50);
}

#[test]
fn coin_greying_and_login_nudge() {
    assert!(coin_disabled(false, false, BetCoin::C5));
    assert!(!coin_disabled(false, false, BetCoin::C1));
    assert!(coin_disabled(true, true, BetCoin::C1));
    assert!(login_nudge_needed(false, BetCoin::C10, BetCoin::C1));
    assert!(!login_nudge_needed(true, BetCoin::C10, BetCoin::C1));
}

#[test]
fn result_lines_with_and_without_direction() {
    let (a, b) = result_lines(true, "60", None, 0);
    assert_eq!(a, "You won 60 YRAL");
    assert_eq!(b, "Tap ? to see how it works");
    let (a, b) = result_lines(true, "60", Some(VoteKind::Hot), 3);
    assert_eq!(a, "You voted \"Hot\" - Spot on!");
    assert_eq!(b, "You won 60 YRAL, creator gets 3 YRAL");
    let (a, b) = result_lines(false, "10", Some(VoteKind::Not), 0);
    assert_eq!(a, "You voted \"Not\" - wrong vote.");
    assert_eq!(b, "You lost 10 YRAL");
}

#[test]
fn equal_scores_are_pulled_apart() {
    assert_eq!(separate_scores(50, 50, true, true), (51, 50));
    assert_eq!(separate_scores(50, 50, false, true), (50, 51));
    assert_eq!(separate_scores(50, 40, true, true), (50, 40));
}

#[test]
fn bets_above_the_limit_are_refused() {
    assert!(check_bet_amount(200, 200).is_ok());
    assert_eq!(
        check_bet_amount(500, 200).unwrap_err(),
        "bet amount exceeds maximum allowed: 500 > 200"
    );
}

#[test]
fn comparison_query_text() {
    let prev = previous_uid_literal(Some("abc"));
    assert_eq!(prev, "'abc'");
    assert_eq!(previous_uid_literal(None), "NULL");
    assert_eq!(
        comparison_query("xyz", &prev),
        "select hot_or_not_evaluator.compare_videos_hot_or_not_v3('xyz', 'abc')"
    );
    assert_eq!(sentiment_of(true), HotOrNot::Hot);
    assert_eq!(sentiment_of(false), HotOrNot::Not);
}

#[test]
fn comparison_value_is_the_last_one() {
    let v = vec![vec![vec![Some("a".to_string())]], vec![vec![None, Some("b".to_string())]]];
    assert_eq!(pick_comparison_value(v), Ok("b".to_string()));
    assert_eq!(
        pick_comparison_value(vec![]).unwrap_err(),
        "hot_or_not_evaluator.compare_videos_hot_or_not_v3 MUST return a result"
    );
    assert_eq!(
        pick_comparison_value(vec![vec![]]).unwrap_err(),
        "hot_or_not_evaluator.compare_videos_hot_or_not_v3 MUST return a row"
    );
    assert_eq!(
        pick_comparison_value(vec![vec![vec![]]]).unwrap_err(),
        "hot_or_not_evaluator.compare_videos_hot_or_not_v3 MUST return a value"
    );
    assert_eq!(
        pick_comparison_value(vec![vec![vec![None]]]).unwrap_err(),
        "hot_or_not_evaluator.compare_videos_hot_or_not_v3 returned no value"
    );
}

#[test]
fn balance_rules() {
    assert!(needs_balance_refresh(50, 20));
    assert!(!needs_balance_refresh(20, 20));
    assert_eq!(balance_after_vote(Some(99), 50, 20), 99);
    assert_eq!(balance_after_vote(None, 50, 20), 30);
    assert!(is_insufficient_funds("vote failed: InsufficientFunds(10)"));
    assert!(!is_insufficient_funds("Insufficient funds"));
}

#[test]
fn likes_toggle_and_restore() {
    assert_eq!(toggle_like(None, 4), (Some(true), 5, true));
    assert_eq!(toggle_like(Some(true), 5), (Some(false), 4, false));
    assert_eq!(toggle_like(Some(false), 4), (Some(true), 5, true));
}

#[test]
fn nsfw_switch() {
    assert_eq!(nsfw_tap(true, None, false), NsfwAction::Nothing);
    assert_eq!(nsfw_tap(false, None, false), NsfwAction::AskPermission);
    assert_eq!(nsfw_tap(false, Some(false), true), NsfwAction::EnableAndReload);
    assert_eq!(nsfw_tap(false, Some(true), false), NsfwAction::DisableAndReload);
}
