use page::decimal::{parse_bounded_detailed, ParseFailure};
use page::feed::approval_item_from;
use page::hotornot::{bet_step, like_failed, settled_amount, toggle_like, BetCoin, BetStep, VoteResult};
use page::leaderboard::{format_date, podium_wanted, sticky_user_row, tournament_to_fetch};
use page::missions::{lit_segments, MissionProgress, MissionState};
use page::moderation::{approval_step, verdict_given, ModerationVerdict};
use page::principal::principal_text_or_anonymous;
use page::profile::{profile_save_messages, profile_save_request, ProfileReply};
use page::pumpdump::{games_count_from_text, player_count_from_text};
use page::wallet::{destination_from_text, sats_from_input};

#[test]
fn starting_state_carries_the_given_login_time() {
    let s = MissionState::with_login_time("2025-01-01T00:00:00+00:00".to_string());
    assert_eq!(s.user_stats.last_login_date.as_deref(), Some("2025-01-01T00:00:00+00:00"));
    assert_eq!(s.user_stats.total_yral_earned, 50);
    assert_eq!(s.user_stats.current_login_streak, 5);
    assert_eq!(s.missions.len(), 4);
    assert!(s.active_modal.is_none());
}

#[test]
fn login_records_both_times() {
    let mut s = MissionState::with_login_time("t0".to_string());
    assert!(!s.record_login("t1".to_string(), "t2".to_string()));
    let m = s.get_mission("login_streak").unwrap();
    assert_eq!(m.last_updated.as_deref(), Some("t1"));
    assert_eq!(m.progress.current, 6);
    assert_eq!(s.user_stats.last_login_date.as_deref(), Some("t2"));
    assert_eq!(s.user_stats.current_login_streak, 1);
}

#[test]
fn oversized_segment_count_draws_no_bar() {
    let p = MissionProgress::new(3, 7);
    assert!(lit_segments(&p, u32::MAX).is_empty());
    assert_eq!(lit_segments(&p, 4), vec![true, true, true, false]);
}

#[test]
fn principals_are_read_through_candid() {
    assert_eq!(principal_text_or_anonymous("aaaaa-aa"), "aaaaa-aa");
    assert_eq!(principal_text_or_anonymous("aaaaa-aa-"), "2vxsx-fae");
    assert_eq!(principal_text_or_anonymous("AAAAA-AA"), "aaaaa-aa");
    assert_eq!(principal_text_or_anonymous("garbage"), "2vxsx-fae");
    let item = approval_item_from("vid".to_string(), "RRKAH-FQAAA-AAAAA-AAAAQ-CAI", "7".to_string(), "x");
    assert_eq!(item.video_uid, "vid");
    assert_eq!(item.post_id, "7");
    assert_eq!(item.canister_id, "rrkah-fqaaa-aaaaa-aaaaq-cai");
    assert_eq!(item.publisher_user_id, "2vxsx-fae");
}

#[test]
fn won_amount_includes_the_bet() {
    assert_eq!(settled_amount(VoteResult::Win { win_amt: 8 }, 10), (true, 18));
    assert_eq!(settled_amount(VoteResult::Loss { lose_amt: 10 }, 10), (false, 10));
}

#[test]
fn bet_decision() {
    assert_eq!(bet_step(false, BetCoin::C5, BetCoin::C1, 5, 100, None), BetStep::ShowLoginNudge);
    assert_eq!(bet_step(false, BetCoin::C1, BetCoin::C1, 1, 100, None), BetStep::PlaceBet);
    assert_eq!(bet_step(true, BetCoin::C50, BetCoin::C1, 50, 10, None), BetStep::RefreshBalance);
    assert_eq!(bet_step(true, BetCoin::C50, BetCoin::C1, 50, 10, Some(20)), BetStep::ShowLowBalance);
    assert_eq!(bet_step(true, BetCoin::C50, BetCoin::C1, 50, 10, Some(50)), BetStep::PlaceBet);
}

#[test]
fn failed_like_flips_the_heart_back() {
    let (liked, likes, _) = toggle_like(Some(false), 4);
    assert_eq!((liked, likes), (Some(true), 5));
    assert_eq!(like_failed(liked), Some(false));
    assert_eq!(like_failed(None), None);
}

#[test]
fn tournament_page_rules() {
    assert_eq!(tournament_to_fetch(""), Err("No tournament ID provided".to_string()));
    assert_eq!(tournament_to_fetch("t-1"), Ok("t-1".to_string()));
    assert!(podium_wanted("completed", "t-1"));
    assert!(!podium_wanted("completed", ""));
    assert!(!podium_wanted("active", "t-1"));
    assert!(sticky_user_row(false, Some(4)));
    assert!(!sticky_user_row(false, Some(3)));
    assert!(!sticky_user_row(true, Some(10)));
    assert!(!sticky_user_row(false, None));
}

#[test]
fn tournament_dates() {
    assert_eq!(format_date(0), "Jan 01");
    assert_eq!(format_date(1431648000), "May 15");
}

#[test]
fn approval_steps() {
    let mut done: Vec<(String, ModerationVerdict)> = Vec::new();
    let mut idx = 3usize;
    assert!(!approval_step(false, Some(true), ModerationVerdict::Approve, "v1", &mut done, &mut idx));
    assert_eq!((done.len(), idx), (0, 3));
    assert!(!approval_step(true, Some(false), ModerationVerdict::Approve, "v1", &mut done, &mut idx));
    assert!(!approval_step(true, None, ModerationVerdict::Approve, "v1", &mut done, &mut idx));
    assert_eq!((done.len(), idx), (0, 3));
    assert!(approval_step(true, Some(true), ModerationVerdict::Approve, "v1", &mut done, &mut idx));
    assert_eq!(idx, 4);
    assert_eq!(verdict_given(&done, "v1"), Some(ModerationVerdict::Approve));
    assert_eq!(verdict_given(&done, "v2"), None);
    assert!(approval_step(true, Some(true), ModerationVerdict::Disapprove, "v1", &mut done, &mut idx));
    assert_eq!(done.len(), 1);
    assert_eq!(verdict_given(&done, "v1"), Some(ModerationVerdict::Disapprove));
}

#[test]
fn profile_save_flow() {
    assert_eq!(
        profile_save_request("b".to_string(), "bad url".to_string(), true, true),
        Err("Invalid URL format".to_string())
    );
    assert_eq!(
        profile_save_request("b".to_string(), "x.com".to_string(), false, true),
        Err("Not authenticated".to_string())
    );
    assert_eq!(
        profile_save_request("b".to_string(), "x.com".to_string(), true, false),
        Err("Profile update not available for this account type".to_string())
    );
    assert_eq!(
        profile_save_request("".to_string(), "x.com".to_string(), true, true),
        Ok((None, Some("https://x.com".to_string())))
    );
    assert_eq!(
        profile_save_request("hi".to_string(), "".to_string(), true, true),
        Ok((Some("hi".to_string()), None))
    );
    assert_eq!(
        profile_save_messages(ProfileReply::Saved),
        (None, Some("Profile updated successfully!".to_string()))
    );
    assert_eq!(
        profile_save_messages(ProfileReply::Refused("nope".to_string())),
        (Some("Update failed: nope".to_string()), None)
    );
    assert_eq!(
        profile_save_messages(ProfileReply::NetworkError),
        (Some("Network error. Please try again.".to_string()), None)
    );
}

#[test]
fn counts_are_parsed_like_std() {
    assert_eq!(player_count_from_text("12"), Ok(12));
    for bad in ["", "+", "-1", "1x", "99999999999999999999", "99999999999999999999x", "x99999999999999999999"] {
        let std_err = bad.parse::<u64>().unwrap_err().to_string();
        assert_eq!(
            player_count_from_text(bad),
            Err(format!("Couldn't parse player count from response: {std_err}"))
        );
    }
    assert_eq!(games_count_from_text("+7"), Ok(7));
    assert_eq!(parse_bounded_detailed("", 10), Err(ParseFailure::Empty));
    assert_eq!(parse_bounded_detailed("11", 10), Err(ParseFailure::PosOverflow));
}

#[test]
fn withdrawal_sats_fit_the_platform_word() {
    assert_eq!(sats_from_input("1500"), 1500usize);
    assert_eq!(sats_from_input("abc"), 0usize);
}

#[test]
fn transfer_destination_is_a_principal() {
    assert_eq!(
        destination_from_text("RRKAH-FQAAA-AAAAA-AAAAQ-CAI"),
        Ok("rrkah-fqaaa-aaaaa-aaaaq-cai".to_string())
    );
    assert_eq!(destination_from_text("nope"), Err("Invalid principal".to_string()));
    assert_eq!(destination_from_text(""), Err("Invalid principal".to_string()));
}

#[test]
fn clock_stamps_are_utc_rfc3339() {
    let s = MissionState::new();
    let d = s.user_stats.last_login_date.unwrap();
    assert!(d.len() >= 25 && d.ends_with("+00:00") && d.as_bytes()[10] == b'T');
    let mut s = MissionState::new();
    s.increment_login_streak();
    let m = s.get_mission("login_streak").unwrap();
    assert!(m.last_updated.as_ref().unwrap().ends_with("+00:00"));
}
