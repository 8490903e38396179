use page::missions::{
    card_button_disabled, lit_segments, mission_tap, progress_text, Mission, MissionConfig,
    MissionProgress, MissionState, MissionTap, UserStats,
};

fn config(id: &str, reward: u32, auto_reset_daily: bool) -> MissionConfig {
    MissionConfig {
        id: id.to_string(),
        title: "t".to_string(),
        description: "d".to_string(),
        button_text: "b".to_string(),
        info_text: "i".to_string(),
        reward_amount: reward,
        reward_token: "YRAL".to_string(),
        mission_type: id.to_string(),
        segments: None,
        auto_reset_daily,
    }
}

#[test]
fn progress_new_marks_completion() {
    let p = MissionProgress::new(3, 3);
    assert!(p.completed);
    let q = MissionProgress::new(2, 3);
    assert!(!q.completed);
    assert!(!q.is_claimable());
}

#[test]
fn progress_increment_caps_and_reports_once() {
    let mut p = MissionProgress::new(2, 3);
    assert!(p.increment(5));
    assert_eq!(p.current, 3);
    assert!(p.completed);
    assert!(!p.increment(1));
    assert_eq!(p.current, 3);
}

#[test]
fn progress_above_target_is_brought_back() {
    let mut p = MissionProgress::new(5, 3);
    assert!(!p.increment(0));
    assert_eq!(p.current, 3);
}

#[test]
fn progress_reset_clears() {
    let mut p = MissionProgress::new(3, 3);
    p.reset();
    assert_eq!(p, MissionProgress { current: 0, total: 3, completed: false });
}

#[test]
fn claim_is_taken_once_without_daily_reset() {
    let mut m = Mission::new(config("referral", 15, false), MissionProgress::new(3, 3));
    assert!(m.is_claimable());
    assert!(m.claim_reward());
    assert!(m.claimed);
    assert!(m.progress.completed);
    assert!(!m.claim_reward());
}

#[test]
fn claim_with_daily_reset_starts_over() {
    let mut m = Mission::new(config("play_games", 10, true), MissionProgress::new(10, 10));
    m.streak_count = 4;
    assert!(m.claim_reward());
    assert!(!m.claimed);
    assert_eq!(m.progress.current, 0);
    assert!(!m.progress.completed);
    assert_eq!(m.streak_count, 4);
    assert!(!m.claim_reward());
}

#[test]
fn claim_fails_when_incomplete() {
    let mut m = Mission::new(config("referral", 15, false), MissionProgress::new(1, 3));
    assert!(!m.claim_reward());
    assert!(!m.claimed);
}

#[test]
fn record_progress_stamps_time() {
    let mut m = Mission::new(config("referral", 15, false), MissionProgress::new(2, 3));
    assert!(m.record_progress(1, "2024-01-01T00:00:00+00:00".to_string()));
    assert_eq!(m.last_updated.as_deref(), Some("2024-01-01T00:00:00+00:00"));
    assert!(!m.increment_progress(1));
    assert!(m.last_updated.is_some());
}

#[test]
fn default_state_holds_the_four_missions() {
    let s = MissionState::new();
    let ids: Vec<String> = s.missions.iter().map(|m| m.config.id.clone()).collect();
    assert_eq!(ids, vec!["login_streak", "play_games", "generate_videos", "referral"]);
    assert_eq!(s.missions[0].progress, MissionProgress::new(5, 7));
    assert_eq!(s.missions[0].config.segments, Some(7));
    assert_eq!(s.missions[2].config.mission_type, "ai_video");
    assert_eq!(s.missions[2].config.reward_amount, 30);
    assert!(s.active_modal.is_none());
    assert_eq!(s.user_stats.total_yral_earned, 50);
    assert_eq!(s.user_stats.longest_login_streak, 8);
    assert!(s.user_stats.last_login_date.is_some());
    let d = MissionState::default();
    assert_eq!(d.missions.len(), 4);
}

#[test]
fn login_advances_streak_and_opens_almost_there() {
    let mut s = MissionState::new();
    assert!(!s.increment_login_streak());
    let m = s.get_mission("login_streak").unwrap();
    assert_eq!(m.progress.current, 6);
    assert_eq!(m.streak_count, 1);
    assert!(m.last_updated.is_some());
    assert_eq!(s.user_stats.current_login_streak, 1);
    assert_eq!(s.user_stats.longest_login_streak, 8);
    assert_eq!(
        s.active_modal,
        Some(("login_streak".to_string(), "almost_there".to_string()))
    );
    assert!(s.increment_login_streak());
    assert_eq!(
        s.active_modal,
        Some(("login_streak".to_string(), "streak_complete".to_string()))
    );
}

#[test]
fn login_on_fresh_streak_opens_daily_reward_then_streak() {
    let mut s = MissionState::new();
    s.missions[0].progress = MissionProgress::new(0, 7);
    s.increment_login_streak();
    assert_eq!(s.active_modal.as_ref().unwrap().1, "daily_reward");
    s.increment_login_streak();
    assert_eq!(s.active_modal.as_ref().unwrap().1, "streak");
}

#[test]
fn games_videos_and_referrals_open_their_modals() {
    let mut s = MissionState::new();
    assert!(!s.increment_games_played());
    assert_eq!(s.user_stats.games_played_today, 11);
    assert_eq!(s.active_modal.as_ref().unwrap().1, "halfway");
    assert!(!s.increment_videos_generated());
    assert_eq!(s.get_mission("generate_videos").unwrap().progress.current, 2);
    assert_eq!(s.active_modal, Some(("generate_videos".to_string(), "progress".to_string())));
    assert!(s.increment_referrals());
    assert_eq!(s.user_stats.friends_referred, 3);
    assert_eq!(
        s.active_modal,
        Some(("referral".to_string(), "referral_complete".to_string()))
    );
}

#[test]
fn games_below_half_keep_the_open_modal() {
    let mut s = MissionState::new();
    s.missions[1].progress = MissionProgress::new(0, 10);
    s.close_modal();
    assert!(!s.increment_games_played());
    assert!(s.active_modal.is_none());
}

#[test]
fn claims_add_rewards_once() {
    let mut s = MissionState::new();
    s.active_modal = Some(("play_games".to_string(), "target_complete".to_string()));
    assert!(s.claim_mission_reward("play_games"));
    assert_eq!(s.user_stats.total_yral_earned, 60);
    assert!(s.active_modal.is_none());
    let games = s.get_mission("play_games").unwrap();
    assert_eq!(games.progress.current, 0);
    assert!(!s.claim_mission_reward("play_games"));
    assert!(!s.claim_mission_reward("referral"));
    assert!(!s.claim_mission_reward("no_such_mission"));
    assert_eq!(s.user_stats.total_yral_earned, 60);
}

#[test]
fn daily_reset_touches_only_daily_missions() {
    let mut s = MissionState::new();
    s.reset_daily_missions();
    assert_eq!(s.missions[0].progress.current, 5);
    assert_eq!(s.missions[1].progress.current, 0);
    assert_eq!(s.missions[2].progress.current, 0);
    assert_eq!(s.missions[3].progress.current, 2);
    assert_eq!(s.user_stats.games_played_today, 0);
    assert_eq!(s.user_stats.videos_generated_today, 0);
    assert_eq!(s.user_stats.friends_referred, 2);
}

#[test]
fn missing_missions_do_nothing() {
    let mut s = MissionState {
        missions: Vec::new(),
        active_modal: None,
        user_stats: UserStats::default(),
    };
    assert!(!s.increment_login_streak());
    assert!(!s.increment_games_played());
    assert!(s.active_modal.is_none());
    assert_eq!(s.user_stats.games_played_today, 0);
    assert!(s.get_mission("login_streak").is_none());
    assert!(s.get_all_missions().is_empty());
}

#[test]
fn signals_read_the_state() {
    let s = MissionState::new();
    assert_eq!(s.total_earned_signal(), 50);
    assert_eq!(s.current_streak_signal(), 5);
    assert_eq!(s.mission_signal("referral".to_string()).unwrap().config.reward_amount, 15);
    assert_eq!(s.get_all_missions().len(), 4);
}

#[test]
fn card_taps_and_texts() {
    assert_eq!(mission_tap("login_streak", false), MissionTap::Login);
    assert_eq!(mission_tap("ai_video", false), MissionTap::GenerateVideo);
    assert_eq!(mission_tap("play_games", true), MissionTap::ClaimReward);
    assert_eq!(mission_tap("referral", false), MissionTap::ReferFriend);
    assert_eq!(mission_tap("generate_videos", true), MissionTap::Unknown);
    let p = MissionProgress::new(5, 7);
    assert_eq!(progress_text(&p, 7), "Day 5/7");
    assert_eq!(progress_text(&MissionProgress::new(1, 3), 0), "1/3");
    assert_eq!(lit_segments(&p, 7), vec![true, true, true, true, true, false, false]);
    assert!(card_button_disabled(false, &MissionProgress::new(1, 3)));
    assert!(!card_button_disabled(false, &MissionProgress::new(3, 3)));
}
