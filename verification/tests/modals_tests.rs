use page::missions::{MissionProgress, MissionState};
use page::modals::{
    active_modal_config, create_almost_there_modal, create_progress_modal,
    create_referral_complete_modal, create_streak_modal, get_modal_config, ButtonStyle, ModalIcon,
};

#[test]
fn progress_modal_counts_what_is_left() {
    let c = create_progress_modal(&MissionProgress::new(1, 3), 30, "YRAL");
    assert_eq!(c.title, "1 Down, 2 to Go!");
    assert_eq!(
        c.description,
        "Awesome start—you've generated your first AI video. Create 2 more to get <span class='font-semibold text-white'>30 YRAL</span>.<br />Keep the creativity flowing!"
    );
    assert_eq!(c.icon, ModalIcon::VideoCards);
    assert_eq!(c.buttons.len(), 1);
    assert_eq!(c.buttons[0].text, "View Missions");
    assert_eq!(c.buttons[0].style, ButtonStyle::Secondary);
    assert_eq!(c.progress_bar, None);
}

#[test]
fn almost_there_modal_has_two_buttons_and_a_bar() {
    let c = create_almost_there_modal(&MissionProgress::new(5, 7), 5, "YRAL");
    assert_eq!(c.title, "You are almost there!");
    assert_eq!(
        c.description,
        "Keep up your daily streak. Only 2 more logins to hit the 7-day milestone and win <span class='font-semibold text-white'>5 YRAL!</span><br /><span class='text-sm'>Miss a day and your streak resets.</span>"
    );
    assert_eq!(c.buttons[0].text, "Claim 5 YRAL");
    assert_eq!(c.buttons[0].style, ButtonStyle::Primary);
    assert_eq!(c.buttons[1].text, "View Missions");
    assert_eq!(c.progress_bar, Some((5, 7)));
}

#[test]
fn streak_modal_names_the_milestone_day() {
    let c = create_streak_modal(&MissionProgress::new(2, 7), "YRAL");
    assert_eq!(
        c.description,
        "Earn 5 YRAL for logging in today.<br />Keep the streak going to win additional 30 YRAL tokens on Day 7!<br /><span class='text-sm'>Miss a day and your streak resets.</span>"
    );
    assert_eq!(c.icon, ModalIcon::Flame);
}

#[test]
fn referral_complete_modal_offers_the_claim() {
    let c = create_referral_complete_modal(15, "YRAL");
    assert_eq!(c.title, "Mission Complete!");
    assert_eq!(c.buttons[0].text, "Claim 15 YRAL");
    assert_eq!(c.icon, ModalIcon::MegaphoneComplete);
}

#[test]
fn every_kind_has_its_modal() {
    let p = MissionProgress::new(2, 3);
    let kinds = [
        ("progress", "2 Down, 1 to Go!"),
        ("completion", "Mission Completed!"),
        ("halfway", "You are halfway there!"),
        ("target_complete", "Mission Complete!"),
        ("almost_there", "You are almost there!"),
        ("streak", "You're on a streak!"),
        ("daily_reward", "Your Daily Reward Awaits!"),
        ("streak_complete", "Streak Complete!"),
        ("refer_earn", "Refer & Earn!"),
        ("referral_complete", "Mission Complete!"),
    ];
    for (kind, title) in kinds {
        let c = get_modal_config(kind, &p, 10, "YRAL").expect("known kind");
        assert_eq!(c.title, title);
    }
    assert!(get_modal_config("celebration", &p, 10, "YRAL").is_none());
}

#[test]
fn halfway_and_completion_texts() {
    let p = MissionProgress::new(5, 10);
    let c = get_modal_config("halfway", &p, 10, "YRAL").unwrap();
    assert_eq!(
        c.description,
        "You've played 5 games today—just 5 more to go to win <span class='font-semibold text-white'>10 YRAL</span>.<br />Complete your mission within the next 24 hours."
    );
    let d = get_modal_config("completion", &p, 30, "YRAL").unwrap();
    assert_eq!(d.buttons[0].text, "Claim 30 YRAL");
    let r = get_modal_config("refer_earn", &MissionProgress::new(1, 3), 15, "YRAL").unwrap();
    assert_eq!(
        r.description,
        "Awesome start—you've started your referral journey. Invite 2 more friends and win <span class='font-semibold text-white'>15 YRAL tokens</span>."
    );
    let s = get_modal_config("streak_complete", &p, 30, "YRAL").unwrap();
    assert_eq!(
        s.description,
        "You've reached the 7th day!<br />Claim now to complete your streak and get your 30 YRAL tokens."
    );
    let daily = get_modal_config("daily_reward", &p, 5, "YRAL").unwrap();
    assert_eq!(
        daily.description,
        "Claim your 5 YRAL tokens for today and keep your streak alive!<br /><span class='text-sm'>Miss a day and your streak resets.</span>"
    );
}

#[test]
fn active_modal_follows_the_mission_state() {
    let mut s = MissionState::new();
    assert!(active_modal_config(&s).is_none());
    s.increment_login_streak();
    let c = active_modal_config(&s).unwrap();
    assert_eq!(c.title, "You are almost there!");
    assert_eq!(c.progress_bar, Some((6, 7)));
    s.active_modal = Some(("unknown".to_string(), "streak".to_string()));
    assert!(active_modal_config(&s).is_none());
}
