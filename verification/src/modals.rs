//! The modals that mission events open: their titles, descriptions,
//! icons, buttons and progress bars, and the choice of modal by kind.
use vstd::prelude::*;
use crate::decimal::{decimal, u32_to_string};
use crate::missions::{login_modal, position_of, MissionProgress, MissionState};

verus! {

/// The look of a modal button.
#[derive(Clone, Copy, Debug, PartialEq, Eq, Structural)]
pub enum ButtonStyle {
    /// Gradient pink-to-purple button.
    Primary,
    /// White button with purple text.
    Secondary,
}

/// The picture shown at the top of a modal.
#[derive(Clone, Copy, Debug, PartialEq, Eq, Structural)]
pub enum ModalIcon {
    VideoCards,
    VideoCardsComplete,
    Medal,
    TargetComplete,
    TargetWithCard,
    Flame,
    LightningCoin,
    LightningCoinFlame,
    Megaphone,
    MegaphoneComplete,
}

/// A button of a modal: its label and its look.
#[derive(Clone, Debug)]
pub struct ButtonConfig {
    pub text: String,
    pub style: ButtonStyle,
}

/// Everything a mission modal shows.
#[derive(Clone, Debug)]
pub struct ModalConfig {
    pub title: String,
    pub description: String,
    pub icon: ModalIcon,
    pub buttons: Vec<ButtonConfig>,
    pub progress_bar: Option<(u32, u32)>,
}

/// Whether `b` reads `text` and looks like `style`.
pub open spec fn button_is(b: ButtonConfig, text: Seq<char>, style: ButtonStyle) -> bool {
    b.text@ == text && b.style == style
}

/// An amount followed by its token, as in "30 YRAL".
pub open spec fn amount_text(amount: u32, token: Seq<char>) -> Seq<char> {
    decimal(amount as nat) + " "@ + token
}

/// The steps still missing for a progress record.
pub open spec fn remaining(p: MissionProgress) -> nat {
    (p.total - p.current) as nat
}

/// The modal with the given title, description, icon, single button and
/// progress bar.
pub open spec fn modal_one_button(
    c: ModalConfig,
    title: Seq<char>,
    description: Seq<char>,
    icon: ModalIcon,
    text: Seq<char>,
    style: ButtonStyle,
    progress_bar: Option<(u32, u32)>,
) -> bool {
    &&& c.title@ == title
    &&& c.description@ == description
    &&& c.icon == icon
    &&& c.buttons@.len() == 1
    &&& button_is(c.buttons@[0], text, style)
    &&& c.progress_bar == progress_bar
}

/// The modal with the given title, description, icon, the two buttons
/// "Claim 5 <token>" and "View Missions", and progress bar.
pub open spec fn modal_claim_five(
    c: ModalConfig,
    title: Seq<char>,
    description: Seq<char>,
    icon: ModalIcon,
    token: Seq<char>,
    progress_bar: Option<(u32, u32)>,
) -> bool {
    &&& c.title@ == title
    &&& c.description@ == description
    &&& c.icon == icon
    &&& c.buttons@.len() == 2
    &&& button_is(c.buttons@[0], "Claim 5 "@ + token, ButtonStyle::Primary)
    &&& button_is(c.buttons@[1], "View Missions"@, ButtonStyle::Secondary)
    &&& c.progress_bar == progress_bar
}

pub open spec fn is_progress_modal(c: ModalConfig, p: MissionProgress, reward: u32, token: Seq<char>) -> bool {
    modal_one_button(
        c,
        decimal(p.current as nat) + " Down, "@ + decimal(remaining(p)) + " to Go!"@,
        "Awesome start—you've generated your first AI video. Create "@ + decimal(remaining(p))
            + " more to get <span class='font-semibold text-white'>"@ + amount_text(reward, token)
            + "</span>.<br />Keep the creativity flowing!"@,
        ModalIcon::VideoCards,
        "View Missions"@,
        ButtonStyle::Secondary,
        None,
    )
}

pub open spec fn is_completion_modal(c: ModalConfig, reward: u32, token: Seq<char>) -> bool {
    modal_one_button(
        c,
        "Mission Completed!"@,
        "You crushed your mission!<br />Your reward is ready. Tap below to grab it!"@,
        ModalIcon::VideoCardsComplete,
        "Claim "@ + amount_text(reward, token),
        ButtonStyle::Primary,
        None,
    )
}

pub open spec fn is_halfway_modal(c: ModalConfig, p: MissionProgress, reward: u32, token: Seq<char>) -> bool {
    modal_one_button(
        c,
        "You are halfway there!"@,
        "You've played "@ + decimal(p.current as nat) + " games today—just "@ + decimal(
            remaining(p),
        ) + " more to go to win <span class='font-semibold text-white'>"@ + amount_text(
            reward,
            token,
        ) + "</span>.<br />Complete your mission within the next 24 hours."@,
        ModalIcon::Medal,
        "View Missions"@,
        ButtonStyle::Secondary,
        None,
    )
}

pub open spec fn is_target_complete_modal(c: ModalConfig, reward: u32, token: Seq<char>) -> bool {
    modal_one_button(
        c,
        "Mission Complete!"@,
        "You crushed 10 games in a day!<br />Your reward is ready. Tap below to grab it!"@,
        ModalIcon::TargetComplete,
        "Claim "@ + amount_text(reward, token),
        ButtonStyle::Primary,
        None,
    )
}

pub open spec fn is_almost_there_modal(c: ModalConfig, p: MissionProgress, reward: u32, token: Seq<char>) -> bool {
    modal_claim_five(
        c,
        "You are almost there!"@,
        "Keep up your daily streak. Only "@ + decimal(remaining(p)) + " more logins to hit the "@
            + decimal(p.total as nat) + "-day milestone and win <span class='font-semibold text-white'>"@
            + amount_text(reward, token)
            + "!</span><br /><span class='text-sm'>Miss a day and your streak resets.</span>"@,
        ModalIcon::TargetWithCard,
        token,
        Some((p.current, p.total)),
    )
}

pub open spec fn is_streak_modal(c: ModalConfig, p: MissionProgress, token: Seq<char>) -> bool {
    modal_claim_five(
        c,
        "You're on a streak!"@,
        "Earn 5 "@ + token + " for logging in today.<br />Keep the streak going to win additional 30 "@
            + token + " tokens on Day "@ + decimal(p.total as nat)
            + "!<br /><span class='text-sm'>Miss a day and your streak resets.</span>"@,
        ModalIcon::Flame,
        token,
        Some((p.current, p.total)),
    )
}

pub open spec fn is_daily_reward_modal(c: ModalConfig, token: Seq<char>) -> bool {
    modal_claim_five(
        c,
        "Your Daily Reward Awaits!"@,
        "Claim your 5 "@ + token
            + " tokens for today and keep your streak alive!<br /><span class='text-sm'>Miss a day and your streak resets.</span>"@,
        ModalIcon::LightningCoin,
        token,
        None,
    )
}

pub open spec fn is_streak_complete_modal(c: ModalConfig, reward: u32, token: Seq<char>) -> bool {
    modal_one_button(
        c,
        "Streak Complete!"@,
        "You've reached the 7th day!<br />Claim now to complete your streak and get your "@
            + amount_text(reward, token) + " tokens."@,
        ModalIcon::LightningCoinFlame,
        "Claim "@ + amount_text(reward, token),
        ButtonStyle::Primary,
        None,
    )
}

pub open spec fn is_refer_earn_modal(c: ModalConfig, p: MissionProgress, reward: u32, token: Seq<char>) -> bool {
    modal_one_button(
        c,
        "Refer & Earn!"@,
        "Awesome start—you've started your referral journey. Invite "@ + decimal(remaining(p))
            + " more friends and win <span class='font-semibold text-white'>"@ + amount_text(
            reward,
            token,
        ) + " tokens</span>."@,
        ModalIcon::Megaphone,
        "View Missions"@,
        ButtonStyle::Secondary,
        Some((p.current, p.total)),
    )
}

pub open spec fn is_referral_complete_modal(c: ModalConfig, reward: u32, token: Seq<char>) -> bool {
    modal_one_button(
        c,
        "Mission Complete!"@,
        "You've referred 3 friends — now it's time to claim your <span class='font-semibold text-white'>"@
            + amount_text(reward, token) + "</span>."@,
        ModalIcon::MegaphoneComplete,
        "Claim "@ + amount_text(reward, token),
        ButtonStyle::Primary,
        None,
    )
}

/// The modal kinds whose text counts the steps still missing.
pub open spec fn kind_counts_remaining(kind: Seq<char>) -> bool {
    kind == "progress"@ || kind == "halfway"@ || kind == "almost_there"@ || kind == "refer_earn"@
}

/// The modal kinds that have a configuration.
pub open spec fn is_known_kind(kind: Seq<char>) -> bool {
    ||| kind == "progress"@
    ||| kind == "completion"@
    ||| kind == "halfway"@
    ||| kind == "target_complete"@
    ||| kind == "almost_there"@
    ||| kind == "streak"@
    ||| kind == "daily_reward"@
    ||| kind == "streak_complete"@
    ||| kind == "refer_earn"@
    ||| kind == "referral_complete"@
}

/// An amount followed by its token.
fn amount_string(amount: u32, token: &str) -> (s: String)
    ensures
        s@ == amount_text(amount, token@),
{
    let mut s = u32_to_string(amount);
    s.append(" ");
    s.append(token);
    s
}

/// A one-button list.
fn one_button(text: String, style: ButtonStyle) -> (v: Vec<ButtonConfig>)
    ensures
        v@.len() == 1,
        button_is(v@[0], text@, style),
{
    let mut v: Vec<ButtonConfig> = Vec::new();
    v.push(ButtonConfig { text, style });
    v
}

/// The "Claim 5 <token>" and "View Missions" buttons.
fn claim_five_buttons(token: &str) -> (v: Vec<ButtonConfig>)
    ensures
        v@.len() == 2,
        button_is(v@[0], "Claim 5 "@ + token@, ButtonStyle::Primary),
        button_is(v@[1], "View Missions"@, ButtonStyle::Secondary),
{
    let mut claim = String::from_str("Claim 5 ");
    claim.append(token);
    let mut v: Vec<ButtonConfig> = Vec::new();
    v.push(ButtonConfig { text: claim, style: ButtonStyle::Primary });
    v.push(ButtonConfig { text: String::from_str("View Missions"), style: ButtonStyle::Secondary });
    v
}

/// "Claim <amount> <token>".
fn claim_text(amount: u32, token: &str) -> (s: String)
    ensures
        s@ == "Claim "@ + amount_text(amount, token@),
{
    let mut s = String::from_str("Claim ");
    s.append(amount_string(amount, token).as_str());
    s
}

/// The modal for progress on the AI video mission.
pub fn create_progress_modal(progress: &MissionProgress, reward_amount: u32, reward_token: &str) -> (c: ModalConfig)
    requires
        progress.current <= progress.total,
    ensures
        is_progress_modal(c, *progress, reward_amount, reward_token@),
{
    let rem = u32_to_string(progress.total - progress.current);
    let mut title = u32_to_string(progress.current);
    title.append(" Down, ");
    title.append(rem.as_str());
    title.append(" to Go!");
    let mut description = String::from_str(
        "Awesome start—you've generated your first AI video. Create ",
    );
    description.append(rem.as_str());
    description.append(" more to get <span class='font-semibold text-white'>");
    description.append(amount_string(reward_amount, reward_token).as_str());
    description.append("</span>.<br />Keep the creativity flowing!");
    ModalConfig {
        title,
        description,
        icon: ModalIcon::VideoCards,
        buttons: one_button(String::from_str("View Missions"), ButtonStyle::Secondary),
        progress_bar: None,
    }
}

/// The modal for a completed AI video mission.
pub fn create_completion_modal(reward_amount: u32, reward_token: &str) -> (c: ModalConfig)
    ensures
        is_completion_modal(c, reward_amount, reward_token@),
{
    ModalConfig {
        title: String::from_str("Mission Completed!"),
        description: String::from_str(
            "You crushed your mission!<br />Your reward is ready. Tap below to grab it!",
        ),
        icon: ModalIcon::VideoCardsComplete,
        buttons: one_button(claim_text(reward_amount, reward_token), ButtonStyle::Primary),
        progress_bar: None,
    }
}

/// The modal for a games mission that is half done.
pub fn create_halfway_modal(progress: &MissionProgress, reward_amount: u32, reward_token: &str) -> (c: ModalConfig)
    requires
        progress.current <= progress.total,
    ensures
        is_halfway_modal(c, *progress, reward_amount, reward_token@),
{
    let mut description = String::from_str("You've played ");
    description.append(u32_to_string(progress.current).as_str());
    description.append(" games today—just ");
    description.append(u32_to_string(progress.total - progress.current).as_str());
    description.append(" more to go to win <span class='font-semibold text-white'>");
    description.append(amount_string(reward_amount, reward_token).as_str());
    description.append("</span>.<br />Complete your mission within the next 24 hours.");
    ModalConfig {
        title: String::from_str("You are halfway there!"),
        description,
        icon: ModalIcon::Medal,
        buttons: one_button(String::from_str("View Missions"), ButtonStyle::Secondary),
        progress_bar: None,
    }
}

/// The modal for a completed games mission.
pub fn create_target_complete_modal(reward_amount: u32, reward_token: &str) -> (c: ModalConfig)
    ensures
        is_target_complete_modal(c, reward_amount, reward_token@),
{
    ModalConfig {
        title: String::from_str("Mission Complete!"),
        description: String::from_str(
            "You crushed 10 games in a day!<br />Your reward is ready. Tap below to grab it!",
        ),
        icon: ModalIcon::TargetComplete,
        buttons: one_button(claim_text(reward_amount, reward_token), ButtonStyle::Primary),
        progress_bar: None,
    }
}

/// The modal for a login streak close to its milestone.
pub fn create_almost_there_modal(progress: &MissionProgress, reward_amount: u32, reward_token: &str) -> (c: ModalConfig)
    requires
        progress.current <= progress.total,
    ensures
        is_almost_there_modal(c, *progress, reward_amount, reward_token@),
{
    let mut description = String::from_str("Keep up your daily streak. Only ");
    description.append(u32_to_string(progress.total - progress.current).as_str());
    description.append(" more logins to hit the ");
    description.append(u32_to_string(progress.total).as_str());
    description.append("-day milestone and win <span class='font-semibold text-white'>");
    description.append(amount_string(reward_amount, reward_token).as_str());
    description.append(
        "!</span><br /><span class='text-sm'>Miss a day and your streak resets.</span>",
    );
    ModalConfig {
        title: String::from_str("You are almost there!"),
        description,
        icon: ModalIcon::TargetWithCard,
        buttons: claim_five_buttons(reward_token),
        progress_bar: Some((progress.current, progress.total)),
    }
}

/// The modal for an active login streak.
pub fn create_streak_modal(progress: &MissionProgress, reward_token: &str) -> (c: ModalConfig)
    ensures
        is_streak_modal(c, *progress, reward_token@),
{
    let mut description = String::from_str("Earn 5 ");
    description.append(reward_token);
    description.append(
        " for logging in today.<br />Keep the streak going to win additional 30 ",
    );
    description.append(reward_token);
    description.append(" tokens on Day ");
    description.append(u32_to_string(progress.total).as_str());
    description.append(
        "!<br /><span class='text-sm'>Miss a day and your streak resets.</span>",
    );
    ModalConfig {
        title: String::from_str("You're on a streak!"),
        description,
        icon: ModalIcon::Flame,
        buttons: claim_five_buttons(reward_token),
        progress_bar: Some((progress.current, progress.total)),
    }
}

/// The modal for the daily login reward.
pub fn create_daily_reward_modal(reward_token: &str) -> (c: ModalConfig)
    ensures
        is_daily_reward_modal(c, reward_token@),
{
    let mut description = String::from_str("Claim your 5 ");
    description.append(reward_token);
    description.append(
        " tokens for today and keep your streak alive!<br /><span class='text-sm'>Miss a day and your streak resets.</span>",
    );
    ModalConfig {
        title: String::from_str("Your Daily Reward Awaits!"),
        description,
        icon: ModalIcon::LightningCoin,
        buttons: claim_five_buttons(reward_token),
        progress_bar: None,
    }
}

/// The modal for a completed login streak.
pub fn create_streak_complete_modal(reward_amount: u32, reward_token: &str) -> (c: ModalConfig)
    ensures
        is_streak_complete_modal(c, reward_amount, reward_token@),
{
    let mut description = String::from_str(
        "You've reached the 7th day!<br />Claim now to complete your streak and get your ",
    );
    description.append(amount_string(reward_amount, reward_token).as_str());
    description.append(" tokens.");
    ModalConfig {
        title: String::from_str("Streak Complete!"),
        description,
        icon: ModalIcon::LightningCoinFlame,
        buttons: one_button(claim_text(reward_amount, reward_token), ButtonStyle::Primary),
        progress_bar: None,
    }
}

/// The modal for progress on the referral mission.
pub fn create_refer_earn_modal(progress: &MissionProgress, reward_amount: u32, reward_token: &str) -> (c: ModalConfig)
    requires
        progress.current <= progress.total,
    ensures
        is_refer_earn_modal(c, *progress, reward_amount, reward_token@),
{
    let mut description = String::from_str(
        "Awesome start—you've started your referral journey. Invite ",
    );
    description.append(u32_to_string(progress.total - progress.current).as_str());
    description.append(" more friends and win <span class='font-semibold text-white'>");
    description.append(amount_string(reward_amount, reward_token).as_str());
    description.append(" tokens</span>.");
    ModalConfig {
        title: String::from_str("Refer & Earn!"),
        description,
        icon: ModalIcon::Megaphone,
        buttons: one_button(String::from_str("View Missions"), ButtonStyle::Secondary),
        progress_bar: Some((progress.current, progress.total)),
    }
}

/// The modal for a completed referral mission.
pub fn create_referral_complete_modal(reward_amount: u32, reward_token: &str) -> (c: ModalConfig)
    ensures
        is_referral_complete_modal(c, reward_amount, reward_token@),
{
    let mut description = String::from_str(
        "You've referred 3 friends — now it's time to claim your <span class='font-semibold text-white'>",
    );
    description.append(amount_string(reward_amount, reward_token).as_str());
    description.append("</span>.");
    ModalConfig {
        title: String::from_str("Mission Complete!"),
        description,
        icon: ModalIcon::MegaphoneComplete,
        buttons: one_button(claim_text(reward_amount, reward_token), ButtonStyle::Primary),
        progress_bar: None,
    }
}

/// Whether two strings hold the same characters.
fn same_text(a: &str, b: &str) -> (r: bool)
    ensures
        r == (a@ == b@),
{
    String::from_str(a) == String::from_str(b)
}

/// The ten modal kinds are told apart by their length or first letter.
proof fn lemma_kinds_distinct()
    ensures
        "progress"@.len() == 8,
        "completion"@.len() == 10 && "completion"@[0] == 'c',
        "halfway"@.len() == 7,
        "target_complete"@.len() == 15 && "target_complete"@[0] == 't',
        "almost_there"@.len() == 12 && "almost_there"@[0] == 'a',
        "streak"@.len() == 6,
        "daily_reward"@.len() == 12 && "daily_reward"@[0] == 'd',
        "streak_complete"@.len() == 15 && "streak_complete"@[0] == 's',
        "refer_earn"@.len() == 10 && "refer_earn"@[0] == 'r',
        "referral_complete"@.len() == 17,
{
    reveal_strlit("progress");
    reveal_strlit("completion");
    reveal_strlit("halfway");
    reveal_strlit("target_complete");
    reveal_strlit("almost_there");
    reveal_strlit("streak");
    reveal_strlit("daily_reward");
    reveal_strlit("streak_complete");
    reveal_strlit("refer_earn");
    reveal_strlit("referral_complete");
}

/// The configuration of the modal of kind `modal_type`, or nothing for a
/// kind without one.
pub fn get_modal_config(
    modal_type: &str,
    progress: &MissionProgress,
    reward_amount: u32,
    reward_token: &str,
) -> (r: Option<ModalConfig>)
    requires
        kind_counts_remaining(modal_type@) ==> progress.current <= progress.total,
    ensures
        r is Some <==> is_known_kind(modal_type@),
        modal_type@ == "progress"@ ==> is_progress_modal(r->0, *progress, reward_amount, reward_token@),
        modal_type@ == "completion"@ ==> is_completion_modal(r->0, reward_amount, reward_token@),
        modal_type@ == "halfway"@ ==> is_halfway_modal(r->0, *progress, reward_amount, reward_token@),
        modal_type@ == "target_complete"@ ==> is_target_complete_modal(r->0, reward_amount, reward_token@),
        modal_type@ == "almost_there"@ ==> is_almost_there_modal(r->0, *progress, reward_amount, reward_token@),
        modal_type@ == "streak"@ ==> is_streak_modal(r->0, *progress, reward_token@),
        modal_type@ == "daily_reward"@ ==> is_daily_reward_modal(r->0, reward_token@),
        modal_type@ == "streak_complete"@ ==> is_streak_complete_modal(r->0, reward_amount, reward_token@),
        modal_type@ == "refer_earn"@ ==> is_refer_earn_modal(r->0, *progress, reward_amount, reward_token@),
        modal_type@ == "referral_complete"@ ==> is_referral_complete_modal(r->0, reward_amount, reward_token@),
{
    proof {
        lemma_kinds_distinct();
    }
    if same_text(modal_type, "progress") {
        Some(create_progress_modal(progress, reward_amount, reward_token))
    } else if same_text(modal_type, "completion") {
        Some(create_completion_modal(reward_amount, reward_token))
    } else if same_text(modal_type, "halfway") {
        Some(create_halfway_modal(progress, reward_amount, reward_token))
    } else if same_text(modal_type, "target_complete") {
        Some(create_target_complete_modal(reward_amount, reward_token))
    } else if same_text(modal_type, "almost_there") {
        Some(create_almost_there_modal(progress, reward_amount, reward_token))
    } else if same_text(modal_type, "streak") {
        Some(create_streak_modal(progress, reward_token))
    } else if same_text(modal_type, "daily_reward") {
        Some(create_daily_reward_modal(reward_token))
    } else if same_text(modal_type, "streak_complete") {
        Some(create_streak_complete_modal(reward_amount, reward_token))
    } else if same_text(modal_type, "refer_earn") {
        Some(create_refer_earn_modal(progress, reward_amount, reward_token))
    } else if same_text(modal_type, "referral_complete") {
        Some(create_referral_complete_modal(reward_amount, reward_token))
    } else {
        None
    }
}

/// Every modal kind that a mission action opens has a configuration, and
/// after the action's step the progress never exceeds its target, so the
/// modal's text can count the steps still missing.
pub proof fn lemma_opened_modals_have_config(p: MissionProgress)
    requires
        p.current < u32::MAX,
    ensures
        ({
            let (q, just) = p.spec_increment(1);
            &&& q.current <= q.total
            &&& is_known_kind(login_modal(just, q.current))
            &&& is_known_kind("target_complete"@) && is_known_kind("halfway"@)
            &&& is_known_kind("completion"@) && is_known_kind("progress"@)
            &&& is_known_kind("referral_complete"@) && is_known_kind("refer_earn"@)
        }),
{
}

/// The configuration of the modal the mission state has open: the modal's
/// kind applied to the progress and reward of the mission it names;
/// nothing when no modal is open, its mission is unknown, or its kind has
/// no configuration.
pub fn active_modal_config(state: &MissionState) -> (r: Option<ModalConfig>)
    requires
        match state.active_modal {
            Some((id, kind)) => position_of(state.missions@, id@) >= 0 && kind_counts_remaining(
                kind@,
            ) ==> state.missions@[position_of(state.missions@, id@)].progress.current
                <= state.missions@[position_of(state.missions@, id@)].progress.total,
            None => true,
        },
    ensures
        match state.active_modal {
            None => r is None,
            Some((id, kind)) => {
                let i = position_of(state.missions@, id@);
                if i < 0 {
                    r is None
                } else {
                    let m = state.missions@[i];
                    &&& (r is Some <==> is_known_kind(kind@))
                    &&& kind@ == "progress"@ ==> is_progress_modal(
                        r->0,
                        m.progress,
                        m.config.reward_amount,
                        m.config.reward_token@,
                    )
                    &&& kind@ == "completion"@ ==> is_completion_modal(
                        r->0,
                        m.config.reward_amount,
                        m.config.reward_token@,
                    )
                    &&& kind@ == "halfway"@ ==> is_halfway_modal(
                        r->0,
                        m.progress,
                        m.config.reward_amount,
                        m.config.reward_token@,
                    )
                    &&& kind@ == "target_complete"@ ==> is_target_complete_modal(
                        r->0,
                        m.config.reward_amount,
                        m.config.reward_token@,
                    )
                    &&& kind@ == "almost_there"@ ==> is_almost_there_modal(
                        r->0,
                        m.progress,
                        m.config.reward_amount,
                        m.config.reward_token@,
                    )
                    &&& kind@ == "streak"@ ==> is_streak_modal(
                        r->0,
                        m.progress,
                        m.config.reward_token@,
                    )
                    &&& kind@ == "daily_reward"@ ==> is_daily_reward_modal(
                        r->0,
                        m.config.reward_token@,
                    )
                    &&& kind@ == "streak_complete"@ ==> is_streak_complete_modal(
                        r->0,
                        m.config.reward_amount,
                        m.config.reward_token@,
                    )
                    &&& kind@ == "refer_earn"@ ==> is_refer_earn_modal(
                        r->0,
                        m.progress,
                        m.config.reward_amount,
                        m.config.reward_token@,
                    )
                    &&& kind@ == "referral_complete"@ ==> is_referral_complete_modal(
                        r->0,
                        m.config.reward_amount,
                        m.config.reward_token@,
                    )
                }
            },
        },
{
    match &state.active_modal {
        None => None,
        Some((id, kind)) => match state.get_mission(id.as_str()) {
            None => None,
            Some(mission) => get_modal_config(
                kind.as_str(),
                &mission.progress,
                mission.config.reward_amount,
                mission.config.reward_token.as_str(),
            ),
        },
    }
}

} // verus!
