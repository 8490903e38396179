//! Daily missions: progress of one mission, a mission with its reward, the
//! player's statistics, and the whole mission state with the actions the
//! pages dispatch (logins, games, videos, referrals, claims, daily reset).
use vstd::prelude::*;
use crate::clock::{is_utc_rfc3339, now_rfc3339};
use crate::mission_keys::{ids_distinct, lemma_same_ids_keep_distinct, same_ids};
use crate::decimal::{decimal, u32_to_string};

verus! {

/// The smaller of two integers.
pub open spec fn min_int(a: int, b: int) -> int {
    if a <= b {
        a
    } else {
        b
    }
}

/// The larger of two integers.
pub open spec fn max_int(a: int, b: int) -> int {
    if a >= b {
        a
    } else {
        b
    }
}

/// How far a mission has come: `current` steps out of `total`.
#[derive(Clone, Copy, Debug, PartialEq, Eq, Structural)]
pub struct MissionProgress {
    pub current: u32,
    pub total: u32,
    pub completed: bool,
}

impl MissionProgress {
    /// A progress record whose `completed` flag says whether `current` reached `total`.
    pub open spec fn spec_new(current: u32, total: u32) -> MissionProgress {
        MissionProgress { current, total, completed: current >= total }
    }

    /// The `completed` flag agrees with the counters.
    pub open spec fn is_consistent(self) -> bool {
        self.completed == (self.current >= self.total)
    }

    /// The progress after `amount` more steps, capped at `total`, and whether
    /// that step turned an incomplete mission into a complete one.
    pub open spec fn spec_increment(self, amount: u32) -> (MissionProgress, bool) {
        let cur = min_int(self.current + amount, self.total as int);
        let next = MissionProgress { current: cur as u32, total: self.total, completed: cur >= self.total };
        (next, !self.completed && next.completed)
    }

    /// The progress with its counter back at zero.
    pub open spec fn spec_reset(self) -> MissionProgress {
        MissionProgress { current: 0, total: self.total, completed: false }
    }

    pub fn new(current: u32, total: u32) -> (p: Self)
        ensures
            p == Self::spec_new(current, total),
    {
        Self { current, total, completed: current >= total }
    }

    /// Adds `amount` steps, never going past `total`; returns whether this
    /// call completed the mission.
    pub fn increment(&mut self, amount: u32) -> (just_completed: bool)
        requires
            old(self).current + amount <= u32::MAX,
        ensures
            (*final(self), just_completed) == old(self).spec_increment(amount),
    {
        let was_completed = self.completed;
        let sum = self.current + amount;
        self.current = if sum <= self.total { sum } else { self.total };
        self.completed = self.current >= self.total;
        !was_completed && self.completed
    }

    pub fn reset(&mut self)
        ensures
            *final(self) == old(self).spec_reset(),
    {
        self.current = 0;
        self.completed = false;
    }

    pub fn is_claimable(&self) -> (r: bool)
        ensures
            r == self.completed,
    {
        self.completed
    }
}

/// Incrementing adds the amount to the counter, stopping at the target:
/// the new counter is the old one plus `amount` when that stays within
/// `total`, else `total`; the target never changes, the record is complete
/// exactly when the counter reached the target, and the step reports
/// completion exactly when it completed a record that was not complete.
pub proof fn lemma_increment_adds_amount(p: MissionProgress, amount: u32)
    requires
        p.current + amount <= u32::MAX,
    ensures
        ({
            let (q, just) = p.spec_increment(amount);
            &&& p.current + amount <= p.total ==> q.current == p.current + amount
            &&& p.current + amount > p.total ==> q.current == p.total
            &&& q.total == p.total
            &&& q.completed == (q.current >= p.total)
            &&& just == (!p.completed && q.current >= p.total)
        }),
{
}

/// A fresh progress record is consistent.
pub proof fn lemma_new_progress_consistent(current: u32, total: u32)
    ensures
        MissionProgress::spec_new(current, total).is_consistent(),
{
}

/// Incrementing keeps the record consistent, never goes past `total`, and
/// never takes the counter back below where it was unless it stood above
/// `total`.
pub proof fn lemma_increment_bounded(p: MissionProgress, amount: u32)
    requires
        p.current + amount <= u32::MAX,
    ensures
        p.spec_increment(amount).0.is_consistent(),
        p.spec_increment(amount).0.current <= p.total,
        p.spec_increment(amount).0.total == p.total,
        p.current <= p.total ==> p.current <= p.spec_increment(amount).0.current,
{
}

/// Completion is reported once: after a step that completed the mission,
/// no further step reports it again.
pub proof fn lemma_completion_reported_once(p: MissionProgress, a: u32, b: u32)
    requires
        p.current + a <= u32::MAX,
        p.spec_increment(a).1,
        p.spec_increment(a).0.current + b <= u32::MAX,
    ensures
        !p.spec_increment(a).0.spec_increment(b).1,
{
}

/// After a reset the record is consistent whenever the target is positive.
pub proof fn lemma_reset_consistent(p: MissionProgress)
    requires
        p.total > 0,
    ensures
        p.spec_reset().is_consistent(),
        !p.spec_reset().completed,
{
}


/// The fixed description of a mission: its texts, its reward and whether
/// its progress starts over every day.
#[derive(Clone, Debug, PartialEq)]
pub struct MissionConfig {
    pub id: String,
    pub title: String,
    pub description: String,
    pub button_text: String,
    pub info_text: String,
    pub reward_amount: u32,
    pub reward_token: String,
    pub mission_type: String,
    pub segments: Option<u32>,
    pub auto_reset_daily: bool,
}

impl MissionConfig {
    /// A field-by-field copy.
    pub fn duplicate(&self) -> (r: Self)
        ensures
            r == *self,
    {
        MissionConfig {
            id: self.id.clone(),
            title: self.title.clone(),
            description: self.description.clone(),
            button_text: self.button_text.clone(),
            info_text: self.info_text.clone(),
            reward_amount: self.reward_amount,
            reward_token: self.reward_token.clone(),
            mission_type: self.mission_type.clone(),
            segments: self.segments,
            auto_reset_daily: self.auto_reset_daily,
        }
    }
}

/// A copy of an optional text.
fn duplicate_text(t: &Option<String>) -> (r: Option<String>)
    ensures
        r == *t,
{
    match t {
        Some(s) => Some(s.clone()),
        None => None,
    }
}

/// A mission: its configuration, its progress, when it last moved, the
/// streak it carries and whether its reward was taken.
#[derive(Clone, Debug, PartialEq)]
pub struct Mission {
    pub config: MissionConfig,
    pub progress: MissionProgress,
    pub last_updated: Option<String>,
    pub streak_count: u32,
    pub claimed: bool,
}

impl Mission {
    /// A reward can be taken once the mission is complete and before it is taken.
    pub open spec fn spec_is_claimable(self) -> bool {
        self.progress.completed && !self.claimed
    }

    /// The mission with its progress back at zero and its reward open again;
    /// the streak is kept.
    pub open spec fn spec_reset_progress(self) -> Mission {
        Mission { progress: self.progress.spec_reset(), claimed: false, ..self }
    }

    /// The mission after a claim, and whether the claim succeeded.
    pub open spec fn spec_claim(self) -> (Mission, bool) {
        if self.spec_is_claimable() {
            let taken = Mission { claimed: true, ..self };
            if self.config.auto_reset_daily {
                (taken.spec_reset_progress(), true)
            } else {
                (taken, true)
            }
        } else {
            (self, false)
        }
    }

    /// The mission after `amount` more steps recorded at time `at`, and
    /// whether those steps completed it.
    pub open spec fn spec_record(self, amount: u32, at: String) -> (Mission, bool) {
        let (p, just) = self.progress.spec_increment(amount);
        (Mission { progress: p, last_updated: Some(at), ..self }, just)
    }

    pub fn new(config: MissionConfig, progress: MissionProgress) -> (m: Self)
        ensures
            m.config == config,
            m.progress == progress,
            m.last_updated is None,
            m.streak_count == 0,
            !m.claimed,
    {
        Self { config, progress, last_updated: None, streak_count: 0, claimed: false }
    }

    /// A field-by-field copy.
    pub fn duplicate(&self) -> (r: Self)
        ensures
            r == *self,
    {
        Mission {
            config: self.config.duplicate(),
            progress: self.progress,
            last_updated: duplicate_text(&self.last_updated),
            streak_count: self.streak_count,
            claimed: self.claimed,
        }
    }

    pub fn is_claimable(&self) -> (r: bool)
        ensures
            r == self.spec_is_claimable(),
    {
        self.progress.completed && !self.claimed
    }

    /// Takes the reward if it can be taken; a mission that resets daily
    /// starts over at once. Returns whether the reward was taken.
    pub fn claim_reward(&mut self) -> (taken: bool)
        ensures
            (*final(self), taken) == old(self).spec_claim(),
    {
        if self.is_claimable() {
            self.claimed = true;
            if self.config.auto_reset_daily {
                self.reset_progress();
            }
            return true;
        }
        false
    }

    /// Puts the progress back to zero and opens the reward again; the
    /// streak count is kept.
    pub fn reset_progress(&mut self)
        ensures
            *final(self) == old(self).spec_reset_progress(),
    {
        self.progress.reset();
        self.claimed = false;
    }

    /// Records `amount` more steps made at time `at`; returns whether they
    /// completed the mission.
    pub fn record_progress(&mut self, amount: u32, at: String) -> (just_completed: bool)
        requires
            old(self).progress.current + amount <= u32::MAX,
        ensures
            (*final(self), just_completed) == old(self).spec_record(amount, at),
    {
        let just_completed = self.progress.increment(amount);
        self.last_updated = Some(at);
        just_completed
    }

    /// Records `amount` more steps made now; returns whether they completed
    /// the mission. The timestamp is the clock's current time.
    pub fn increment_progress(&mut self, amount: u32) -> (just_completed: bool)
        requires
            old(self).progress.current + amount <= u32::MAX,
        ensures
            final(self).last_updated is Some,
            is_utc_rfc3339(final(self).last_updated->0@),
            (*final(self), just_completed) == old(self).spec_record(
                amount,
                final(self).last_updated->0,
            ),
    {
        let now = now_rfc3339();
        self.record_progress(amount, now)
    }
}

/// A reward is taken at most once: right after a successful claim, a
/// second claim fails.
pub proof fn lemma_claim_at_most_once(m: Mission)
    requires
        m.spec_claim().1,
    ensures
        !m.spec_claim().0.spec_claim().1,
{
}

/// A failed claim changes nothing, and a claim succeeds exactly when the
/// mission is claimable.
pub proof fn lemma_claim_success_iff_claimable(m: Mission)
    ensures
        m.spec_claim().1 == m.spec_is_claimable(),
        !m.spec_claim().1 ==> m.spec_claim().0 == m,
{
}

/// Resetting a mission keeps its configuration and its streak.
pub proof fn lemma_reset_keeps_config_and_streak(m: Mission)
    ensures
        m.spec_reset_progress().config == m.config,
        m.spec_reset_progress().streak_count == m.streak_count,
        !m.spec_reset_progress().spec_is_claimable(),
{
}


/// The player's running statistics.
#[derive(Clone, Debug)]
pub struct UserStats {
    pub total_yral_earned: u32,
    pub current_login_streak: u32,
    pub longest_login_streak: u32,
    pub games_played_today: u32,
    pub videos_generated_today: u32,
    pub friends_referred: u32,
    pub last_login_date: Option<String>,
}

impl Default for UserStats {
    fn default() -> (s: Self)
        ensures
            s.total_yral_earned == 0,
            s.current_login_streak == 0,
            s.longest_login_streak == 0,
            s.games_played_today == 0,
            s.videos_generated_today == 0,
            s.friends_referred == 0,
            s.last_login_date is None,
    {
        UserStats {
            total_yral_earned: 0,
            current_login_streak: 0,
            longest_login_streak: 0,
            games_played_today: 0,
            videos_generated_today: 0,
            friends_referred: 0,
            last_login_date: None,
        }
    }
}

/// The index of the first mission whose id is `id`, or -1 when there is none.
pub open spec fn position_of(s: Seq<Mission>, id: Seq<char>) -> int
    decreases s.len(),
{
    if s.len() == 0 {
        -1
    } else if s[0].config.id@ == id {
        0
    } else {
        let p = position_of(s.drop_first(), id);
        if p < 0 {
            -1
        } else {
            p + 1
        }
    }
}

/// `position_of` finds the first mission with the id, and reports -1 only
/// when no mission has it.
pub proof fn lemma_position_of(s: Seq<Mission>, id: Seq<char>)
    ensures
        -1 <= position_of(s, id) < s.len(),
        position_of(s, id) >= 0 ==> s[position_of(s, id)].config.id@ == id,
        forall|j: int| 0 <= j < position_of(s, id) ==> s[j].config.id@ != id,
        position_of(s, id) < 0 ==> forall|j: int| 0 <= j < s.len() ==> s[j].config.id@ != id,
    decreases s.len(),
{
    if s.len() > 0 && s[0].config.id@ != id {
        lemma_position_of(s.drop_first(), id);
        let p = position_of(s.drop_first(), id);
        assert forall|j: int| 0 < j < s.len() implies s[j] == s.drop_first()[j - 1] by {}
    }
}

/// The first index whose mission has id `id`, when the missions in front
/// of `i` all have other ids.
proof fn lemma_position_from_scan(s: Seq<Mission>, id: Seq<char>, i: int)
    requires
        0 <= i < s.len(),
        s[i].config.id@ == id,
        forall|j: int| 0 <= j < i ==> s[j].config.id@ != id,
    ensures
        position_of(s, id) == i,
{
    lemma_position_of(s, id);
    let p = position_of(s, id);
    if p < 0 {
        assert(s[i].config.id@ != id);
    } else if p < i {
        assert(s[p].config.id@ != id);
    } else if p > i {
        assert(s[i].config.id@ != id);
    }
}

/// Whether an optional (mission id, modal kind) pair names the given pair.
pub open spec fn modal_is(m: Option<(String, String)>, mission: Seq<char>, kind: Seq<char>) -> bool {
    match m {
        Some((a, b)) => a@ == mission && b@ == kind,
        None => false,
    }
}

/// The mission after one login, with its step recorded at time `at`.
pub open spec fn login_step(m: Mission, at: String) -> Mission {
    Mission { streak_count: (m.streak_count + 1) as u32, ..m.spec_record(1, at).0 }
}

/// The modal a login opens, from whether it completed the streak and from
/// the streak's new position.
pub open spec fn login_modal(just_completed: bool, current: u32) -> Seq<char> {
    if just_completed {
        "streak_complete"@
    } else if current >= 5 {
        "almost_there"@
    } else if current >= 2 {
        "streak"@
    } else {
        "daily_reward"@
    }
}

/// The modal a login opens, by the streak mission's new position: a login
/// that completes the streak opens "streak_complete"; otherwise from five
/// steps on "almost_there", from two to four "streak", below two
/// "daily_reward".
pub proof fn lemma_login_modal_levels(just_completed: bool, current: u32)
    ensures
        just_completed ==> login_modal(just_completed, current) == "streak_complete"@,
        !just_completed && current >= 5 ==> login_modal(just_completed, current) == "almost_there"@,
        !just_completed && 2 <= current <= 4 ==> login_modal(just_completed, current)
            == "streak"@,
        !just_completed && current <= 1 ==> login_modal(just_completed, current)
            == "daily_reward"@,
{
}

/// `new` is `old` with the mission at `i` advanced by one step, recorded
/// at the time that `new` itself carries there.

pub open spec fn advanced_at(old: Seq<Mission>, new: Seq<Mission>, i: int) -> bool {
    &&& 0 <= i < old.len()
    &&& new.len() == old.len()
    &&& new[i].last_updated is Some
    &&& is_utc_rfc3339(new[i].last_updated->0@)
    &&& new == old.update(i, old[i].spec_record(1, new[i].last_updated->0).0)
}

/// Whether `m` carries exactly the given configuration and progress, with
/// no timestamp, no streak and no claim yet.
pub open spec fn mission_has(
    m: Mission,
    id: Seq<char>,
    title: Seq<char>,
    description: Seq<char>,
    button_text: Seq<char>,
    info_text: Seq<char>,
    reward_amount: u32,
    reward_token: Seq<char>,
    mission_type: Seq<char>,
    segments: Option<u32>,
    auto_reset_daily: bool,
    current: u32,
    total: u32,
) -> bool {
    &&& m.config.id@ == id
    &&& m.config.title@ == title
    &&& m.config.description@ == description
    &&& m.config.button_text@ == button_text
    &&& m.config.info_text@ == info_text
    &&& m.config.reward_amount == reward_amount
    &&& m.config.reward_token@ == reward_token
    &&& m.config.mission_type@ == mission_type
    &&& m.config.segments == segments
    &&& m.config.auto_reset_daily == auto_reset_daily
    &&& m.progress == MissionProgress::spec_new(current, total)
    &&& m.last_updated is None
    &&& m.streak_count == 0
    &&& !m.claimed
}

/// The four missions every player starts with, in this order: the login
/// streak, ten games, three AI videos, three referrals.
pub open spec fn is_default_missions(s: Seq<Mission>) -> bool {
    &&& s.len() == 4
    &&& mission_has(
        s[0],
        "login_streak"@,
        "Daily Login Streak"@,
        "Login daily to maintain your streak"@,
        "Claim 5 YRAL"@,
        "Hit 7 days for a bonus. Miss a day, streak resets."@,
        5,
        "YRAL"@,
        "login_streak"@,
        Some(7u32),
        false,
        5,
        7,
    )
    &&& mission_has(
        s[1],
        "play_games"@,
        "Play 10 Games"@,
        "Play games to earn tokens"@,
        "Play Games"@,
        "Play 10 games in 24 hours to earn 10 YRAL tokens."@,
        10,
        "YRAL"@,
        "play_games"@,
        None,
        true,
        10,
        10,
    )
    &&& mission_has(
        s[2],
        "generate_videos"@,
        "Generate 3 AI videos"@,
        "Create AI videos to earn tokens"@,
        "Create AI Video"@,
        "Generate 3 AI videos to earn 30 YRAL tokens."@,
        30,
        "YRAL"@,
        "ai_video"@,
        None,
        true,
        1,
        3,
    )
    &&& mission_has(
        s[3],
        "referral"@,
        "Referral"@,
        "Refer friends to earn tokens"@,
        "Refer A Friend"@,
        "Refer 3 friends to earn 15 YRAL tokens."@,
        15,
        "YRAL"@,
        "referral"@,
        None,
        false,
        2,
        3,
    )
}

/// Builds a mission from literal texts.
fn make_mission(
    id: &str,
    title: &str,
    description: &str,
    button_text: &str,
    info_text: &str,
    reward_amount: u32,
    mission_type: &str,
    segments: Option<u32>,
    auto_reset_daily: bool,
    current: u32,
    total: u32,
) -> (m: Mission)
    ensures
        mission_has(
            m,
            id@,
            title@,
            description@,
            button_text@,
            info_text@,
            reward_amount,
            "YRAL"@,
            mission_type@,
            segments,
            auto_reset_daily,
            current,
            total,
        ),
{
    let config = MissionConfig {
        id: String::from_str(id),
        title: String::from_str(title),
        description: String::from_str(description),
        button_text: String::from_str(button_text),
        info_text: String::from_str(info_text),
        reward_amount,
        reward_token: String::from_str("YRAL"),
        mission_type: String::from_str(mission_type),
        segments,
        auto_reset_daily,
    };
    Mission::new(config, MissionProgress::new(current, total))
}

/// The whole mission state of a player: the missions, the modal currently
/// open (mission id and modal kind), and the statistics.
#[derive(Clone, Debug)]
pub struct MissionState {
    pub missions: Vec<Mission>,
    pub active_modal: Option<(String, String)>,
    pub user_stats: UserStats,
}

impl Default for MissionState {
    fn default() -> (s: Self)
        ensures
            ids_distinct(s.missions@),
            is_default_missions(s.missions@),
            s.active_modal is None,
            s.user_stats.total_yral_earned == 50,
            s.user_stats.current_login_streak == 5,
            s.user_stats.longest_login_streak == 8,
            s.user_stats.games_played_today == 10,
            s.user_stats.videos_generated_today == 1,
            s.user_stats.friends_referred == 2,
            s.user_stats.last_login_date is Some,
            is_utc_rfc3339(s.user_stats.last_login_date->0@),
    {
        Self::new()
    }
}

impl MissionState {
    /// The starting state: the four default missions, no open modal, and
    /// the sample statistics with the login time set to now.
    pub fn new() -> (s: Self)
        ensures
            ids_distinct(s.missions@),
            is_default_missions(s.missions@),
            s.active_modal is None,
            s.user_stats.last_login_date is Some,
            is_utc_rfc3339(s.user_stats.last_login_date->0@),
            s.user_stats == (UserStats {
                total_yral_earned: 50,
                current_login_streak: 5,
                longest_login_streak: 8,
                games_played_today: 10,
                videos_generated_today: 1,
                friends_referred: 2,
                last_login_date: s.user_stats.last_login_date,
            }),
    {
        let now = now_rfc3339();
        Self::with_login_time(now)
    }

    /// The starting state: the four default missions, no open modal, and
    /// the sample statistics with the login stamped `now`.
    pub fn with_login_time(now: String) -> (s: Self)
        ensures
            ids_distinct(s.missions@),
            is_default_missions(s.missions@),
            s.active_modal is None,
            s.user_stats == (UserStats {
                total_yral_earned: 50,
                current_login_streak: 5,
                longest_login_streak: 8,
                games_played_today: 10,
                videos_generated_today: 1,
                friends_referred: 2,
                last_login_date: Some(now),
            }),
    {
        let missions = Self::create_default_missions();
        proof {
            lemma_default_missions_keyed(missions@);
        }
        let user_stats = UserStats {
            total_yral_earned: 50,
            current_login_streak: 5,
            longest_login_streak: 8,
            games_played_today: 10,
            videos_generated_today: 1,
            friends_referred: 2,
            last_login_date: Some(now),
        };
        MissionState { missions, active_modal: None, user_stats }
    }

    fn create_default_missions() -> (missions: Vec<Mission>)
        ensures
            is_default_missions(missions@),
    {
        let mut missions: Vec<Mission> = Vec::new();
        missions.push(
            make_mission(
                "login_streak",
                "Daily Login Streak",
                "Login daily to maintain your streak",
                "Claim 5 YRAL",
                "Hit 7 days for a bonus. Miss a day, streak resets.",
                5,
                "login_streak",
                Some(7),
                false,
                5,
                7,
            ),
        );
        missions.push(
            make_mission(
                "play_games",
                "Play 10 Games",
                "Play games to earn tokens",
                "Play Games",
                "Play 10 games in 24 hours to earn 10 YRAL tokens.",
                10,
                "play_games",
                None,
                true,
                10,
                10,
            ),
        );
        missions.push(
            make_mission(
                "generate_videos",
                "Generate 3 AI videos",
                "Create AI videos to earn tokens",
                "Create AI Video",
                "Generate 3 AI videos to earn 30 YRAL tokens.",
                30,
                "ai_video",
                None,
                true,
                1,
                3,
            ),
        );
        missions.push(
            make_mission(
                "referral",
                "Referral",
                "Refer friends to earn tokens",
                "Refer A Friend",
                "Refer 3 friends to earn 15 YRAL tokens.",
                15,
                "referral",
                None,
                false,
                2,
                3,
            ),
        );
        missions
    }

    /// The index of the first mission whose id is `id`.
    fn find(&self, id: &String) -> (r: Option<usize>)
        ensures
            match r {
                Some(i) => i < self.missions@.len() && i as int == position_of(
                    self.missions@,
                    id@,
                ),
                None => position_of(self.missions@, id@) == -1,
            },
    {
        let mut i: usize = 0;
        while i < self.missions.len()
            invariant
                i <= self.missions@.len(),
                forall|j: int| 0 <= j < i ==> self.missions@[j].config.id@ != id@,
            decreases self.missions@.len() - i,
        {
            if self.missions[i].config.id == *id {
                proof {
                    lemma_position_from_scan(self.missions@, id@, i as int);
                }
                return Some(i);
            }
            i = i + 1;
        }
        proof {
            lemma_position_of(self.missions@, id@);
            if position_of(self.missions@, id@) >= 0 {
                let p = position_of(self.missions@, id@);
                assert(self.missions@[p].config.id@ != id@);
            }
        }
        None
    }

    /// Advances the mission at `i` by one step recorded now; returns whether
    /// that completed it.
    fn advance(&mut self, i: usize) -> (just_completed: bool)
        requires
            i < old(self).missions@.len(),
            old(self).missions@[i as int].progress.current < u32::MAX,
        ensures
            advanced_at(old(self).missions@, final(self).missions@, i as int),
            just_completed == old(self).missions@[i as int].progress.spec_increment(1).1,
            final(self).active_modal == old(self).active_modal,
            final(self).user_stats == old(self).user_stats,
    {
        let mut mission = self.missions[i].duplicate();
        let just_completed = mission.increment_progress(1);
        self.missions.set(i, mission);
        just_completed
    }

    /// Whether one login can be recorded without overflowing a counter.
    pub open spec fn login_fits(self) -> bool {
        let i = position_of(self.missions@, "login_streak"@);
        i >= 0 ==> {
            &&& self.missions@[i].progress.current < u32::MAX
            &&& self.missions@[i].streak_count < u32::MAX
        }
    }

    /// Whether one step of mission `id` can be recorded, and the statistic
    /// `counter` raised by one, without overflow.
    pub open spec fn step_fits(self, id: Seq<char>, counter: u32) -> bool {
        let i = position_of(self.missions@, id);
        i >= 0 ==> {
            &&& self.missions@[i].progress.current < u32::MAX
            &&& counter < u32::MAX
        }
    }

    /// Records a login: the streak mission advances one step and its
    /// streak grows by one, the statistics follow the streak, and a modal
    /// opens. Returns whether the streak mission was just completed; does
    /// nothing and returns false when there is no streak mission. The
    /// mission and the login are stamped with the clock's current time.
    pub fn increment_login_streak(&mut self) -> (just_completed: bool)
        requires
            old(self).login_fits(),
        ensures
            same_ids(old(self).missions@, final(self).missions@),
            ids_distinct(final(self).missions@) == ids_distinct(old(self).missions@),
            ({
                let before = old(self).missions@;
                let i = position_of(before, "login_streak"@);
                if i < 0 {
                    &&& final(self).missions@ == before
                    &&& final(self).active_modal == old(self).active_modal
                    &&& final(self).user_stats == old(self).user_stats
                    &&& !just_completed
                } else {
                    let m = before[i];
                    let step = m.progress.spec_increment(1);
                    let streak = (m.streak_count + 1) as u32;
                    &&& final(self).missions@.len() == before.len()
                    &&& final(self).missions@[i].last_updated is Some
                    &&& is_utc_rfc3339(final(self).missions@[i].last_updated->0@)
                    &&& final(self).missions@ == before.update(
                        i,
                        login_step(m, final(self).missions@[i].last_updated->0),
                    )
                    &&& just_completed == step.1
                    &&& final(self).user_stats.last_login_date is Some
                    &&& is_utc_rfc3339(final(self).user_stats.last_login_date->0@)
                    &&& final(self).user_stats == (UserStats {
                        current_login_streak: streak,
                        longest_login_streak: max_int(
                            old(self).user_stats.longest_login_streak as int,
                            streak as int,
                        ) as u32,
                        last_login_date: final(self).user_stats.last_login_date,
                        ..old(self).user_stats
                    })
                    &&& modal_is(
                        final(self).active_modal,
                        "login_streak"@,
                        login_modal(step.1, step.0.current),
                    )
                }
            }),
    {
        let mission_time = now_rfc3339();
        let login_time = now_rfc3339();
        let ghost mt = mission_time;
        let ghost i = position_of(old(self).missions@, "login_streak"@);
        let just_completed = self.record_login(mission_time, login_time);
        proof {
            lemma_position_of(old(self).missions@, "login_streak"@);
            if i >= 0 {
                assert(self.missions@[i] == login_step(old(self).missions@[i], mt));
            }
        }
        just_completed
    }

    /// Records a login: as `increment_login_streak`, with the streak
    /// mission stamped `mission_time` and the login stamped `login_time`.
    pub fn record_login(&mut self, mission_time: String, login_time: String) -> (just_completed: bool)
        requires
            old(self).login_fits(),
        ensures
            same_ids(old(self).missions@, final(self).missions@),
            ids_distinct(final(self).missions@) == ids_distinct(old(self).missions@),
            ({
                let before = old(self).missions@;
                let i = position_of(before, "login_streak"@);
                if i < 0 {
                    &&& final(self).missions@ == before
                    &&& final(self).active_modal == old(self).active_modal
                    &&& final(self).user_stats == old(self).user_stats
                    &&& !just_completed
                } else {
                    let m = before[i];
                    let step = m.progress.spec_increment(1);
                    let streak = (m.streak_count + 1) as u32;
                    &&& final(self).missions@.len() == before.len()
                    &&& final(self).missions@ == before.update(i, login_step(m, mission_time))
                    &&& just_completed == step.1
                    &&& final(self).user_stats == (UserStats {
                        current_login_streak: streak,
                        longest_login_streak: max_int(
                            old(self).user_stats.longest_login_streak as int,
                            streak as int,
                        ) as u32,
                        last_login_date: Some(login_time),
                        ..old(self).user_stats
                    })
                    &&& modal_is(
                        final(self).active_modal,
                        "login_streak"@,
                        login_modal(step.1, step.0.current),
                    )
                }
            }),
    {
        let r = {
            let key = String::from_str("login_streak");
            let found = self.find(&key);
            match found {
                None => false,
                Some(i) => {
                    let mut mission = self.missions[i].duplicate();
                    let just_completed = mission.record_progress(1, mission_time);
                    mission.streak_count = mission.streak_count + 1;
                    let streak = mission.streak_count;
                    let current = mission.progress.current;
                    self.missions.set(i, mission);
                    self.user_stats.current_login_streak = streak;
                    if self.user_stats.longest_login_streak < streak {
                        self.user_stats.longest_login_streak = streak;
                    }
                    self.user_stats.last_login_date = Some(login_time);
                    let kind = if just_completed {
                        "streak_complete"
                    } else if current >= 5 {
                        "almost_there"
                    } else if current >= 2 {
                        "streak"
                    } else {
                        "daily_reward"
                    };
                    self.active_modal = Some((key, String::from_str(kind)));
                    just_completed
                },
            }
        };
        proof {
            lemma_same_ids_keep_distinct(old(self).missions@, self.missions@);
        }
        r
    }

    /// Records a game played: the games mission advances one step, the
    /// daily game count grows by one, and the target-complete modal opens
    /// when this completed the mission, or the halfway modal once half the
    /// games are played; otherwise the open modal stays. Returns whether
    /// the mission was just completed; does nothing without such a mission.
    pub fn increment_games_played(&mut self) -> (just_completed: bool)
        requires
            old(self).step_fits("play_games"@, old(self).user_stats.games_played_today),
        ensures
            same_ids(old(self).missions@, final(self).missions@),
            ids_distinct(final(self).missions@) == ids_distinct(old(self).missions@),
            ({
                let before = old(self).missions@;
                let i = position_of(before, "play_games"@);
                if i < 0 {
                    &&& final(self).missions@ == before
                    &&& final(self).active_modal == old(self).active_modal
                    &&& final(self).user_stats == old(self).user_stats
                    &&& !just_completed
                } else {
                    let step = before[i].progress.spec_increment(1);
                    &&& advanced_at(before, final(self).missions@, i)
                    &&& just_completed == step.1
                    &&& final(self).user_stats == (UserStats {
                        games_played_today: (old(self).user_stats.games_played_today + 1) as u32,
                        ..old(self).user_stats
                    })
                    &&& if step.1 {
                        modal_is(final(self).active_modal, "play_games"@, "target_complete"@)
                    } else if step.0.current >= step.0.total / 2 {
                        modal_is(final(self).active_modal, "play_games"@, "halfway"@)
                    } else {
                        final(self).active_modal == old(self).active_modal
                    }
                }
            }),
    {
        let r = {
            let key = String::from_str("play_games");
            let found = self.find(&key);
            match found {
                None => false,
                Some(i) => {
                    let just_completed = self.advance(i);
                    self.user_stats.games_played_today = self.user_stats.games_played_today + 1;
                    let current = self.missions[i].progress.current;
                    let total = self.missions[i].progress.total;
                    if just_completed {
                        self.active_modal = Some((key, String::from_str("target_complete")));
                    } else if current >= total / 2 {
                        self.active_modal = Some((key, String::from_str("halfway")));
                    }
                    just_completed
                },
            }
        };
        proof {
            lemma_same_ids_keep_distinct(old(self).missions@, self.missions@);
        }
        r
    }

    /// Records an AI video generated: the video mission advances one step,
    /// the daily video count grows by one, and the completion modal opens
    /// when this completed the mission, or the progress modal once some
    /// videos are made. Returns whether the mission was just completed.
    pub fn increment_videos_generated(&mut self) -> (just_completed: bool)
        requires
            old(self).step_fits("generate_videos"@, old(self).user_stats.videos_generated_today),
        ensures
            same_ids(old(self).missions@, final(self).missions@),
            ids_distinct(final(self).missions@) == ids_distinct(old(self).missions@),
            ({
                let before = old(self).missions@;
                let i = position_of(before, "generate_videos"@);
                if i < 0 {
                    &&& final(self).missions@ == before
                    &&& final(self).active_modal == old(self).active_modal
                    &&& final(self).user_stats == old(self).user_stats
                    &&& !just_completed
                } else {
                    let step = before[i].progress.spec_increment(1);
                    &&& advanced_at(before, final(self).missions@, i)
                    &&& just_completed == step.1
                    &&& final(self).user_stats == (UserStats {
                        videos_generated_today: (old(self).user_stats.videos_generated_today
                            + 1) as u32,
                        ..old(self).user_stats
                    })
                    &&& if step.1 {
                        modal_is(final(self).active_modal, "generate_videos"@, "completion"@)
                    } else if step.0.current > 0 {
                        modal_is(final(self).active_modal, "generate_videos"@, "progress"@)
                    } else {
                        final(self).active_modal == old(self).active_modal
                    }
                }
            }),
    {
        let r = {
            let key = String::from_str("generate_videos");
            let found = self.find(&key);
            match found {
                None => false,
                Some(i) => {
                    let just_completed = self.advance(i);
                    self.user_stats.videos_generated_today = self.user_stats.videos_generated_today
                        + 1;
                    let current = self.missions[i].progress.current;
                    if just_completed {
                        self.active_modal = Some((key, String::from_str("completion")));
                    } else if current > 0 {
                        self.active_modal = Some((key, String::from_str("progress")));
                    }
                    just_completed
                },
            }
        };
        proof {
            lemma_same_ids_keep_distinct(old(self).missions@, self.missions@);
        }
        r
    }

    /// Records a friend referred: the referral mission advances one step,
    /// the referral count grows by one, and the referral-complete modal
    /// opens when this completed the mission, or the refer-and-earn modal
    /// once some friends are referred. Returns whether the mission was just
    /// completed.
    pub fn increment_referrals(&mut self) -> (just_completed: bool)
        requires
            old(self).step_fits("referral"@, old(self).user_stats.friends_referred),
        ensures
            same_ids(old(self).missions@, final(self).missions@),
            ids_distinct(final(self).missions@) == ids_distinct(old(self).missions@),
            ({
                let before = old(self).missions@;
                let i = position_of(before, "referral"@);
                if i < 0 {
                    &&& final(self).missions@ == before
                    &&& final(self).active_modal == old(self).active_modal
                    &&& final(self).user_stats == old(self).user_stats
                    &&& !just_completed
                } else {
                    let step = before[i].progress.spec_increment(1);
                    &&& advanced_at(before, final(self).missions@, i)
                    &&& just_completed == step.1
                    &&& final(self).user_stats == (UserStats {
                        friends_referred: (old(self).user_stats.friends_referred + 1) as u32,
                        ..old(self).user_stats
                    })
                    &&& if step.1 {
                        modal_is(final(self).active_modal, "referral"@, "referral_complete"@)
                    } else if step.0.current > 0 {
                        modal_is(final(self).active_modal, "referral"@, "refer_earn"@)
                    } else {
                        final(self).active_modal == old(self).active_modal
                    }
                }
            }),
    {
        let r = {
            let key = String::from_str("referral");
            let found = self.find(&key);
            match found {
                None => false,
                Some(i) => {
                    let just_completed = self.advance(i);
                    self.user_stats.friends_referred = self.user_stats.friends_referred + 1;
                    let current = self.missions[i].progress.current;
                    if just_completed {
                        self.active_modal = Some((key, String::from_str("referral_complete")));
                    } else if current > 0 {
                        self.active_modal = Some((key, String::from_str("refer_earn")));
                    }
                    just_completed
                },
            }
        };
        proof {
            lemma_same_ids_keep_distinct(old(self).missions@, self.missions@);
        }
        r
    }

    /// Whether claiming mission `id` would not overflow the earnings total.
    pub open spec fn claim_fits(self, id: Seq<char>) -> bool {
        let i = position_of(self.missions@, id);
        (i >= 0 && self.missions@[i].spec_is_claimable()) ==> self.user_stats.total_yral_earned
            + self.missions@[i].config.reward_amount <= u32::MAX
    }

    /// Claims the reward of mission `mission_id`: when it is claimable the
    /// mission is marked claimed (and starts over if it resets daily), the
    /// reward is added to the earnings, and the open modal closes; returns
    /// whether that happened. Otherwise nothing changes.
    pub fn claim_mission_reward(&mut self, mission_id: &str) -> (claimed: bool)
        requires
            old(self).claim_fits(mission_id@),
        ensures
            (final(self).missions@, final(self).user_stats, final(self).active_modal, claimed)
                == claimed_state(
                old(self).missions@,
                old(self).user_stats,
                old(self).active_modal,
                mission_id@,
            ),
            same_ids(old(self).missions@, final(self).missions@),
            ids_distinct(final(self).missions@) == ids_distinct(old(self).missions@),
            ({
                let before = old(self).missions@;
                let i = position_of(before, mission_id@);
                if i >= 0 && before[i].spec_is_claimable() {
                    &&& claimed
                    &&& final(self).missions@ == before.update(i, before[i].spec_claim().0)
                    &&& final(self).user_stats == (UserStats {
                        total_yral_earned: (old(self).user_stats.total_yral_earned
                            + before[i].config.reward_amount) as u32,
                        ..old(self).user_stats
                    })
                    &&& final(self).active_modal is None
                } else {
                    &&& !claimed
                    &&& final(self).missions@ == before
                    &&& final(self).active_modal == old(self).active_modal
                    &&& final(self).user_stats == old(self).user_stats
                }
            }),
    {
        let r = {
            let key = String::from_str(mission_id);
            let found = self.find(&key);
            match found {
                None => false,
                Some(i) => {
                    let mut mission = self.missions[i].duplicate();
                    if mission.claim_reward() {
                        let reward = mission.config.reward_amount;
                        self.missions.set(i, mission);
                        self.user_stats.total_yral_earned = self.user_stats.total_yral_earned + reward;
                        self.active_modal = None;
                        true
                    } else {
                        false
                    }
                },
            }
        };
        proof {
            lemma_same_ids_keep_distinct(old(self).missions@, self.missions@);
        }
        r
    }

    /// Starts the day over: every mission that resets daily loses its
    /// progress and claim, the other missions stay as they are, and the
    /// daily game and video counts go back to zero.
    pub fn reset_daily_missions(&mut self)
        ensures
            same_ids(old(self).missions@, final(self).missions@),
            ids_distinct(final(self).missions@) == ids_distinct(old(self).missions@),
            final(self).missions@.len() == old(self).missions@.len(),
            forall|j: int|
                0 <= j < old(self).missions@.len() ==> #[trigger] final(self).missions@[j] == (
                if old(self).missions@[j].config.auto_reset_daily {
                    old(self).missions@[j].spec_reset_progress()
                } else {
                    old(self).missions@[j]
                }),
            final(self).user_stats == (UserStats {
                games_played_today: 0,
                videos_generated_today: 0,
                ..old(self).user_stats
            }),
            final(self).active_modal == old(self).active_modal,
    {
        {
            let ghost before = self.missions@;
            let mut i: usize = 0;
            while i < self.missions.len()
                invariant
                    self.missions@.len() == before.len(),
                    i <= before.len(),
                    forall|j: int|
                        0 <= j < i ==> #[trigger] self.missions@[j] == (
                        if before[j].config.auto_reset_daily {
                            before[j].spec_reset_progress()
                        } else {
                            before[j]
                        }),
                    forall|j: int| i <= j < before.len() ==> #[trigger] self.missions@[j] == before[j],
                    self.active_modal == old(self).active_modal,
                    self.user_stats == old(self).user_stats,
                decreases before.len() - i,
            {
                if self.missions[i].config.auto_reset_daily {
                    let mut mission = self.missions[i].duplicate();
                    mission.reset_progress();
                    self.missions.set(i, mission);
                }
                i = i + 1;
            }
            self.user_stats.games_played_today = 0;
            self.user_stats.videos_generated_today = 0;
        }
        proof {
            lemma_same_ids_keep_distinct(old(self).missions@, self.missions@);
        }
    }

    /// Closes whatever modal is open.
    pub fn close_modal(&mut self)
        ensures
            same_ids(old(self).missions@, final(self).missions@),
            ids_distinct(final(self).missions@) == ids_distinct(old(self).missions@),
            final(self).active_modal is None,
            final(self).missions@ == old(self).missions@,
            final(self).user_stats == old(self).user_stats,
    {
        self.active_modal = None;
    }

    /// A copy of the mission whose id is `mission_id`, if there is one.
    pub fn get_mission(&self, mission_id: &str) -> (r: Option<Mission>)
        ensures
            ({
                let i = position_of(self.missions@, mission_id@);
                if i >= 0 {
                    r == Some(self.missions@[i])
                } else {
                    r is None
                }
            }),
    {
        let key = String::from_str(mission_id);
        match self.find(&key) {
            Some(i) => Some(self.missions[i].duplicate()),
            None => None,
        }
    }

    /// Copies of all missions.
    pub fn get_all_missions(&self) -> (r: Vec<Mission>)
        ensures
            r@ == self.missions@,
    {
        let mut r: Vec<Mission> = Vec::new();
        let mut i: usize = 0;
        while i < self.missions.len()
            invariant
                i <= self.missions@.len(),
                r@ == self.missions@.take(i as int),
            decreases self.missions@.len() - i,
        {
            r.push(self.missions[i].duplicate());
            i = i + 1;
            assert(r@ =~= self.missions@.take(i as int));
        }
        assert(self.missions@.take(i as int) =~= self.missions@);
        r
    }

    /// The total the player has earned, as the earnings signal reads it.
    pub fn total_earned_signal(&self) -> (r: u32)
        ensures
            r == self.user_stats.total_yral_earned,
    {
        self.user_stats.total_yral_earned
    }

    /// The current login streak, as the streak signal reads it.
    pub fn current_streak_signal(&self) -> (r: u32)
        ensures
            r == self.user_stats.current_login_streak,
    {
        self.user_stats.current_login_streak
    }

    /// The mission with id `mission_id`, as the mission signal reads it.
    pub fn mission_signal(&self, mission_id: String) -> (r: Option<Mission>)
        ensures
            ({
                let i = position_of(self.missions@, mission_id@);
                if i >= 0 {
                    r == Some(self.missions@[i])
                } else {
                    r is None
                }
            }),
    {
        self.get_mission(mission_id.as_str())
    }
}


/// Replacing a mission by one with the same id leaves every lookup where
/// it was.
pub proof fn lemma_position_after_update(s: Seq<Mission>, i: int, m: Mission, id: Seq<char>)
    requires
        0 <= i < s.len(),
        m.config.id == s[i].config.id,
    ensures
        position_of(s.update(i, m), id) == position_of(s, id),
{
    let t = s.update(i, m);
    lemma_position_of(s, id);
    lemma_position_of(t, id);
    assert forall|j: int| 0 <= j < s.len() implies t[j].config.id@ == s[j].config.id@ by {}
    let p = position_of(s, id);
    let q = position_of(t, id);
    if p >= 0 && q >= 0 {
        if p < q {
            assert(t[p].config.id@ == id);
        } else if q < p {
            assert(s[q].config.id@ == id);
        }
    } else if p >= 0 {
        assert(t[p].config.id@ == id);
    } else if q >= 0 {
        assert(s[q].config.id@ == id);
    }
}

/// The default missions carry four different ids, so they form a map from
/// id to mission, and each id is found at its own place.
pub proof fn lemma_default_missions_keyed(s: Seq<Mission>)
    requires
        is_default_missions(s),
    ensures
        ids_distinct(s),
        position_of(s, "login_streak"@) == 0,
        position_of(s, "play_games"@) == 1,
        position_of(s, "generate_videos"@) == 2,
        position_of(s, "referral"@) == 3,
{
    reveal_strlit("login_streak");
    reveal_strlit("play_games");
    reveal_strlit("generate_videos");
    reveal_strlit("referral");
    assert("login_streak"@[0] != "play_games"@[0]);
    assert("login_streak"@[0] != "generate_videos"@[0]);
    assert(s[0].config.id@ != s[1].config.id@);
    assert(s[0].config.id@ != s[2].config.id@);
    assert(s[0].config.id@ != s[3].config.id@);
    assert(s[1].config.id@ != s[2].config.id@);
    assert(s[1].config.id@ != s[3].config.id@);
    assert(s[2].config.id@ != s[3].config.id@);
    lemma_position_from_scan(s, "login_streak"@, 0);
    lemma_position_from_scan(s, "play_games"@, 1);
    lemma_position_from_scan(s, "generate_videos"@, 2);
    lemma_position_from_scan(s, "referral"@, 3);
}

/// What claiming mission `id` does to the missions, the statistics and the
/// open modal, and whether it succeeds: a claimable mission is marked
/// claimed, its reward credited and the modal closed; anything else
/// changes nothing.
pub open spec fn claimed_state(
    missions: Seq<Mission>,
    stats: UserStats,
    modal: Option<(String, String)>,
    id: Seq<char>,
) -> (Seq<Mission>, UserStats, Option<(String, String)>, bool) {
    let i = position_of(missions, id);
    if i >= 0 && missions[i].spec_is_claimable() {
        (
            missions.update(i, missions[i].spec_claim().0),
            UserStats {
                total_yral_earned: (stats.total_yral_earned + missions[i].config.reward_amount) as u32,
                ..stats
            },
            None,
            true,
        )
    } else {
        (missions, stats, modal, false)
    }
}

/// A claim that goes through credits exactly the mission's reward and
/// touches no other statistic; that mission can no longer be claimed, and
/// every other mission stays as it was.
pub proof fn lemma_claim_credits_reward(
    missions: Seq<Mission>,
    stats: UserStats,
    modal: Option<(String, String)>,
    id: Seq<char>,
)
    requires
        claimed_state(missions, stats, modal, id).3,
        stats.total_yral_earned + missions[position_of(missions, id)].config.reward_amount
            <= u32::MAX,
    ensures
        ({
            let first = claimed_state(missions, stats, modal, id);
            let i = position_of(missions, id);
            &&& 0 <= i < missions.len()
            &&& missions[i].config.id@ == id
            &&& first.1.total_yral_earned == stats.total_yral_earned
                + missions[i].config.reward_amount
            &&& first.1.current_login_streak == stats.current_login_streak
            &&& first.1.longest_login_streak == stats.longest_login_streak
            &&& first.1.games_played_today == stats.games_played_today
            &&& first.1.videos_generated_today == stats.videos_generated_today
            &&& first.1.friends_referred == stats.friends_referred
            &&& first.1.last_login_date == stats.last_login_date
            &&& first.0.len() == missions.len()
            &&& !first.0[i].spec_is_claimable()
            &&& first.0[i].config == missions[i].config
            &&& forall|j: int| 0 <= j < missions.len() && j != i ==> first.0[j] == missions[j]
        }),
{
    lemma_position_of(missions, id);
}

/// A login moves the streak mission one step (up to its target), raises
/// its streak by one, stamps it, and keeps its configuration and claim.
pub proof fn lemma_login_step_moves_one(m: Mission, at: String)
    requires
        m.progress.current < u32::MAX,
        m.streak_count < u32::MAX,
    ensures
        ({
            let n = login_step(m, at);
            &&& n.streak_count == m.streak_count + 1
            &&& m.progress.current < m.progress.total ==> n.progress.current == m.progress.current
                + 1
            &&& m.progress.current >= m.progress.total ==> n.progress.current == m.progress.total
            &&& n.progress.total == m.progress.total
            &&& n.last_updated == Some(at)
            &&& n.config == m.config
            &&& n.claimed == m.claimed
        }),
{
}

/// A reward is credited at most once: right after a claim that went
/// through, claiming the same mission again fails and changes nothing
/// (and needs no room in the earnings).
pub proof fn lemma_reward_credited_once(
    missions: Seq<Mission>,
    stats: UserStats,
    modal: Option<(String, String)>,
    id: Seq<char>,
)
    requires
        claimed_state(missions, stats, modal, id).3,
    ensures
        ({
            let first = claimed_state(missions, stats, modal, id);
            let i = position_of(first.0, id);
            &&& !(i >= 0 && first.0[i].spec_is_claimable())
            &&& claimed_state(first.0, first.1, first.2, id) == (first.0, first.1, first.2, false)
        }),
{
    lemma_state_claim_once(missions, id);
}

/// A reward claimed through the mission state cannot be claimed again
/// right away: the claimed mission stays where it was and is no longer
/// claimable.
pub proof fn lemma_state_claim_once(s: Seq<Mission>, id: Seq<char>)
    requires
        position_of(s, id) >= 0,
        s[position_of(s, id)].spec_is_claimable(),
    ensures
        ({
            let i = position_of(s, id);
            let after = s.update(i, s[i].spec_claim().0);
            &&& position_of(after, id) == i
            &&& !after[i].spec_is_claimable()
        }),
{
    lemma_position_of(s, id);
    let i = position_of(s, id);
    lemma_position_after_update(s, i, s[i].spec_claim().0, id);
}

/// A recorded step keeps the mission's configuration, streak and claim,
/// so the actions never change which missions exist or what they reward.
pub proof fn lemma_step_keeps_config(old: Seq<Mission>, new: Seq<Mission>, i: int)
    requires
        advanced_at(old, new, i),
    ensures
        forall|j: int| 0 <= j < old.len() ==> #[trigger] new[j].config == old[j].config,
        new[i].streak_count == old[i].streak_count,
        new[i].claimed == old[i].claimed,
{
}

/// After the daily reset no mission that resets daily can be claimed,
/// and the others keep whatever claim they had.
pub proof fn lemma_daily_reset_closes_rewards(m: Mission)
    ensures
        m.config.auto_reset_daily ==> !m.spec_reset_progress().spec_is_claimable(),
        m.spec_reset_progress().progress.current == 0,
{
}

/// What tapping a mission card's button does.
#[derive(Clone, Copy, Debug, PartialEq, Eq, Structural)]
pub enum MissionTap {
    /// Take the reward of the tapped mission.
    ClaimReward,
    /// Record a login.
    Login,
    /// Record a game played.
    PlayGame,
    /// Record an AI video generated.
    GenerateVideo,
    /// Record a friend referred.
    ReferFriend,
    /// A mission type the page does not know; nothing happens.
    Unknown,
}

/// The action behind a mission card's button: the reward when it can be
/// claimed, else the step that the mission's type counts.
pub open spec fn spec_mission_tap(mission_type: Seq<char>, is_claimable: bool) -> MissionTap {
    if mission_type != "login_streak"@ && mission_type != "play_games"@ && mission_type
        != "ai_video"@ && mission_type != "referral"@ {
        MissionTap::Unknown
    } else if is_claimable {
        MissionTap::ClaimReward
    } else if mission_type == "login_streak"@ {
        MissionTap::Login
    } else if mission_type == "play_games"@ {
        MissionTap::PlayGame
    } else if mission_type == "ai_video"@ {
        MissionTap::GenerateVideo
    } else {
        MissionTap::ReferFriend
    }
}

proof fn lemma_mission_types_distinct()
    ensures
        "login_streak"@.len() == 12,
        "play_games"@.len() == 10,
        "ai_video"@.len() == 8,
        "referral"@.len() == 8 && "referral"@[0] == 'r' && "ai_video"@[0] == 'a',
{
    reveal_strlit("login_streak");
    reveal_strlit("play_games");
    reveal_strlit("ai_video");
    reveal_strlit("referral");
}

/// For the four known mission types, a tap on a claimable mission takes
/// its reward, and a tap on any other does that type's own step; any
/// other type does nothing.
pub proof fn lemma_tap_by_type(mission_type: Seq<char>, is_claimable: bool)
    ensures
        (mission_type == "login_streak"@ || mission_type == "play_games"@ || mission_type
            == "ai_video"@ || mission_type == "referral"@) && is_claimable ==> spec_mission_tap(
            mission_type,
            is_claimable,
        ) == MissionTap::ClaimReward,
        mission_type == "login_streak"@ && !is_claimable ==> spec_mission_tap(
            mission_type,
            is_claimable,
        ) == MissionTap::Login,
        mission_type == "play_games"@ && !is_claimable ==> spec_mission_tap(
            mission_type,
            is_claimable,
        ) == MissionTap::PlayGame,
        mission_type == "ai_video"@ && !is_claimable ==> spec_mission_tap(
            mission_type,
            is_claimable,
        ) == MissionTap::GenerateVideo,
        mission_type == "referral"@ && !is_claimable ==> spec_mission_tap(
            mission_type,
            is_claimable,
        ) == MissionTap::ReferFriend,
        !(mission_type == "login_streak"@ || mission_type == "play_games"@ || mission_type
            == "ai_video"@ || mission_type == "referral"@) ==> spec_mission_tap(
            mission_type,
            is_claimable,
        ) == MissionTap::Unknown,
{
    lemma_mission_types_distinct();
}

/// The action behind a mission card's button.
pub fn mission_tap(mission_type: &str, is_claimable: bool) -> (t: MissionTap)
    ensures
        t == spec_mission_tap(mission_type@, is_claimable),
{
    proof {
        lemma_mission_types_distinct();
    }
    let ty = String::from_str(mission_type);
    let step = if ty == String::from_str("login_streak") {
        MissionTap::Login
    } else if ty == String::from_str("play_games") {
        MissionTap::PlayGame
    } else if ty == String::from_str("ai_video") {
        MissionTap::GenerateVideo
    } else if ty == String::from_str("referral") {
        MissionTap::ReferFriend
    } else {
        return MissionTap::Unknown;
    };
    if is_claimable {
        MissionTap::ClaimReward
    } else {
        step
    }
}

/// The progress line of a mission card: "Day c/s" for a streak shown in
/// `segments` segments, else "c/t".
pub fn progress_text(progress: &MissionProgress, segments: u32) -> (r: String)
    ensures
        r@ == (if segments > 0 {
            "Day "@ + decimal(progress.current as nat) + "/"@ + decimal(segments as nat)
        } else {
            decimal(progress.current as nat) + "/"@ + decimal(progress.total as nat)
        }),
{
    let mut r = if segments > 0 {
        String::from_str("Day ")
    } else {
        String::new()
    };
    r.append(u32_to_string(progress.current).as_str());
    r.append("/");
    if segments > 0 {
        r.append(u32_to_string(segments).as_str());
    } else {
        r.append(u32_to_string(progress.total).as_str());
    }
    r
}

/// Which segments of a segmented progress bar are lit: the first
/// `current` of them. The bar counts its segments as an `i32`, so a count
/// beyond `i32::MAX` draws no segment.
pub fn lit_segments(progress: &MissionProgress, segments: u32) -> (r: Vec<bool>)
    ensures
        r@.len() == (if segments <= i32::MAX { segments } else { 0 }),
        forall|i: int| 0 <= i < r@.len() ==> r@[i] == (i < progress.current),
{
    let count: u32 = if segments <= 0x7fff_ffffu32 { segments } else { 0 };
    let mut r: Vec<bool> = Vec::new();
    let mut i: u32 = 0;
    while i < count
        invariant
            i <= count,
            r@.len() == i,
            forall|j: int| 0 <= j < i ==> r@[j] == (j < progress.current),
        decreases count - i,
    {
        r.push(i < progress.current);
        i = i + 1;
    }
    r
}

/// Whether a mission card's button is disabled: only while the mission is
/// neither claimable nor complete.
pub fn card_button_disabled(is_claimable: bool, progress: &MissionProgress) -> (r: bool)
    ensures
        r == (!is_claimable && !progress.completed),
{
    !is_claimable && !progress.completed
}

} // verus!
