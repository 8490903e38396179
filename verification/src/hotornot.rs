//! Rules of the hot-or-not betting game: coin selection, bet checks,
//! result messages and score comparison.
use vstd::prelude::*;
use crate::decimal::{decimal, u128_to_string, u64_to_string};
use crate::text::{contains_text, has_text};

verus! {

/// The coin a player bets with on the classic hot-or-not overlay.
#[derive(Clone, Copy, Debug, PartialEq, Eq, Structural)]
pub enum CoinState {
    C50,
    C100,
    C200,
}

/// The amount, in cents, that a coin stands for.
pub open spec fn coin_value(c: CoinState) -> u64 {
    match c {
        CoinState::C50 => 50,
        CoinState::C100 => 100,
        CoinState::C200 => 200,
    }
}

impl CoinState {
    /// The next coin in the cycle 50 -> 100 -> 200 -> 50.
    pub open spec fn spec_next(self) -> CoinState {
        match self {
            CoinState::C50 => CoinState::C100,
            CoinState::C100 => CoinState::C200,
            CoinState::C200 => CoinState::C50,
        }
    }

    /// The previous coin in the cycle 50 -> 100 -> 200 -> 50.
    pub open spec fn spec_prev(self) -> CoinState {
        match self {
            CoinState::C50 => CoinState::C200,
            CoinState::C100 => CoinState::C50,
            CoinState::C200 => CoinState::C100,
        }
    }

    pub fn wrapping_next(self) -> (r: Self)
        ensures
            r == self.spec_next(),
    {
        match self {
            CoinState::C50 => CoinState::C100,
            CoinState::C100 => CoinState::C200,
            CoinState::C200 => CoinState::C50,
        }
    }

    pub fn wrapping_prev(self) -> (r: Self)
        ensures
            r == self.spec_prev(),
    {
        match self {
            CoinState::C50 => CoinState::C200,
            CoinState::C100 => CoinState::C50,
            CoinState::C200 => CoinState::C100,
        }
    }

    /// The amount, in cents, that this coin stands for.
    pub fn to_u64(self) -> (v: u64)
        ensures
            v == coin_value(self),
    {
        match self {
            CoinState::C50 => 50,
            CoinState::C100 => 100,
            CoinState::C200 => 200,
        }
    }
}

/// Stepping forward then back, or back then forward, returns the same coin.
pub proof fn lemma_coin_next_prev_inverse(c: CoinState)
    ensures
        c.spec_next().spec_prev() == c,
        c.spec_prev().spec_next() == c,
{
}

/// Three steps forward go round the whole cycle.
pub proof fn lemma_coin_cycle_of_three(c: CoinState)
    ensures
        c.spec_next().spec_next().spec_next() == c,
        c.spec_next() != c,
{
}

/// The direction of a vote.
#[derive(Clone, Copy, Debug, PartialEq, Eq, Structural)]
pub enum VoteKind {
    Hot,
    Not,
}

/// How a settled vote ended: the sats won on top of the bet, or the sats
/// lost.
#[derive(Clone, Copy, Debug, PartialEq, Eq, Structural)]
pub enum VoteResult {
    Win { win_amt: u64 },
    Loss { lose_amt: u64 },
}

/// Whether a settled vote was won, and the amount shown for it: on a win
/// the winnings together with the bet returned, on a loss the sats lost.
pub fn settled_amount(result: VoteResult, vote_amount: u64) -> (r: (bool, u64))
    requires
        result matches VoteResult::Win { win_amt } ==> win_amt + vote_amount <= u64::MAX,
    ensures
        r == (match result {
            VoteResult::Win { win_amt } => (true, (win_amt + vote_amount) as u64),
            VoteResult::Loss { lose_amt } => (false, lose_amt),
        }),
{
    match result {
        VoteResult::Win { win_amt } => (true, win_amt + vote_amount),
        VoteResult::Loss { lose_amt } => (false, lose_amt),
    }
}

/// The sentiment the evaluator settled on for a video.
#[derive(Clone, Copy, Debug, PartialEq, Eq, Structural)]
pub enum HotOrNot {
    Hot,
    Not,
}

/// The coins of the betting overlay, in sats.
#[derive(Clone, Copy, Debug, PartialEq, Eq, Structural)]
pub enum BetCoin {
    C1,
    C5,
    C10,
    C20,
    C50,
    C100,
    C200,
}

/// The coin whose value is `amount`, with the 50 coin standing in for any
/// amount that is not a coin's value.
pub open spec fn spec_coin_for_amount(amount: u64) -> BetCoin {
    if amount == 1 {
        BetCoin::C1
    } else if amount == 5 {
        BetCoin::C5
    } else if amount == 10 {
        BetCoin::C10
    } else if amount == 20 {
        BetCoin::C20
    } else if amount == 50 {
        BetCoin::C50
    } else if amount == 100 {
        BetCoin::C100
    } else if amount == 200 {
        BetCoin::C200
    } else {
        BetCoin::C50
    }
}

/// The face value of a bet coin, in sats.
pub open spec fn bet_coin_sats(c: BetCoin) -> u64 {
    match c {
        BetCoin::C1 => 1,
        BetCoin::C5 => 5,
        BetCoin::C10 => 10,
        BetCoin::C20 => 20,
        BetCoin::C50 => 50,
        BetCoin::C100 => 100,
        BetCoin::C200 => 200,
    }
}

/// The coin shown for a settled vote is the coin of that value: every coin
/// is found again from its value, and any other coin shown stands for an
/// amount that is no coin's value (the 50 coin, as a fallback).
pub proof fn lemma_coin_for_own_value(c: BetCoin, amount: u64)
    ensures
        spec_coin_for_amount(bet_coin_sats(c)) == c,
        spec_coin_for_amount(amount) != BetCoin::C50 ==> bet_coin_sats(
            spec_coin_for_amount(amount),
        ) == amount,
        spec_coin_for_amount(amount) == BetCoin::C50 ==> amount == 50 || !(exists|d: BetCoin|
            bet_coin_sats(d) == amount),
{
    if spec_coin_for_amount(amount) == BetCoin::C50 && amount != 50 {
        assert forall|d: BetCoin| bet_coin_sats(d) != amount by {
            match d {
                BetCoin::C1 => {},
                BetCoin::C5 => {},
                BetCoin::C10 => {},
                BetCoin::C20 => {},
                BetCoin::C50 => {},
                BetCoin::C100 => {},
                BetCoin::C200 => {},
            }
        }
    }
}

/// The coin shown for a settled vote of `amount` sats.
pub fn coin_for_vote_amount(amount: u64) -> (c: BetCoin)
    ensures
        c == spec_coin_for_amount(amount),
{
    match amount {
        1 => BetCoin::C1,
        5 => BetCoin::C5,
        10 => BetCoin::C10,
        20 => BetCoin::C20,
        50 => BetCoin::C50,
        100 => BetCoin::C100,
        200 => BetCoin::C200,
        _ => BetCoin::C50,
    }
}

/// Whether a coin is drawn greyed out: when the overlay is busy, or when a
/// player who is not connected looks at any coin but the 1 coin.
pub fn coin_disabled(disabled: bool, is_connected: bool, coin: BetCoin) -> (r: bool)
    ensures
        r == (disabled || (!is_connected && coin != BetCoin::C1)),
{
    disabled || (!is_connected && coin != BetCoin::C1)
}

/// Whether a bet must wait for the player to log in: a player who is not
/// connected may only bet the default coin.
pub fn login_nudge_needed(is_connected: bool, coin: BetCoin, default_coin: BetCoin) -> (r: bool)
    ensures
        r == (!is_connected && coin != default_coin),
{
    !is_connected && coin != default_coin
}

/// The word for a vote direction, empty when the direction is unknown.
pub open spec fn direction_text(direction: Option<VoteKind>) -> Seq<char> {
    match direction {
        Some(VoteKind::Hot) => "Hot"@,
        Some(VoteKind::Not) => "Not"@,
        None => ""@,
    }
}

/// The creator's share mentioned after a result, empty when there is none.
pub open spec fn creator_text(creator_reward: u64) -> Seq<char> {
    if creator_reward > 0 {
        ", creator gets "@ + decimal(creator_reward as nat) + " YRAL"@
    } else {
        ""@
    }
}

/// The two lines shown under a settled vote.
pub open spec fn spec_result_lines(
    won: bool,
    total: Seq<char>,
    direction: Option<VoteKind>,
    creator_reward: u64,
) -> (Seq<char>, Seq<char>) {
    if direction is None {
        if won {
            ("You won "@ + total + " YRAL"@, "Tap ? to see how it works"@)
        } else {
            ("You lost "@ + total + " YRAL"@, "Tap ? to see how it works"@)
        }
    } else if won {
        (
            "You voted \""@ + direction_text(direction) + "\" - Spot on!"@,
            "You won "@ + total + " YRAL"@ + creator_text(creator_reward),
        )
    } else {
        (
            "You voted \""@ + direction_text(direction) + "\" - wrong vote."@,
            "You lost "@ + total + " YRAL"@ + creator_text(creator_reward),
        )
    }
}

/// The two lines shown under a settled vote: what was won or lost (the
/// amount of `settled_amount`, already written out as `total` by the token
/// balance's formatting), and, when the direction of the
/// vote is known, how it went and the creator's share.
pub fn result_lines(won: bool, total: &str, direction: Option<VoteKind>, creator_reward: u64) -> (r: (
    String,
    String,
))
    ensures
        (r.0@, r.1@) == spec_result_lines(won, total@, direction, creator_reward),
{
    let creator = if creator_reward > 0 {
        let mut c = String::from_str(", creator gets ");
        c.append(u64_to_string(creator_reward).as_str());
        c.append(" YRAL");
        c
    } else {
        String::from_str("")
    };
    let dir: &str = match direction {
        Some(VoteKind::Hot) => "Hot",
        Some(VoteKind::Not) => "Not",
        None => "",
    };
    match direction {
        None => {
            let mut first = String::from_str(if won {
                "You won "
            } else {
                "You lost "
            });
            first.append(total);
            first.append(" YRAL");
            (first, String::from_str("Tap ? to see how it works"))
        },
        Some(_) => {
            let mut first = String::from_str("You voted \"");
            first.append(dir);
            first.append(
                if won {
                    "\" - Spot on!"
                } else {
                    "\" - wrong vote."
                },
            );
            let mut second = String::from_str(if won {
                "You won "
            } else {
                "You lost "
            });
            second.append(total);
            second.append(" YRAL");
            second.append(creator.as_str());
            (first, second)
        },
    }
}

/// The scores shown side by side after a vote, once rounded: when they
/// round to the same number one of them is raised by one so that the
/// comparison stays visible, the current one when the player won on a
/// higher current score, else the previous one.
pub fn separate_scores(current: u32, previous: u32, won: bool, current_is_higher: bool) -> (r: (u32, u32))
    requires
        current == previous ==> current < u32::MAX,
    ensures
        current != previous ==> r == (current, previous),
        current == previous && won && current_is_higher ==> r == ((current + 1) as u32, previous),
        current == previous && !(won && current_is_higher) ==> r == (current, (previous + 1) as u32),
{
    if current == previous {
        if won && current_is_higher {
            (current + 1, previous)
        } else {
            (current, previous + 1)
        }
    } else {
        (current, previous)
    }
}

/// The message refusing a bet above the limit.
pub open spec fn bet_limit_message(vote_amount: u128, max_bet: u64) -> Seq<char> {
    "bet amount exceeds maximum allowed: "@ + decimal(vote_amount as nat) + " > "@ + decimal(
        max_bet as nat,
    )
}

/// Checks a bet against the largest bet allowed.
pub fn check_bet_amount(vote_amount: u128, max_bet: u64) -> (r: Result<(), String>)
    ensures
        r is Ok <==> vote_amount <= max_bet,
        r matches Err(e) ==> e@ == bet_limit_message(vote_amount, max_bet),
{
    if vote_amount > max_bet as u128 {
        let mut msg = String::from_str("bet amount exceeds maximum allowed: ");
        msg.append(u128_to_string(vote_amount).as_str());
        msg.append(" > ");
        msg.append(u64_to_string(max_bet).as_str());
        Err(msg)
    } else {
        Ok(())
    }
}

/// The previous video as an SQL value: its uid quoted, or NULL.
pub fn previous_uid_literal(previous_uid: Option<&str>) -> (r: String)
    ensures
        r@ == (match previous_uid {
            Some(uid) => "'"@ + uid@ + "'"@,
            None => "NULL"@,
        }),
{
    match previous_uid {
        Some(uid) => {
            let mut s = String::from_str("'");
            s.append(uid);
            s.append("'");
            s
        },
        None => String::from_str("NULL"),
    }
}

/// The query asking the evaluator to compare a video with the previous one.
pub fn comparison_query(post_uid: &str, previous_literal: &str) -> (r: String)
    ensures
        r@ == "select hot_or_not_evaluator.compare_videos_hot_or_not_v3('"@ + post_uid@ + "', "@
            + previous_literal@ + ")"@,
{
    let mut s = String::from_str("select hot_or_not_evaluator.compare_videos_hot_or_not_v3('");
    s.append(post_uid);
    s.append("', ");
    s.append(previous_literal);
    s.append(")");
    s
}

/// The sentiment that a comparison's verdict stands for.
pub fn sentiment_of(hot_or_not: bool) -> (r: HotOrNot)
    ensures
        r == (if hot_or_not {
            HotOrNot::Hot
        } else {
            HotOrNot::Not
        }),
{
    if hot_or_not {
        HotOrNot::Hot
    } else {
        HotOrNot::Not
    }
}

/// The answer of the comparison query: result sets, each a list of rows,
/// each a list of values, each possibly empty. The last value of the last
/// row of the last result set is the answer; each missing level is an
/// error with its own message.
pub fn pick_comparison_value(results: Vec<Vec<Vec<Option<String>>>>) -> (r: Result<String, String>)
    ensures
        results@.len() == 0 ==> r is Err && r->Err_0@
            == "hot_or_not_evaluator.compare_videos_hot_or_not_v3 MUST return a result"@,
        results@.len() > 0 && results@.last()@.len() == 0 ==> r is Err && r->Err_0@
            == "hot_or_not_evaluator.compare_videos_hot_or_not_v3 MUST return a row"@,
        results@.len() > 0 && results@.last()@.len() > 0 && results@.last()@.last()@.len() == 0
            ==> r is Err && r->Err_0@
            == "hot_or_not_evaluator.compare_videos_hot_or_not_v3 MUST return a value"@,
        results@.len() > 0 && results@.last()@.len() > 0 && results@.last()@.last()@.len() > 0
            ==> match results@.last()@.last()@.last() {
            Some(v) => r == Ok::<String, String>(v),
            None => r is Err && r->Err_0@
                == "hot_or_not_evaluator.compare_videos_hot_or_not_v3 returned no value"@,
        },
{
    let mut results = results;
    let mut rows = match results.pop() {
        Some(rows) => rows,
        None => {
            return Err(
                String::from_str(
                    "hot_or_not_evaluator.compare_videos_hot_or_not_v3 MUST return a result",
                ),
            );
        },
    };
    let mut values = match rows.pop() {
        Some(values) => values,
        None => {
            return Err(
                String::from_str(
                    "hot_or_not_evaluator.compare_videos_hot_or_not_v3 MUST return a row",
                ),
            );
        },
    };
    let value = match values.pop() {
        Some(value) => value,
        None => {
            return Err(
                String::from_str(
                    "hot_or_not_evaluator.compare_videos_hot_or_not_v3 MUST return a value",
                ),
            );
        },
    };
    match value {
        Some(v) => Ok(v),
        None => Err(
            String::from_str(
                "hot_or_not_evaluator.compare_videos_hot_or_not_v3 returned no value",
            ),
        ),
    }
}

/// Whether the cached balance is too small for the bet, so that the
/// balance must be fetched again before betting.
pub fn needs_balance_refresh(bet_amount: u64, cached_balance: u64) -> (r: bool)
    ensures
        r == (bet_amount > cached_balance),
{
    bet_amount > cached_balance
}

/// The balance to keep after a vote: the one the server reports when it
/// fits in a `u64`, else the cached balance less the bet.
pub fn balance_after_vote(reported: Option<u64>, cached_balance: u64, bet_amount: u64) -> (r: u64)
    requires
        bet_amount <= cached_balance,
    ensures
        r == (match reported {
            Some(b) => b,
            None => (cached_balance - bet_amount) as u64,
        }),
{
    let fallback = cached_balance - bet_amount;
    match reported {
        Some(b) => b,
        None => fallback,
    }
}

/// Whether a refused vote was refused for want of funds, so that the
/// low-balance popup should open.
pub fn is_insufficient_funds(error_message: &str) -> (r: bool)
    ensures
        r == has_text(error_message@, "InsufficientFunds"@),
{
    contains_text(error_message, "InsufficientFunds")
}

/// The like state after a tap: the heart flips (an unknown state counts as
/// not liked) and the count follows it. Returns the new state, the new
/// count, and whether the tap was a like.
pub fn toggle_like(liked: Option<bool>, likes: u64) -> (r: (Option<bool>, u64, bool))
    requires
        liked == Some(true) ==> likes > 0,
        liked != Some(true) ==> likes < u64::MAX,
    ensures
        ({
            let should_like = !(liked == Some(true));
            &&& r.0 == tapped_heart(liked)
            &&& r.2 == should_like
            &&& r.1 == (if should_like {
                likes + 1
            } else {
                likes - 1
            })
        }),
{
    let current = match liked {
        Some(b) => b,
        None => false,
    };
    let should_like = !current;
    if should_like {
        (Some(true), likes + 1, true)
    } else {
        (Some(false), likes - 1, false)
    }
}

/// Two taps on a known like state bring it and the count back.
pub proof fn lemma_like_twice_restores(liked: bool, likes: u64)
    requires
        liked ==> likes > 0,
        !liked ==> likes < u64::MAX,
    ensures
        ({
            let once_liked = !liked;
            let once = if once_liked {
                likes + 1
            } else {
                likes - 1
            };
            let twice_liked = !once_liked;
            let twice = if twice_liked {
                once + 1
            } else {
                once - 1
            };
            twice_liked == liked && twice == likes
        }),
{
}

/// What a tap on the NSFW switch does.
#[derive(Clone, Copy, Debug, PartialEq, Eq, Structural)]
pub enum NsfwAction {
    /// NSFW content is already shown everywhere; nothing to do.
    Nothing,
    /// Ask the player for permission first.
    AskPermission,
    /// The player granted permission: turn NSFW on and reload.
    EnableAndReload,
    /// Turn NSFW off and reload.
    DisableAndReload,
}

/// The decision behind a tap on the NSFW switch, from whether NSFW content
/// is forced on, whether it is enabled, and whether the permission prompt
/// is open.
pub fn nsfw_tap(nsfw_forced: bool, nsfw_enabled: Option<bool>, permission_open: bool) -> (a: NsfwAction)
    ensures
        ({
            let enabled = nsfw_enabled == Some(true);
            a == if nsfw_forced {
                NsfwAction::Nothing
            } else if !enabled && !permission_open {
                NsfwAction::AskPermission
            } else if !enabled && permission_open {
                NsfwAction::EnableAndReload
            } else {
                NsfwAction::DisableAndReload
            }
        }),
{
    if nsfw_forced {
        return NsfwAction::Nothing;
    }
    let enabled = match nsfw_enabled {
        Some(b) => b,
        None => false,
    };
    if !enabled && !permission_open {
        NsfwAction::AskPermission
    } else if !enabled && permission_open {
        NsfwAction::EnableAndReload
    } else {
        NsfwAction::DisableAndReload
    }
}

/// What the betting overlay does next with a bet.
#[derive(Clone, Copy, Debug, PartialEq, Eq, Structural)]
pub enum BetStep {
    /// Ask the player to log in; no bet is placed.
    ShowLoginNudge,
    /// Fetch the wallet balance again, then decide once more with it.
    RefreshBalance,
    /// Open the low-balance popup; no bet is placed.
    ShowLowBalance,
    /// Sign and send the vote.
    PlaceBet,
}

/// The decision before a bet is sent. A player who is not connected and
/// picked another coin than the default is nudged to log in. A bet larger
/// than the cached balance needs the balance fetched again
/// (`refreshed_balance` is what the fetch left in the store, or nothing
/// while it has not run); if the bet still exceeds it, the low-balance
/// popup opens. Otherwise the bet is placed.
pub fn bet_step(
    is_connected: bool,
    coin: BetCoin,
    default_coin: BetCoin,
    bet_amount: u64,
    cached_balance: u64,
    refreshed_balance: Option<u64>,
) -> (r: BetStep)
    ensures
        r == (if !is_connected && coin != default_coin {
            BetStep::ShowLoginNudge
        } else if bet_amount > cached_balance {
            match refreshed_balance {
                None => BetStep::RefreshBalance,
                Some(b) => if bet_amount > b {
                    BetStep::ShowLowBalance
                } else {
                    BetStep::PlaceBet
                },
            }
        } else {
            BetStep::PlaceBet
        }),
{
    if login_nudge_needed(is_connected, coin, default_coin) {
        BetStep::ShowLoginNudge
    } else if needs_balance_refresh(bet_amount, cached_balance) {
        match refreshed_balance {
            None => BetStep::RefreshBalance,
            Some(b) => if bet_amount > b {
                BetStep::ShowLowBalance
            } else {
                BetStep::PlaceBet
            },
        }
    } else {
        BetStep::PlaceBet
    }
}

/// The heart right after a tap: the opposite of what it showed, an
/// unknown heart counting as not liked.
pub open spec fn tapped_heart(liked: Option<bool>) -> Option<bool> {
    Some(!(liked == Some(true)))
}

/// The heart once a failed like call is undone: a known state flips.
pub open spec fn failed_heart(liked: Option<bool>) -> Option<bool> {
    match liked {
        Some(b) => Some(!b),
        None => None,
    }
}

/// The heart after the like call failed: whatever state it shows flips
/// back; the count is left as the tap set it.
pub fn like_failed(liked: Option<bool>) -> (r: Option<bool>)
    ensures
        r == failed_heart(liked),
{
    match liked {
        Some(b) => Some(!b),
        None => None,
    }
}

/// A tap whose call fails shows the heart as it was before the tap (an
/// unknown heart comes back as not liked).
pub proof fn lemma_failed_like_restores_heart(liked: Option<bool>)
    ensures
        failed_heart(tapped_heart(liked)) == Some(liked == Some(true)),
{
}

} // verus!
