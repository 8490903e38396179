//! The pump-and-dump game model: game state and results, the running game
//! data, the player's data, the profile card query, and the conversion of
//! e8s balances to cents.
use vstd::prelude::*;
use candid::Principal;
use crate::decimal::{ParseFailure, failure_message, failure_text, parse_bounded_detailed, parse_unsigned_detailed};

verus! {

/// Candid's principal, carried through as an opaque value.
#[verifier::external_type_specification]
#[verifier::external_body]
pub struct ExPrincipal(candid::Principal);

/// The result of a game; a game is never drawn.
#[derive(Clone, Copy, Debug, PartialEq, Eq, Structural)]
pub enum GameResult {
    Win { amount: u128 },
    Loss { amount: u128 },
}

/// The current state of a game.
#[derive(Clone, Copy, Debug, PartialEq, Eq, Structural)]
pub enum GameState {
    Playing,
    ResultDeclared(GameResult),
}

impl GameState {
    /// The winnings, when the game is declared won.
    pub fn winnings(&self) -> (r: Option<u128>)
        ensures
            r == (match *self {
                GameState::ResultDeclared(GameResult::Win { amount }) => Some(amount),
                _ => None::<u128>,
            }),
    {
        match self {
            GameState::ResultDeclared(GameResult::Win { amount }) => Some(*amount),
            _ => None,
        }
    }

    /// The amount lost, when the game is declared lost.
    pub fn lossings(&self) -> (r: Option<u128>)
        ensures
            r == (match *self {
                GameState::ResultDeclared(GameResult::Loss { amount }) => Some(amount),
                _ => None::<u128>,
            }),
    {
        match self {
            GameState::ResultDeclared(GameResult::Loss { amount }) => Some(*amount),
            _ => None,
        }
    }

    /// Whether the player has lost.
    pub fn has_lost(&self) -> (r: bool)
        ensures
            r == (*self matches GameState::ResultDeclared(GameResult::Loss { .. })),
    {
        match self {
            GameState::ResultDeclared(GameResult::Loss { .. }) => true,
            _ => false,
        }
    }

    /// Whether the player has won.
    pub fn has_won(&self) -> (r: bool)
        ensures
            r == (*self matches GameState::ResultDeclared(GameResult::Win { .. })),
    {
        match self {
            GameState::ResultDeclared(GameResult::Win { .. }) => true,
            _ => false,
        }
    }

    /// Whether the game is still being played.
    pub fn is_running(&self) -> (r: bool)
        ensures
            r == (*self is Playing),
    {
        match self {
            GameState::Playing => true,
            _ => false,
        }
    }
}

/// A game is in exactly one of three situations: running, won or lost; it
/// has winnings exactly when won and a loss exactly when lost.
pub proof fn lemma_game_state_exclusive(g: GameState)
    ensures
        (g is Playing) || (g matches GameState::ResultDeclared(GameResult::Win { .. })) || (
        g matches GameState::ResultDeclared(GameResult::Loss { .. })),
        !((g matches GameState::ResultDeclared(GameResult::Win { .. })) && (
        g matches GameState::ResultDeclared(GameResult::Loss { .. }))),
        (g is Playing) ==> !(g is ResultDeclared),
{
}

/// The data a running game needs: pumps, dumps, the pot when known, and
/// the (already inflated) player count.
#[derive(Clone, Copy, Debug, PartialEq, Eq, Structural)]
pub struct GameRunningData {
    pub pumps: u64,
    pub dumps: u64,
    pub winning_pot: Option<u64>,
    pub player_count: u64,
}

impl GameRunningData {
    /// Running data whose player count is the estimate already computed
    /// from the server's count.
    pub fn from_estimate(pumps: u64, dumps: u64, estimated_player_count: u64, winning_pot: Option<u64>) -> (d: Self)
        ensures
            d == (GameRunningData { pumps, dumps, winning_pot, player_count: estimated_player_count }),
    {
        Self { pumps, dumps, player_count: estimated_player_count, winning_pot }
    }
}

/// The player's overall statistics.
#[derive(Clone, Copy, Debug, PartialEq, Eq, Structural)]
pub struct PlayerData {
    pub games_count: u64,
    pub wallet_balance: u128,
}

impl PlayerData {
    pub fn new(games_count: u64, wallet_balance: u128) -> (d: Self)
        ensures
            d == (PlayerData { games_count, wallet_balance }),
    {
        Self { games_count, wallet_balance }
    }
}

/// The query parameters of a game card opened from the profile.
#[derive(Debug)]
pub struct CardQuery {
    pub root: Principal,
    pub state: String,
    pub amount: Option<u128>,
}

/// The coherent queries: a win or a loss with an amount, or a pending
/// game without one.
pub open spec fn card_query_valid(state: Seq<char>, amount: Option<u128>) -> bool {
    ||| state == "win"@ && amount is Some
    ||| state == "loss"@ && amount is Some
    ||| state == "pending"@ && amount is None
}

/// Whether two strings hold the same characters.
fn same_text(a: &str, b: &str) -> (r: bool)
    ensures
        r == (a@ == b@),
{
    String::from_str(a) == String::from_str(b)
}

proof fn lemma_states_distinct()
    ensures
        "win"@.len() == 3,
        "loss"@.len() == 4,
        "pending"@.len() == 7,
{
    reveal_strlit("win");
    reveal_strlit("loss");
    reveal_strlit("pending");
}

impl CardQuery {
    /// Whether the query parameters are coherent.
    pub fn is_valid(&self) -> (r: bool)
        ensures
            r == card_query_valid(self.state@, self.amount),
    {
        proof {
            lemma_states_distinct();
        }
        let state = self.state.as_str();
        if same_text(state, "win") || same_text(state, "loss") {
            self.amount.is_some()
        } else if same_text(state, "pending") {
            self.amount.is_none()
        } else {
            false
        }
    }

    /// The root and the declared result of a coherent query; an incoherent
    /// one is a caller's error (the page panics on it).
    pub fn details(&self) -> (r: (Principal, Option<GameResult>))
        requires
            card_query_valid(self.state@, self.amount),
        ensures
            r.0 == self.root,
            self.state@ == "win"@ ==> r.1 == Some(GameResult::Win { amount: self.amount->0 }),
            self.state@ == "loss"@ ==> r.1 == Some(GameResult::Loss { amount: self.amount->0 }),
            self.state@ == "pending"@ ==> r.1 is None,
    {
        proof {
            lemma_states_distinct();
        }
        let state = self.state.as_str();
        if same_text(state, "win") {
            match self.amount {
                Some(amount) => (self.root, Some(GameResult::Win { amount })),
                None => (self.root, None),
            }
        } else if same_text(state, "loss") {
            match self.amount {
                Some(amount) => (self.root, Some(GameResult::Loss { amount })),
                None => (self.root, None),
            }
        } else {
            (self.root, None)
        }
    }
}

/// 2^64, the weight of one 64-bit limb.
pub open spec fn limb_base() -> nat {
    0x1_0000_0000_0000_0000
}

/// The value of little-endian 64-bit limbs (least significant first).
pub open spec fn limbs_value(s: Seq<u64>) -> nat
    decreases s.len(),
{
    if s.len() == 0 {
        0
    } else {
        s[0] as nat + limb_base() * limbs_value(s.drop_first())
    }
}

/// Cents in one e8s-denominated token: 1 token is 100 cents and 10^8 e8s.
pub open spec fn e8s_to_cents(e8s: nat) -> nat {
    e8s * 100 / 100_000_000
}

/// The value of the limbs from `k` to the top.
pub open spec fn top_value(s: Seq<u64>, k: int) -> nat {
    limbs_value(s.subrange(k, s.len() as int))
}

proof fn lemma_top_step(s: Seq<u64>, k: int)
    requires
        0 < k <= s.len(),
    ensures
        top_value(s, k - 1) == s[k - 1] + limb_base() * top_value(s, k),
{
    assert(s.subrange(k - 1, s.len() as int).drop_first() =~= s.subrange(k, s.len() as int));
}

proof fn lemma_top_monotone(s: Seq<u64>, k: int)
    requires
        0 <= k <= s.len(),
    ensures
        top_value(s, k) <= top_value(s, 0),
    decreases k,
{
    if k > 0 {
        lemma_top_monotone(s, k - 1);
        lemma_top_step(s, k);
        assert(top_value(s, k) <= limb_base() * top_value(s, k)) by (nonlinear_arith);
    }
}

proof fn lemma_div_step(hi: nat, limb: nat, q: nat, r: nat, d: nat)
    requires
        d == 1_000_000,
        q == hi / d,
        r == hi % d,
    ensures
        (limb + limb_base() * hi) / d == q * limb_base() + (r * limb_base() + limb) / d,
        (limb + limb_base() * hi) % d == (r * limb_base() + limb) % d,
{
    let b = limb_base();
    assert(hi == q * d + r) by (nonlinear_arith)
        requires
            q == hi / d,
            r == hi % d,
            d > 0,
    ;
    assert(limb + b * hi == (q * b) * d + (r * b + limb)) by (nonlinear_arith)
        requires
            hi == q * d + r,
    ;
    vstd::arithmetic::div_mod::lemma_fundamental_div_mod_converse(
        (limb + b * hi) as int,
        d as int,
        (q * b + (r * b + limb) / d) as int,
        ((r * b + limb) % d) as int,
    );
    assert((limb + b * hi) as int == (q * b + (r * b + limb) / d) * d + (r * b + limb) % d)
        by (nonlinear_arith)
        requires
            limb + b * hi == (q * b) * d + (r * b + limb),
            d > 0,
    {
        assert((r * b + limb) == ((r * b + limb) / d) * d + (r * b + limb) % d) by (nonlinear_arith)
            requires
                d > 0,
        ;
    }
}

/// Converts an e8s amount, given as little-endian 64-bit limbs, to cents.
/// The conversion is defined whenever the cents fit in a `u128`.
pub fn convert_e8s_to_cents(limbs: &Vec<u64>) -> (cents: u128)
    requires
        e8s_to_cents(limbs_value(limbs@)) <= u128::MAX,
    ensures
        cents as nat == e8s_to_cents(limbs_value(limbs@)),
{
    let ghost s = limbs@;
    let d: u128 = 1_000_000;
    proof {
        let v = limbs_value(s);
        assert(v * 100 / 100_000_000 == v / 1_000_000) by {
            vstd::arithmetic::div_mod::lemma_div_denominator(v as int * 100, 100, 1_000_000);
            vstd::arithmetic::div_mod::lemma_div_multiples_vanish(v as int, 100);
        }
        assert(s.subrange(0, s.len() as int) =~= s);
    }
    let mut k: usize = limbs.len();
    let mut acc: u128 = 0;
    let mut rem: u128 = 0;
    proof {
        assert(s.subrange(k as int, s.len() as int) =~= Seq::<u64>::empty());
    }
    while k > 0
        invariant
            s == limbs@,
            k <= s.len(),
            d == 1_000_000,
            acc as nat == top_value(s, k as int) / 1_000_000,
            rem as nat == top_value(s, k as int) % 1_000_000,
            top_value(s, 0) / 1_000_000 <= u128::MAX,
        decreases k,
    {
        let limb = limbs[k - 1];
        proof {
            lemma_top_step(s, k as int);
            lemma_div_step(top_value(s, k as int), limb as nat, acc as nat, rem as nat, 1_000_000);
            lemma_top_monotone(s, k as int - 1);
            vstd::arithmetic::div_mod::lemma_div_is_ordered(
                top_value(s, k as int - 1) as int,
                top_value(s, 0) as int,
                1_000_000,
            );
            assert(rem * limb_base() + limb < 0x1_0000_0000_0000_0000_0000_0000_0000) by (nonlinear_arith)
                requires
                    rem < 1_000_000,
                    limb < limb_base(),
            ;
        }
        let cur: u128 = rem * 0x1_0000_0000_0000_0000 + limb as u128;
        let q: u128 = cur / d;
        proof {
            assert(acc * limb_base() + q <= u128::MAX);
            assert(acc * limb_base() <= u128::MAX);
        }
        acc = acc * 0x1_0000_0000_0000_0000 + q;
        rem = cur % d;
        k = k - 1;
    }
    acc
}

/// The player count read from the worker's answer, or the error the
/// game's loading reports when the answer is not a `u64`.
pub fn player_count_from_text(text: &str) -> (r: Result<u64, String>)
    ensures
        match parse_unsigned_detailed(text@, u64::MAX as nat) {
            Ok(n) => r is Ok && r->Ok_0 == n,
            Err(e) => r is Err && r->Err_0@ == "Couldn't parse player count from response: "@
                + failure_text(e),
        },
{
    match parse_bounded_detailed(text, 0xffff_ffff_ffff_ffffu128) {
        Ok(n) => Ok(n as u64),
        Err(e) => {
            let mut m = String::from_str("Couldn't parse player count from response: ");
            m.append(failure_message(e));
            Err(m)
        },
    }
}

/// The game count read from the worker's answer, or why it is no `u64`.
pub fn games_count_from_text(text: &str) -> (r: Result<u64, ParseFailure>)
    ensures
        match parse_unsigned_detailed(text@, u64::MAX as nat) {
            Ok(n) => r == Ok::<u64, ParseFailure>(n as u64),
            Err(e) => r == Err::<u64, ParseFailure>(e),
        },
{
    match parse_bounded_detailed(text, 0xffff_ffff_ffff_ffffu128) {
        Ok(n) => Ok(n as u64),
        Err(e) => Err(e),
    }
}

} // verus!
