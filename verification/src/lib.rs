//! Verified core of the Yral page layer: daily missions, mission modals,
//! hot-or-not betting rules, the pump-and-dump game model, feed windows
//! and the small form and navigation rules behind the pages.
use vstd::prelude::*;

pub mod clock;
pub mod decimal;
pub mod feed;
pub mod links;
pub mod mission_keys;
pub mod missions;
pub mod modals;
pub mod moderation;
pub mod notifications;
pub mod profile;
pub mod principal;
pub mod pumpdump;
pub mod text;
pub mod token_form;
pub mod wallet;
pub mod hotornot;
pub mod leaderboard;

verus! {

} // verus!
