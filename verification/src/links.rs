//! The paths and links the pages build, and the tabs chosen by a query
//! parameter.
use vstd::prelude::*;
use crate::decimal::{decimal, u64_to_string};

verus! {

/// The FAQ tab for the `tab` query parameter: general, tokens or NFTs,
/// general by default.
pub fn faq_tab_index(tab: Option<&str>) -> (r: u32)
    ensures
        r == (match tab {
            Some(t) => if t@ == "tokens"@ {
                1u32
            } else if t@ == "nfts"@ {
                2u32
            } else {
                0u32
            },
            None => 0u32,
        }),
{
    proof {
        reveal_strlit("tokens");
        reveal_strlit("nfts");
        assert("tokens"@.len() == 6 && "nfts"@.len() == 4);
    }
    match tab {
        Some(t) => {
            let t = String::from_str(t);
            if t == String::from_str("tokens") {
                1
            } else if t == String::from_str("nfts") {
                2
            } else {
                0
            }
        },
        None => 0,
    }
}

/// The refer-and-earn tab for the `tab` query parameter: how-to or
/// history, how-to by default.
pub fn refer_tab_index(tab: Option<&str>) -> (r: u32)
    ensures
        r == (match tab {
            Some(t) => if t@ == "history"@ {
                1u32
            } else {
                0u32
            },
            None => 0u32,
        }),
{
    match tab {
        Some(t) => {
            if String::from_str(t) == String::from_str("history") {
                1
            } else {
                0
            }
        },
        None => 0,
    }
}

/// The link a user shares to refer friends.
pub fn refer_link(origin: &str, user_principal: &str) -> (r: String)
    ensures
        r@ == origin@ + "/?user_refer="@ + user_principal@,
{
    let mut s = String::from_str(origin);
    s.append("/?user_refer=");
    s.append(user_principal);
    s
}

/// The page of a post in the hot-or-not feed.
pub fn post_path(canister_id: &str, post_id: &str) -> (r: String)
    ensures
        r@ == "/hot-or-not/"@ + canister_id@ + "/"@ + post_id@,
{
    let mut s = String::from_str("/hot-or-not/");
    s.append(canister_id);
    s.append("/");
    s.append(post_id);
    s
}

/// The link shared for a post: the site's address followed by the post's page.
pub fn post_share_url(base_url: &str, canister_id: &str, post_id: &str) -> (r: String)
    ensures
        r@ == base_url@ + "/hot-or-not/"@ + canister_id@ + "/"@ + post_id@,
{
    let mut s = String::from_str(base_url);
    s.append(post_path(canister_id, post_id).as_str());
    s
}

/// The profile page of a post's creator.
pub fn profile_tokens_path(username_or_principal: &str) -> (r: String)
    ensures
        r@ == "/profile/"@ + username_or_principal@ + "/tokens"@,
{
    let mut s = String::from_str("/profile/");
    s.append(username_or_principal);
    s.append("/tokens");
    s
}

/// The page of a post in a profile's feed, remembering where the feed
/// continues.
pub fn profile_post_path(canister_id: &str, post_id: &str, next_start: u64) -> (r: String)
    ensures
        r@ == "/profile/"@ + canister_id@ + "/post/"@ + post_id@ + "?next="@ + decimal(
            next_start as nat,
        ),
{
    let mut s = String::from_str("/profile/");
    s.append(canister_id);
    s.append("/post/");
    s.append(post_id);
    s.append("?next=");
    s.append(u64_to_string(next_start).as_str());
    s
}

/// The profile tab a signed-in user is sent to.
pub fn profile_tab_path(id: &str, tab: &str) -> (r: String)
    ensures
        r@ == "/profile/"@ + id@ + "/"@ + tab@,
{
    let mut s = String::from_str("/profile/");
    s.append(id);
    s.append("/");
    s.append(tab);
    s
}

} // verus!
