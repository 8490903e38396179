//! Profile rules: the website link check, the profile update fields, the
//! follow button, and the names shown in follower lists.
use vstd::prelude::*;
use crate::text::{contains_char, has_char, has_prefix, is_blank, starts_with, trims_to_empty};

verus! {

/// Whether a link already names its scheme.
pub open spec fn has_scheme(url: Seq<char>) -> bool {
    has_prefix(url, "http://"@) || has_prefix(url, "https://"@)
}

/// The link with `https://` put in front when it names no scheme.
pub open spec fn with_scheme(url: Seq<char>) -> Seq<char> {
    if has_scheme(url) {
        url
    } else {
        "https://"@ + url
    }
}

/// What the website field of the profile editor becomes: empty stays
/// empty; otherwise the link gets a scheme and must hold a dot and no space.
pub open spec fn spec_validate_url(url: Seq<char>) -> Result<Seq<char>, Seq<char>> {
    if url.len() == 0 {
        Ok(url)
    } else if has_char(with_scheme(url), ' ') || !has_char(with_scheme(url), '.') {
        Err("Invalid URL format"@)
    } else {
        Ok(with_scheme(url))
    }
}

/// The link with `https://` put in front when it names no scheme.
pub fn website_link(url: &str) -> (r: String)
    ensures
        r@ == with_scheme(url@),
{
    if !starts_with(url, "http://") && !starts_with(url, "https://") {
        let mut s = String::from_str("https://");
        s.append(url);
        s
    } else {
        String::from_str(url)
    }
}

/// Checks and completes the website link typed in the profile editor.
pub fn validate_and_format_url(url: String) -> (r: Result<String, String>)
    ensures
        match r {
            Ok(u) => spec_validate_url(url@) == Ok::<Seq<char>, Seq<char>>(u@),
            Err(e) => spec_validate_url(url@) == Err::<Seq<char>, Seq<char>>(e@),
        },
{
    if url.as_str().unicode_len() == 0 {
        return Ok(url);
    }
    let formatted = website_link(url.as_str());
    if contains_char(formatted.as_str(), ' ') || !contains_char(formatted.as_str(), '.') {
        return Err(String::from_str("Invalid URL format"));
    }
    Ok(formatted)
}

proof fn lemma_scheme_prefix(url: Seq<char>)
    ensures
        has_scheme(with_scheme(url)),
{
    reveal_strlit("https://");
    if !has_scheme(url) {
        let w = "https://"@ + url;
        assert(w.subrange(0, 8) =~= "https://"@);
    }
}

/// A checked link passes the check again unchanged, and the profile page
/// links to it as it is.
pub proof fn lemma_validated_url_is_stable(url: Seq<char>)
    requires
        spec_validate_url(url) is Ok,
    ensures
        spec_validate_url(spec_validate_url(url)->Ok_0) == spec_validate_url(url),
        with_scheme(spec_validate_url(url)->Ok_0) == spec_validate_url(url)->Ok_0 || url.len()
            == 0,
{
    if url.len() > 0 {
        lemma_scheme_prefix(url);
        let w = with_scheme(url);
        assert(w.len() > 0);
    }
}

/// The optional bio and website sent with a profile update: empty texts
/// are sent as nothing.
pub fn profile_update_fields(bio: String, website: String) -> (r: (Option<String>, Option<String>))
    ensures
        r.0 == (if bio@.len() == 0 {
            None
        } else {
            Some(bio)
        }),
        r.1 == (if website@.len() == 0 {
            None
        } else {
            Some(website)
        }),
{
    let b = if bio.as_str().unicode_len() == 0 {
        None
    } else {
        Some(bio)
    };
    let w = if website.as_str().unicode_len() == 0 {
        None
    } else {
        Some(website)
    };
    (b, w)
}

/// The label of the follow button.
pub fn follow_button_text(is_loading: bool, is_following: Option<bool>, user_follows_caller: Option<bool>) -> (r: &'static str)
    ensures
        r@ == (if is_loading {
            "Loading..."@
        } else if is_following == Some(true) {
            "Unfollow"@
        } else if user_follows_caller == Some(true) {
            "Follow Back"@
        } else {
            "Follow"@
        }),
{
    if is_loading {
        "Loading..."
    } else if is_following == Some(true) {
        "Unfollow"
    } else if user_follows_caller == Some(true) {
        "Follow Back"
    } else {
        "Follow"
    }
}

/// The look of the follow button.
pub fn follow_button_class(is_following: Option<bool>, user_follows_caller: Option<bool>) -> (r: &'static str)
    ensures
        r@ == (if is_following == Some(true) {
            "w-full bg-transparent border border-neutral-700 rounded-lg px-5 py-2.5 flex items-center justify-center"@
        } else if user_follows_caller == Some(true) {
            "w-full bg-primary-600 border border-primary-600 rounded-lg px-5 py-2.5 flex items-center justify-center"@
        } else {
            "w-full bg-[#212121] border border-neutral-700 rounded-lg px-5 py-2.5 flex items-center justify-center"@
        }),
{
    if is_following == Some(true) {
        "w-full bg-transparent border border-neutral-700 rounded-lg px-5 py-2.5 flex items-center justify-center"
    } else if user_follows_caller == Some(true) {
        "w-full bg-primary-600 border border-primary-600 rounded-lg px-5 py-2.5 flex items-center justify-center"
    } else {
        "w-full bg-[#212121] border border-neutral-700 rounded-lg px-5 py-2.5 flex items-center justify-center"
    }
}

/// Whether the caller follows a listed user: on the following tab of one's
/// own profile everyone listed is followed.
pub fn caller_follows_override(is_following_tab: bool, is_own_profile: bool, caller_follows: bool) -> (r: Option<bool>)
    ensures
        r == Some(is_following_tab && is_own_profile || caller_follows),
{
    if is_following_tab && is_own_profile {
        Some(true)
    } else {
        Some(caller_follows)
    }
}

/// The name shown for a listed user: the stored user name when it is not
/// blank, else the name generated from the principal.
pub fn listed_username(stored: Option<String>, generated: String) -> (r: String)
    ensures
        r == (match stored {
            Some(n) => if is_blank(n@) {
                generated
            } else {
                n
            },
            None => generated,
        }),
{
    match stored {
        Some(n) => {
            if trims_to_empty(n.as_str()) {
                generated
            } else {
                n
            }
        },
        None => generated,
    }
}

/// How many followers or followed users to ask for when the list wants
/// the entries from `start` to `end`: at most twenty.
pub fn follow_page_limit(start: usize, end: usize) -> (r: u64)
    requires
        start <= end,
    ensures
        r == (if end - start <= 20 {
            end - start
        } else {
            20
        }),
{
    let span = end - start;
    if span <= 20 {
        span as u64
    } else {
        20
    }
}

/// What the profile editor sends when the player saves: the bio and the
/// checked website (each left out when empty), or the error shown instead,
/// in which case nothing is sent. The website is checked first; then the
/// player must be signed in, and the account must be kept by the user
/// info service.
pub fn profile_save_request(
    bio: String,
    website: String,
    authenticated: bool,
    on_info_service: bool,
) -> (r: Result<(Option<String>, Option<String>), String>)
    ensures
        match spec_validate_url(website@) {
            Err(e) => r is Err && r->Err_0@ == e,
            Ok(w) => if !authenticated {
                r is Err && r->Err_0@ == "Not authenticated"@
            } else if !on_info_service {
                r is Err && r->Err_0@ == "Profile update not available for this account type"@
            } else {
                &&& r is Ok
                &&& r->Ok_0.0 == (if bio@.len() == 0 {
                    None
                } else {
                    Some(bio)
                })
                &&& (r->Ok_0.1 matches Some(x) ==> x@ == w)
                &&& (r->Ok_0.1 is None <==> w.len() == 0)
            },
        },
{
    let formatted = match validate_and_format_url(website) {
        Ok(u) => u,
        Err(e) => {
            return Err(e);
        },
    };
    if !authenticated {
        return Err(String::from_str("Not authenticated"));
    }
    if !on_info_service {
        return Err(String::from_str("Profile update not available for this account type"));
    }
    Ok(profile_update_fields(bio, formatted))
}

/// The service's answer to a profile update.
#[derive(Clone, Debug)]
pub enum ProfileReply {
    Saved,
    Refused(String),
    NetworkError,
}

/// The messages shown once the service has answered: the error, or the
/// success message.
pub fn profile_save_messages(reply: ProfileReply) -> (r: (Option<String>, Option<String>))
    ensures
        match reply {
            ProfileReply::Saved => r.0 is None && (r.1 matches Some(m) && m@
                == "Profile updated successfully!"@),
            ProfileReply::Refused(e) => r.1 is None && (r.0 matches Some(m) && m@
                == "Update failed: "@ + e@),
            ProfileReply::NetworkError => r.1 is None && (r.0 matches Some(m) && m@
                == "Network error. Please try again."@),
        },
{
    match reply {
        ProfileReply::Saved => (None, Some(String::from_str("Profile updated successfully!"))),
        ProfileReply::Refused(e) => {
            let mut m = String::from_str("Update failed: ");
            m.append(e.as_str());
            (Some(m), None)
        },
        ProfileReply::NetworkError => (
            Some(String::from_str("Network error. Please try again.")),
            None,
        ),
    }
}

} // verus!
