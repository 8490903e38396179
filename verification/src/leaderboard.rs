//! Leaderboard rules: the colours of the top ranks, the sort order switch,
//! the one-time popup for a finished tournament, and where a finished
//! tournament's list starts.
use vstd::prelude::*;
use crate::clock::{month_day, month_day_of, today_month_day};

verus! {

/// The style of a rank number: gold, silver and bronze for the podium.
pub fn rank_class(rank: u32) -> (r: &'static str)
    ensures
        r@ == (if rank == 1 {
            "bg-gradient-to-r from-[#BF760B] via-[#FFE89F] to-[#C38F14] bg-clip-text text-transparent"@
        } else if rank == 2 {
            "bg-gradient-to-r from-[#2F2F30] via-[#FFFFFF] to-[#4B4B4B] bg-clip-text text-transparent"@
        } else if rank == 3 {
            "bg-gradient-to-r from-[#6D4C35] via-[#DBA374] to-[#9F7753] bg-clip-text text-transparent"@
        } else {
            "text-white"@
        }),
{
    match rank {
        1 => "bg-gradient-to-r from-[#BF760B] via-[#FFE89F] to-[#C38F14] bg-clip-text text-transparent",
        2 => "bg-gradient-to-r from-[#2F2F30] via-[#FFFFFF] to-[#4B4B4B] bg-clip-text text-transparent",
        3 => "bg-gradient-to-r from-[#6D4C35] via-[#DBA374] to-[#9F7753] bg-clip-text text-transparent",
        _ => "text-white",
    }
}

/// The colour of a user name by rank.
pub fn username_color(rank: u32) -> (r: &'static str)
    ensures
        r@ == (if rank == 1 {
            "text-[#FDBF01]"@
        } else if rank == 2 {
            "text-[#DCDCDC]"@
        } else if rank == 3 {
            "text-[#D99979]"@
        } else {
            "text-white"@
        }),
{
    match rank {
        1 => "text-[#FDBF01]",
        2 => "text-[#DCDCDC]",
        3 => "text-[#D99979]",
        _ => "text-white",
    }
}

/// The sort order after a tap on a sortable column: ascending becomes
/// descending, anything else becomes ascending.
pub open spec fn spec_toggle_sort(order: Seq<char>) -> Seq<char> {
    if order == "asc"@ {
        "desc"@
    } else {
        "asc"@
    }
}

pub fn toggle_sort_order(order: &str) -> (r: String)
    ensures
        r@ == spec_toggle_sort(order@),
{
    if String::from_str(order) == String::from_str("asc") {
        String::from_str("desc")
    } else {
        String::from_str("asc")
    }
}

/// Two taps bring a valid sort order back.
pub proof fn lemma_toggle_sort_twice(order: Seq<char>)
    requires
        order == "asc"@ || order == "desc"@,
    ensures
        spec_toggle_sort(spec_toggle_sort(order)) == order,
{
    reveal_strlit("asc");
    reveal_strlit("desc");
}

/// Whether the list holds the tournament id.
pub open spec fn seen_contains(seen: Seq<String>, id: Seq<char>) -> bool {
    exists|i: int| 0 <= i < seen.len() && seen[i]@ == id
}

/// Decides whether the popup for a finished tournament opens: it opens the
/// first time a completed tournament is seen, and the tournament is then
/// remembered. Returns whether to open it and the updated list.
pub fn completion_popup(status: &str, tournament_id: String, seen: Vec<String>) -> (r: (bool, Vec<String>))
    ensures
        ({
            let opens = status@ == "completed"@ && !seen_contains(seen@, tournament_id@);
            &&& r.0 == opens
            &&& r.1@ == (if opens {
                seen@.push(tournament_id)
            } else {
                seen@
            })
        }),
{
    if String::from_str(status) != String::from_str("completed") {
        return (false, seen);
    }
    let mut i: usize = 0;
    while i < seen.len()
        invariant
            i <= seen@.len(),
            forall|j: int| 0 <= j < i ==> seen@[j]@ != tournament_id@,
        decreases seen@.len() - i,
    {
        if seen[i] == tournament_id {
            return (false, seen);
        }
        i = i + 1;
    }
    let mut seen = seen;
    seen.push(tournament_id);
    (true, seen)
}

/// The popup for a tournament opens at most once: with the list it
/// returned, a second look at the same tournament does not open it.
pub proof fn lemma_popup_once(seen: Seq<String>, id: String)
    ensures
        seen_contains(seen.push(id), id@),
{
    assert(seen.push(id)[seen.len() as int] == id);
}

/// Where the ranking list of a tournament starts: a finished tournament
/// shows its first three on the podium, so the list skips them.
pub fn ranking_start_offset(is_completed: bool) -> (r: usize)
    ensures
        r == (if is_completed {
            3usize
        } else {
            0usize
        }),
{
    if is_completed {
        3
    } else {
        0
    }
}

/// The tournament whose page is asked for: its id, or the refusal when
/// the page names no tournament.
pub fn tournament_to_fetch(tournament_id: &str) -> (r: Result<String, String>)
    ensures
        tournament_id@.len() == 0 ==> r is Err && r->Err_0@ == "No tournament ID provided"@,
        tournament_id@.len() > 0 ==> r is Ok && r->Ok_0@ == tournament_id@,
{
    if tournament_id.unicode_len() == 0 {
        Err(String::from_str("No tournament ID provided"))
    } else {
        Ok(String::from_str(tournament_id))
    }
}

/// Whether the podium's three winners are fetched: only for a completed
/// tournament that the page names.
pub fn podium_wanted(status: &str, tournament_id: &str) -> (r: bool)
    ensures
        r == (status@ == "completed"@ && tournament_id@.len() > 0),
{
    String::from_str(status) == String::from_str("completed") && tournament_id.unicode_len() > 0
}

/// Whether the player's own row is pinned under the table header: when
/// the player is ranked below the podium and the row itself is out of
/// view.
pub fn sticky_user_row(user_row_visible: bool, user_rank: Option<u32>) -> (r: bool)
    ensures
        r == (!user_row_visible && (user_rank matches Some(rank) && rank > 3)),
{
    !user_row_visible && match user_rank {
        Some(rank) => rank > 3,
        None => false,
    }
}

/// A tournament date as its month and day ("Mar 07"); today's date
/// stands in for a timestamp outside the calendar.
pub fn format_date(timestamp: i64) -> (r: String)
    ensures
        month_day(timestamp as int) matches Some(t) ==> r@ == t,
{
    match month_day_of(timestamp) {
        Some(t) => t,
        None => today_month_day(),
    }
}

} // verus!
