//! Notification rules: the page of notifications asked for, the texts and
//! link of a notification, and the colours of its status.
use vstd::prelude::*;
use crate::decimal::{decimal, u64_to_string};

verus! {

/// What a notification is about, with the principal already written out.
#[derive(Clone, Debug)]
pub enum NotificationKind {
    VideoUpload { video_uid: String },
    Liked { by_user_principal: String, post_id: u64 },
}

/// The page of notifications that serves the entries from `start` to
/// `end`: how many to ask for and from where.
pub fn notification_page_request(start: usize, end: usize) -> (r: (u64, u64))
    requires
        start <= end,
        end - start < usize::MAX,
    ensures
        r.0 == end - start + 1,
        r.1 == start,
{
    ((end - start + 1) as u64, start as u64)
}

/// Whether a page of `received` notifications for the entries from
/// `start` to `end` was the last one.
pub fn notification_list_end(received: usize, start: usize, end: usize) -> (r: bool)
    requires
        start <= end,
    ensures
        r == (received < end - start),
{
    received < end - start
}

/// The title and the description of a notification.
pub fn notification_texts(kind: &NotificationKind) -> (r: (String, String))
    ensures
        match *kind {
            NotificationKind::VideoUpload { video_uid } => r.0@ == "Video Uploaded Sucessfully!"@
                && r.1@ == video_uid@ + " uploaded a video"@,
            NotificationKind::Liked { by_user_principal, .. } => r.0@ == "Video Liked by "@
                + by_user_principal@ && r.1@ == by_user_principal@ + " liked your video"@,
        },
{
    match kind {
        NotificationKind::VideoUpload { video_uid } => {
            let mut d = video_uid.clone();
            d.append(" uploaded a video");
            (String::from_str("Video Uploaded Sucessfully!"), d)
        },
        NotificationKind::Liked { by_user_principal, .. } => {
            let mut t = String::from_str("Video Liked by ");
            t.append(by_user_principal.as_str());
            let mut d = by_user_principal.clone();
            d.append(" liked your video");
            (t, d)
        },
    }
}

/// Where a notification leads, on the user's own canister.
pub fn notification_path(kind: &NotificationKind, user_canister: &str) -> (r: String)
    ensures
        r@ == "hot-or-not/"@ + user_canister@ + "/"@ + (match *kind {
            NotificationKind::VideoUpload { video_uid } => video_uid@,
            NotificationKind::Liked { post_id, .. } => decimal(post_id as nat),
        }),
{
    let mut s = String::from_str("hot-or-not/");
    s.append(user_canister);
    s.append("/");
    match kind {
        NotificationKind::VideoUpload { video_uid } => s.append(video_uid.as_str()),
        NotificationKind::Liked { post_id, .. } => s.append(u64_to_string(*post_id).as_str()),
    }
    s
}

/// The colours of a notification status.
pub fn status_class(status: &str) -> (r: &'static str)
    ensures
        r@ == (if status@ == "accepted"@ {
            "text-green-500 bg-green-950/80"@
        } else if status@ == "pending"@ {
            "text-yellow-500 bg-yellow-950/80"@
        } else if status@ == "rejected"@ {
            "text-red-500 bg-red-950/80"@
        } else {
            "text-gray-500 bg-gray-950/80"@
        }),
{
    proof {
        reveal_strlit("accepted");
        reveal_strlit("pending");
        reveal_strlit("rejected");
        assert("accepted"@.len() == 8 && "pending"@.len() == 7 && "rejected"@.len() == 8);
        assert("accepted"@[0] != "rejected"@[0]);
    }
    let s = String::from_str(status);
    if s == String::from_str("accepted") {
        "text-green-500 bg-green-950/80"
    } else if s == String::from_str("pending") {
        "text-yellow-500 bg-yellow-950/80"
    } else if s == String::from_str("rejected") {
        "text-red-500 bg-red-950/80"
    } else {
        "text-gray-500 bg-gray-950/80"
    }
}

} // verus!
