use page::leaderboard::{
    completion_popup, rank_class, ranking_start_offset, toggle_sort_order, username_color,
};
use page::moderation::{
    delete_user_status, pending_videos_status, verdict_status, ModerationVerdict,
};
use page::notifications::{
    notification_list_end, notification_page_request, notification_path, notification_texts,
    status_class, NotificationKind,
};
use page::profile::{
    caller_follows_override, follow_button_class, follow_button_text, follow_page_limit,
    listed_username, profile_update_fields, validate_and_format_url, website_link,
};
use page::token_form::{create_disabled, TokenFormValidity};
use page::wallet::{
    can_send, check_transfer_amount, max_transferable, non_empty_string_validator,
    non_empty_string_validator_for_u64, sats_from_input, transfer_route, withdraw_button_disabled,
    withdraw_button_message, withdraw_result_path, TokenRoot, TransferRoute,
};

#[test]
fn website_links_are_checked() {
    assert_eq!(validate_and_format_url(String::new()), Ok(String::new()));
    assert_eq!(
        validate_and_format_url("yral.com".to_string()),
        Ok("https://yral.com".to_string())
    );
    assert_eq!(
        validate_and_format_url("http://yral.com".to_string()),
        Ok("http://yral.com".to_string())
    );
    assert_eq!(
        validate_and_format_url("my site.com".to_string()),
        Err("Invalid URL format".to_string())
    );
    assert_eq!(
        validate_and_format_url("localhost".to_string()),
        Err("Invalid URL format".to_string())
    );
    let once = validate_and_format_url("yral.com".to_string()).unwrap();
    assert_eq!(validate_and_format_url(once.clone()), Ok(once.clone()));
    assert_eq!(website_link(&once), once);
    assert_eq!(website_link("a.b"), "https://a.b");
}

#[test]
fn profile_fields_and_follow_button() {
    assert_eq!(profile_update_fields(String::new(), "x.y".to_string()), (None, Some("x.y".to_string())));
    assert_eq!(follow_button_text(true, Some(true), None), "Loading...");
    assert_eq!(follow_button_text(false, Some(true), Some(true)), "Unfollow");
    assert_eq!(follow_button_text(false, Some(false), Some(true)), "Follow Back");
    assert_eq!(follow_button_text(false, None, None), "Follow");
    assert!(follow_button_class(None, Some(true)).contains("bg-primary-600"));
    assert_eq!(caller_follows_override(true, true, false), Some(true));
    assert_eq!(caller_follows_override(true, false, false), Some(false));
    assert_eq!(listed_username(Some("  \t".to_string()), "gen".to_string()), "gen");
    assert_eq!(listed_username(Some("ana".to_string()), "gen".to_string()), "ana");
    assert_eq!(listed_username(None, "gen".to_string()), "gen");
    assert_eq!(follow_page_limit(0, 50), 20);
    assert_eq!(follow_page_limit(10, 15), 5);
}

#[test]
fn leaderboard_rules() {
    assert_eq!(username_color(1), "text-[#FDBF01]");
    assert_eq!(username_color(4), "text-white");
    assert!(rank_class(3).contains("#DBA374"));
    assert_eq!(toggle_sort_order("asc"), "desc");
    assert_eq!(toggle_sort_order("desc"), "asc");
    assert_eq!(toggle_sort_order("rank"), "asc");
    let (open, seen) = completion_popup("completed", "t1".to_string(), vec![]);
    assert!(open);
    assert_eq!(seen, vec!["t1".to_string()]);
    let (again, seen2) = completion_popup("completed", "t1".to_string(), seen.clone());
    assert!(!again);
    assert_eq!(seen2, seen);
    let (live, _) = completion_popup("active", "t2".to_string(), vec![]);
    assert!(!live);
    assert_eq!(ranking_start_offset(true), 3);
    assert_eq!(ranking_start_offset(false), 0);
}

#[test]
fn wallet_rules() {
    assert_eq!(max_transferable(100, 10), 90);
    assert_eq!(max_transferable(10, 10), 0);
    assert_eq!(check_transfer_amount(None, 90), Err("Invalid amount".to_string()));
    assert_eq!(
        check_transfer_amount(Some(91), 90),
        Err("Sorry, there are not enough funds in this account".to_string())
    );
    assert_eq!(check_transfer_amount(Some(0), 90), Err("Cannot send 0 tokens".to_string()));
    assert_eq!(check_transfer_amount(Some(90), 90), Ok(90));
    assert!(can_send(true, true, false));
    assert!(!can_send(true, true, true));
    assert_eq!(transfer_route(TokenRoot::Other), Ok(TransferRoute::SnsLedger));
    assert_eq!(transfer_route(TokenRoot::Usdc), Ok(TransferRoute::ChainKeyLedger));
    assert_eq!(transfer_route(TokenRoot::Sats), Err("Satoshis cannot be transferred".to_string()));
    assert_eq!(transfer_route(TokenRoot::Coyns), Err("Coyns cannot be transferred".to_string()));
    assert_eq!(sats_from_input("1500"), 1500);
    assert_eq!(sats_from_input("12x"), 0);
    assert_eq!(sats_from_input(""), 0);
    assert_eq!(withdraw_button_message(true, true, false), "Enter Amount");
    assert_eq!(withdraw_button_message(false, true, true), "Claiming...");
    assert_eq!(withdraw_button_message(false, true, false), "Withdraw Now!");
    assert!(withdraw_button_disabled(true, true));
    assert_eq!(withdraw_result_path(25, None), "/hot-or-not/withdraw/success?sats=25");
    assert_eq!(
        withdraw_result_path(25, Some("Not implmented yet")),
        "/hot-or-not/withdraw/failure?sats=25&err=Not implmented yet"
    );
    assert_eq!(non_empty_string_validator(String::new()), None);
    assert_eq!(non_empty_string_validator("DOGE".to_string()), Some("DOGE".to_string()));
    assert_eq!(non_empty_string_validator_for_u64("100000000".to_string()), Some(100000000));
    assert_eq!(non_empty_string_validator_for_u64("-5".to_string()), None);
    assert_eq!(non_empty_string_validator_for_u64(String::new()), None);
}

#[test]
fn notification_rules() {
    assert_eq!(notification_page_request(10, 19), (10, 10));
    assert!(notification_list_end(3, 10, 19));
    assert!(!notification_list_end(10, 10, 19));
    let up = NotificationKind::VideoUpload { video_uid: "v1".to_string() };
    let (t, d) = notification_texts(&up);
    assert_eq!(t, "Video Uploaded Sucessfully!");
    assert_eq!(d, "v1 uploaded a video");
    let liked = NotificationKind::Liked { by_user_principal: "abc".to_string(), post_id: 42 };
    let (t, d) = notification_texts(&liked);
    assert_eq!(t, "Video Liked by abc");
    assert_eq!(d, "abc liked your video");
    assert_eq!(notification_path(&liked, "can"), "hot-or-not/can/42");
    assert_eq!(notification_path(&up, "can"), "hot-or-not/can/v1");
    assert_eq!(status_class("pending"), "text-yellow-500 bg-yellow-950/80");
    assert_eq!(status_class("other"), "text-gray-500 bg-gray-950/80");
}

#[test]
fn moderation_statuses() {
    assert_eq!(
        pending_videos_status(401, "401 Unauthorized"),
        Err("Unauthorized: Invalid delegated identity".to_string())
    );
    assert_eq!(
        pending_videos_status(500, "500 Internal Server Error"),
        Err("Failed to fetch pending videos: HTTP 500 Internal Server Error".to_string())
    );
    assert_eq!(pending_videos_status(200, "200 OK"), Ok(()));
    let nf = verdict_status(ModerationVerdict::Approve, "v9", 404, "404 Not Found")
        .unwrap()
        .unwrap();
    assert!(!nf.success);
    assert_eq!(nf.message, "Video v9 not found");
    assert_eq!(
        verdict_status(ModerationVerdict::Disapprove, "v9", 403, "403 Forbidden").unwrap_err(),
        "Forbidden: You are not a whitelisted moderator"
    );
    assert_eq!(
        verdict_status(ModerationVerdict::Disapprove, "v9", 502, "502 Bad Gateway").unwrap_err(),
        "Failed to disapprove video: HTTP 502 Bad Gateway"
    );
    assert!(verdict_status(ModerationVerdict::Approve, "v9", 200, "200 OK").unwrap().is_none());
    assert_eq!(delete_user_status(204, "204 No Content"), Ok(()));
    assert_eq!(
        delete_user_status(500, "500 Internal Server Error"),
        Err("Delete user failed with status: 500 Internal Server Error".to_string())
    );
}

#[test]
fn token_form_counts_fields_in_error() {
    let mut f = TokenFormValidity::new();
    let name = f.register_field(false);
    let desc = f.register_field(true);
    assert_eq!(f.invalid_cnt, 1);
    f.field_input(name, true);
    assert_eq!(f.invalid_cnt, 0);
    f.field_input(desc, false);
    assert_eq!(f.invalid_cnt, 1);
    assert!(f.shows_error(desc));
    assert!(!f.shows_error(name));
    f.field_input(desc, false);
    assert_eq!(f.invalid_cnt, 1);
    f.reset();
    assert_eq!(f.invalid_cnt, 0);
    assert!(create_disabled(false, true, true, true, true, true, 1));
    assert!(!create_disabled(false, true, true, true, true, true, 0));
    assert!(create_disabled(false, true, false, true, true, true, 0));
}
