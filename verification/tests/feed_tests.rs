use page::feed::{
    current_after_visible, fetch_round_done, needs_hard_refresh, opening_cursor, reopen_queue,
    should_fetch_more, show_video, to_load, view_details, ApprovalPostItem, ApprovalQueue,
    ViewDetails,
};

fn item(canister: &str, post: &str) -> ApprovalPostItem {
    ApprovalPostItem {
        canister_id: canister.to_string(),
        post_id: post.to_string(),
        video_uid: format!("uid-{post}"),
        publisher_user_id: "2vxsx-fae".to_string(),
    }
}

#[test]
fn windows_around_the_current_post() {
    assert!(show_video(3, 5));
    assert!(!show_video(2, 5));
    assert!(show_video(40, 5));
    assert!(to_load(4, 30));
    assert!(to_load(40, 30));
    assert!(!to_load(41, 30));
    assert!(!to_load(27, 30));
    assert!(to_load(28, 30));
}

#[test]
fn fetching_and_refreshing() {
    assert!(should_fetch_more(20, 10, 10));
    assert!(!should_fetch_more(21, 10, 10));
    assert!(should_fetch_more(3, 10, 0));
    assert_eq!(current_after_visible(4, 3, false), Some(4));
    assert_eq!(current_after_visible(3, 3, false), None);
    assert_eq!(current_after_visible(4, 3, true), None);
    assert!(needs_hard_refresh(199, 200));
    assert!(!needs_hard_refresh(198, 200));
    assert!(fetch_round_done(false, 8));
    assert!(fetch_round_done(true, 0));
    assert!(!fetch_round_done(false, 7));
}

#[test]
fn opening_cursor_and_reopened_queue() {
    assert_eq!(opening_cursor(0, 10, false), (false, 1, 1));
    assert_eq!(opening_cursor(5, 10, false), (true, 5, 10));
    assert_eq!(opening_cursor(1, 10, true), (true, 1, 10));

    let mut q: Vec<u32> = (0..20).collect();
    let mut cur = 10usize;
    reopen_queue(&mut q, &mut cur, 99);
    assert_eq!(q[0], 4);
    assert_eq!(cur, 6);
    assert_eq!(q[cur], 10);

    let mut small = vec![7u32];
    let mut c = 3usize;
    reopen_queue(&mut small, &mut c, 99);
    assert_eq!(small, vec![99]);
    assert_eq!(c, 3);
}

#[test]
fn approval_queue_skips_repeats_and_fills_slots() {
    let mut q = ApprovalQueue::new(2);
    assert_eq!(q.next_offset(), 0);
    q.receive(vec![item("a", "1"), item("a", "2"), item("a", "1"), item("b", "1")], 5);
    assert_eq!(q.video_queue.len(), 3);
    assert_eq!(q.video_queue_for_feed[0].as_ref().unwrap().post_id, "1");
    assert_eq!(q.video_queue_for_feed[1].as_ref().unwrap().post_id, "2");
    assert!(!q.queue_end);
    assert_eq!(q.next_offset(), 3);
    q.receive(vec![item("b", "1"), item("c", "9")], 4);
    assert_eq!(q.video_queue.len(), 4);
    assert!(q.queue_end);
}

#[test]
fn empty_first_page_ends_the_queue() {
    let mut q = ApprovalQueue::new(3);
    q.receive(vec![], 10);
    assert!(q.queue_end);
    assert!(q.video_queue.is_empty());
}

#[test]
fn view_reports() {
    assert_eq!(view_details(40, 1), ViewDetails::WatchedPartially { percentage_watched: 40 });
    assert_eq!(
        view_details(95, 2),
        ViewDetails::WatchedMultipleTimes { percentage_watched: 95, watch_count: 2 }
    );
}
