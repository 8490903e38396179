use page::decimal::{parse_bounded, u128_to_string, u64_to_string};
use page::links::{
    faq_tab_index, post_path, post_share_url, profile_post_path, profile_tab_path,
    profile_tokens_path, refer_link, refer_tab_index,
};

#[test]
fn faq_tabs_follow_the_query() {
    assert_eq!(faq_tab_index(None), 0);
    assert_eq!(faq_tab_index(Some("general")), 0);
    assert_eq!(faq_tab_index(Some("tokens")), 1);
    assert_eq!(faq_tab_index(Some("nfts")), 2);
    assert_eq!(faq_tab_index(Some("NFTs")), 0);
}

#[test]
fn refer_tabs_follow_the_query() {
    assert_eq!(refer_tab_index(None), 0);
    assert_eq!(refer_tab_index(Some("how-to")), 0);
    assert_eq!(refer_tab_index(Some("history")), 1);
}

#[test]
fn links_are_built_from_their_parts() {
    assert_eq!(
        refer_link("https://yral.com", "abc-123"),
        "https://yral.com/?user_refer=abc-123"
    );
    assert_eq!(post_path("c1", "42"), "/hot-or-not/c1/42");
    assert_eq!(
        post_share_url("https://yral.com", "c1", "42"),
        "https://yral.com/hot-or-not/c1/42"
    );
    assert_eq!(profile_tokens_path("alice"), "/profile/alice/tokens");
    assert_eq!(profile_post_path("c1", "9", 30), "/profile/c1/post/9?next=30");
    assert_eq!(profile_tab_path("alice", "posts"), "/profile/alice/posts");
}

#[test]
fn written_numbers_read_back() {
    for n in [0u64, 1, 9, 10, 99, 100, 123456789, u64::MAX] {
        assert_eq!(parse_bounded(u64_to_string(n).as_str(), u64::MAX as u128), Some(n as u128));
    }
    assert_eq!(parse_bounded(u128_to_string(u128::MAX).as_str(), u128::MAX), Some(u128::MAX));
}
