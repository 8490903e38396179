//! The sliding windows of the vertical video feed: which posts are drawn,
//! which are loaded ahead, when more posts are fetched, and when the feed
//! reloads itself.
use vstd::prelude::*;
use crate::principal::{anonymous_text, ascii_lower, is_principal_text, principal_text_or_anonymous};

verus! {

/// How far post `queue_idx` lies after the current post, computed as the
/// pages compute it, on 32-bit signed integers.
pub open spec fn signed_distance(queue_idx: usize, current: usize) -> int {
    (queue_idx as i32) as int - (current as i32) as int
}

/// Whether the 32-bit difference of the two positions fits in an `i32`.
pub open spec fn distance_fits(queue_idx: usize, current: usize) -> bool {
    i32::MIN <= signed_distance(queue_idx, current) <= i32::MAX
}

/// The difference, as the pages compute it.
fn distance(queue_idx: usize, current: usize) -> (d: i32)
    requires
        distance_fits(queue_idx, current),
    ensures
        d as int == signed_distance(queue_idx, current),
{
    let a = queue_idx as i32;
    let b = current as i32;
    a - b
}

/// Whether post `queue_idx` is drawn: every post from two before the
/// current one onwards.
pub fn show_video(queue_idx: usize, current: usize) -> (r: bool)
    requires
        distance_fits(queue_idx, current),
    ensures
        r == (signed_distance(queue_idx, current) >= -2),
{
    distance(queue_idx, current) >= -2
}

/// Whether post `queue_idx` is loaded: the first six posts always, and
/// the posts from two before to ten after the current one.
pub fn to_load(queue_idx: usize, current: usize) -> (r: bool)
    requires
        distance_fits(queue_idx, current),
    ensures
        r == (queue_idx <= 5 || (-2 <= signed_distance(queue_idx, current) <= 10)),
{
    if queue_idx <= 5 {
        return true;
    }
    let d = distance(queue_idx, current);
    d <= 10 && d >= -2
}

/// Whether reaching post `queue_idx` should fetch more posts: when no
/// more than `threshold` posts remain from it to the end of the queue.
pub fn should_fetch_more(queue_len: usize, queue_idx: usize, threshold: usize) -> (r: bool)
    ensures
        r == ((if queue_len >= queue_idx {
            queue_len - queue_idx
        } else {
            0
        }) <= threshold),
{
    queue_len.saturating_sub(queue_idx) <= threshold
}

/// The new current post when post `queue_idx` comes into view: none when
/// it is already current or has not really scrolled into place.
pub fn current_after_visible(queue_idx: usize, current: usize, settled_at_top: bool) -> (r: Option<usize>)
    ensures
        r == (if settled_at_top || queue_idx == current {
            None
        } else {
            Some(queue_idx)
        }),
{
    if settled_at_top || queue_idx == current {
        None
    } else {
        Some(queue_idx)
    }
}

/// Whether the feed has run to its last slot and must reload.
pub fn needs_hard_refresh(current: usize, max_feed_elements: usize) -> (r: bool)
    requires
        max_feed_elements >= 1,
    ensures
        r == (current >= max_feed_elements - 1),
{
    current >= max_feed_elements - 1
}

/// The loaded window covers the drawn window up to ten posts ahead: a
/// drawn post at most ten places after the current one is loaded.
pub proof fn lemma_drawn_near_posts_are_loaded(queue_idx: usize, current: usize)
    requires
        distance_fits(queue_idx, current),
        signed_distance(queue_idx, current) >= -2,
        signed_distance(queue_idx, current) <= 10,
    ensures
        queue_idx <= 5 || (-2 <= signed_distance(queue_idx, current) <= 10),
{
}

/// With a fetch threshold of at least one, reaching the last post of the
/// queue always fetches more.
pub proof fn lemma_last_post_fetches(queue_len: usize, threshold: usize)
    requires
        queue_len >= 1,
        threshold >= 1,
    ensures
        (if queue_len >= (queue_len - 1) as usize {
            queue_len - (queue_len - 1) as usize
        } else {
            0
        }) <= threshold,
{
}

/// Where the queue's fetch cursor stands when a post page opens: a page
/// that already fetched past its first post, or whose queue has ended, is
/// being recovered and keeps its cursor; otherwise the cursor is set to
/// fetch one post from position one. Returns whether the page is
/// recovering, and the cursor's start and limit.
pub fn opening_cursor(start: u64, limit: u64, queue_end: bool) -> (r: (bool, u64, u64))
    ensures
        r == (if start > 1 || queue_end {
            (true, start, limit)
        } else {
            (false, 1u64, 1u64)
        }),
{
    if start > 1 || queue_end {
        (true, start, limit)
    } else {
        (false, 1, 1)
    }
}

/// How many posts in front of the current one are dropped when a post
/// page reopens on a queue: all but the last six.
pub open spec fn dropped_in_front(current: usize) -> int {
    if current >= 6 {
        current - 6
    } else {
        0
    }
}

/// Reopens a post page on the queue: a queue of more than one post drops
/// all but the six posts in front of the current one, and the current
/// position follows; a queue of at most one post becomes just the opening
/// post.
pub fn reopen_queue<T>(queue: &mut Vec<T>, current: &mut usize, initial_post: T)
    requires
        old(queue)@.len() > 1 ==> dropped_in_front(*old(current)) <= old(queue)@.len(),
    ensures
        old(queue)@.len() > 1 ==> final(queue)@ == old(queue)@.skip(dropped_in_front(*old(current)))
            && *final(current) == *old(current) - dropped_in_front(*old(current)),
        old(queue)@.len() <= 1 ==> final(queue)@ == seq![initial_post] && *final(current)
            == *old(current),
{
    if queue.len() > 1 {
        let drop = current.saturating_sub(6);
        let kept = queue.split_off(drop);
        *queue = kept;
        *current = *current - drop;
    } else {
        let mut fresh: Vec<T> = Vec::new();
        fresh.push(initial_post);
        *queue = fresh;
    }
}

/// Reopening keeps the current post current, with at most six posts in
/// front of it.
pub proof fn lemma_reopen_keeps_current<T>(queue: Seq<T>, current: usize)
    requires
        queue.len() > 1,
        current < queue.len(),
    ensures
        queue.skip(dropped_in_front(current))[current - dropped_in_front(current)] == queue[current as int],
        current - dropped_in_front(current) <= 6,
{
}

/// Whether a round of fetching posts is over: the feed has ended, or
/// enough posts (eight) arrived.
pub fn fetch_round_done(end: bool, received: usize) -> (r: bool)
    ensures
        r == (end || received >= 8),
{
    end || received >= 8
}

/// A post waiting for moderation, with its principals in their textual
/// form. Posts are told apart by their canister and their post id.
#[derive(Clone, Debug)]
pub struct ApprovalPostItem {
    pub canister_id: String,
    pub post_id: String,
    pub video_uid: String,
    pub publisher_user_id: String,
}

/// What tells two queued posts apart.
pub open spec fn item_key(i: ApprovalPostItem) -> (Seq<char>, Seq<char>) {
    (i.canister_id@, i.post_id@)
}

/// Whether a post with key `k` is among `items`.
pub open spec fn has_key(items: Seq<ApprovalPostItem>, k: (Seq<char>, Seq<char>)) -> bool {
    exists|j: int| 0 <= j < items.len() && item_key(items[j]) == k
}

/// No two queued posts share a key.
pub open spec fn keys_distinct(items: Seq<ApprovalPostItem>) -> bool {
    forall|a: int, b: int|
        0 <= a < items.len() && 0 <= b < items.len() && a != b ==> item_key(items[a]) != item_key(
            items[b],
        )
}

/// One arriving post: a new one joins the queue, and fills its feed slot
/// when the feed has a slot for it; a known one changes nothing.
pub open spec fn merge_one(
    items: Seq<ApprovalPostItem>,
    feed: Seq<Option<ApprovalPostItem>>,
    v: ApprovalPostItem,
) -> (Seq<ApprovalPostItem>, Seq<Option<ApprovalPostItem>>) {
    if has_key(items, item_key(v)) {
        (items, feed)
    } else if items.len() + 1 > feed.len() {
        (items.push(v), feed)
    } else {
        (items.push(v), feed.update(items.len() as int, Some(v)))
    }
}

/// The arriving posts, taken in order.
pub open spec fn merge_all(
    items: Seq<ApprovalPostItem>,
    feed: Seq<Option<ApprovalPostItem>>,
    vs: Seq<ApprovalPostItem>,
) -> (Seq<ApprovalPostItem>, Seq<Option<ApprovalPostItem>>)
    decreases vs.len(),
{
    if vs.len() == 0 {
        (items, feed)
    } else {
        let (a, b) = merge_all(items, feed, vs.drop_last());
        merge_one(a, b, vs.last())
    }
}

/// The moderation queue: the posts in arrival order without repeats, the
/// fixed slots of the feed, and whether the server has no more posts.
#[derive(Clone, Debug)]
pub struct ApprovalQueue {
    pub video_queue: Vec<ApprovalPostItem>,
    pub video_queue_for_feed: Vec<Option<ApprovalPostItem>>,
    pub queue_end: bool,
}

/// The queue item for a pending video reported by the moderation service:
/// the canister and the publisher are read as principals, the anonymous
/// principal standing in for text that names none.
pub fn approval_item_from(video_id: String, canister_id: &str, post_id: String, user_id: &str) -> (r:
    ApprovalPostItem)
    ensures
        r.video_uid == video_id,
        r.post_id == post_id,
        r.canister_id@ == (if is_principal_text(canister_id@) {
            ascii_lower(canister_id@)
        } else {
            anonymous_text()
        }),
        r.publisher_user_id@ == (if is_principal_text(user_id@) {
            ascii_lower(user_id@)
        } else {
            anonymous_text()
        }),
{
    ApprovalPostItem {
        video_uid: video_id,
        canister_id: principal_text_or_anonymous(canister_id),
        post_id,
        publisher_user_id: principal_text_or_anonymous(user_id),
    }
}

impl ApprovalPostItem {
    /// A field-by-field copy.
    pub fn duplicate(&self) -> (r: Self)
        ensures
            r == *self,
    {
        ApprovalPostItem {
            canister_id: self.canister_id.clone(),
            post_id: self.post_id.clone(),
            video_uid: self.video_uid.clone(),
            publisher_user_id: self.publisher_user_id.clone(),
        }
    }

    /// Whether two posts are the same post.
    pub fn same_post(&self, other: &Self) -> (r: bool)
        ensures
            r == (item_key(*self) == item_key(*other)),
    {
        self.canister_id == other.canister_id && self.post_id == other.post_id
    }
}

impl ApprovalQueue {
    /// A queue with `feed_slots` empty feed slots and no posts.
    pub fn new(feed_slots: usize) -> (q: Self)
        ensures
            q.video_queue@.len() == 0,
            q.video_queue_for_feed@ == Seq::new(feed_slots as nat, |i: int| None::<ApprovalPostItem>),
            !q.queue_end,
    {
        let mut feed: Vec<Option<ApprovalPostItem>> = Vec::new();
        let mut i: usize = 0;
        while i < feed_slots
            invariant
                i <= feed_slots,
                feed@ == Seq::new(i as nat, |j: int| None::<ApprovalPostItem>),
            decreases feed_slots - i,
        {
            feed.push(None);
            i = i + 1;
            assert(feed@ =~= Seq::new(i as nat, |j: int| None::<ApprovalPostItem>));
        }
        ApprovalQueue { video_queue: Vec::new(), video_queue_for_feed: feed, queue_end: false }
    }

    /// The offset of the next page of posts to ask for, as a `u32`.
    pub fn next_offset(&self) -> (r: u32)
        ensures
            r == self.video_queue@.len() as u32,
    {
        self.video_queue.len() as u32
    }

    /// Whether the queue holds a post with the key of `v`.
    fn contains_post(&self, v: &ApprovalPostItem) -> (r: bool)
        ensures
            r == has_key(self.video_queue@, item_key(*v)),
    {
        let mut i: usize = 0;
        while i < self.video_queue.len()
            invariant
                i <= self.video_queue@.len(),
                forall|j: int| 0 <= j < i ==> item_key(self.video_queue@[j]) != item_key(*v),
            decreases self.video_queue@.len() - i,
        {
            if self.video_queue[i].same_post(v) {
                return true;
            }
            i = i + 1;
        }
        false
    }

    /// Takes in a page of posts from the server, whose total count of
    /// pending posts is `total_count`. An empty first page ends the queue at
    /// once. Otherwise each new post joins the queue (and its feed slot,
    /// when there is one), known posts are skipped, and the queue ends once
    /// it holds all the pending posts.
    pub fn receive(&mut self, videos: Vec<ApprovalPostItem>, total_count: usize)
        requires
            keys_distinct(old(self).video_queue@),
            old(self).video_queue@.len() + videos@.len() <= usize::MAX,
        ensures
            keys_distinct(final(self).video_queue@),
            final(self).video_queue_for_feed@.len() == old(self).video_queue_for_feed@.len(),
            videos@.len() == 0 && old(self).video_queue@.len() as u32 == 0 ==> {
                &&& final(self).video_queue@ == old(self).video_queue@
                &&& final(self).video_queue_for_feed@ == old(self).video_queue_for_feed@
                &&& final(self).queue_end
            },
            !(videos@.len() == 0 && old(self).video_queue@.len() as u32 == 0) ==> {
                let (items, feed) = merge_all(
                    old(self).video_queue@,
                    old(self).video_queue_for_feed@,
                    videos@,
                );
                &&& final(self).video_queue@ == items
                &&& final(self).video_queue_for_feed@ == feed
                &&& final(self).queue_end == (old(self).queue_end || items.len() >= total_count)
            },
    {
        let offset = self.video_queue.len() as u32;
        if videos.len() == 0 && offset == 0 {
            self.queue_end = true;
            return;
        }
        let ghost start_items = self.video_queue@;
        let ghost start_feed = self.video_queue_for_feed@;
        let mut k: usize = 0;
        while k < videos.len()
            invariant
                k <= videos@.len(),
                start_items.len() + videos@.len() <= usize::MAX,
                self.video_queue@.len() <= start_items.len() + k,
                keys_distinct(self.video_queue@),
                (self.video_queue@, self.video_queue_for_feed@) == merge_all(
                    start_items,
                    start_feed,
                    videos@.take(k as int),
                ),
                self.video_queue_for_feed@.len() == start_feed.len(),
                self.queue_end == old(self).queue_end,
            decreases videos@.len() - k,
        {
            let v = &videos[k];
            assert(videos@.take(k + 1).drop_last() =~= videos@.take(k as int));
            assert(videos@.take(k + 1).last() == videos@[k as int]);
            if !self.contains_post(v) {
                let ghost before = self.video_queue@;
                self.video_queue.push(v.duplicate());
                let len = self.video_queue.len();
                if len <= self.video_queue_for_feed.len() {
                    self.video_queue_for_feed.set(len - 1, Some(v.duplicate()));
                }
                proof {
                    assert forall|a: int, b: int|
                        0 <= a < self.video_queue@.len() && 0 <= b < self.video_queue@.len() && a
                            != b implies item_key(self.video_queue@[a]) != item_key(
                        self.video_queue@[b],
                    ) by {
                        if a == before.len() {
                            assert(self.video_queue@[b] == before[b]);
                        } else if b == before.len() {
                            assert(self.video_queue@[a] == before[a]);
                        }
                    }
                }
            }
            k = k + 1;
        }
        assert(videos@.take(videos@.len() as int) =~= videos@);
        if self.video_queue.len() >= total_count {
            self.queue_end = true;
        }
    }
}

/// How much of a video was watched, as reported to the post's canister.
#[derive(Clone, Copy, Debug, PartialEq, Eq, Structural)]
pub enum ViewDetails {
    WatchedPartially { percentage_watched: u8 },
    WatchedMultipleTimes { percentage_watched: u8, watch_count: u8 },
}

/// The view report: a partial view below 95 percent, else a full view with
/// its watch count.
pub fn view_details(percentage_watched: u8, watch_count: u8) -> (r: ViewDetails)
    ensures
        r == (if percentage_watched < 95 {
            ViewDetails::WatchedPartially { percentage_watched }
        } else {
            ViewDetails::WatchedMultipleTimes { percentage_watched, watch_count }
        }),
{
    if percentage_watched < 95 {
        ViewDetails::WatchedPartially { percentage_watched }
    } else {
        ViewDetails::WatchedMultipleTimes { percentage_watched, watch_count }
    }
}

/// Posts already queued are never queued again: a page made only of
/// queued posts leaves the queue and the feed as they were.
pub proof fn lemma_known_posts_change_nothing(
    items: Seq<ApprovalPostItem>,
    feed: Seq<Option<ApprovalPostItem>>,
    vs: Seq<ApprovalPostItem>,
)
    requires
        forall|k: int| 0 <= k < vs.len() ==> has_key(items, item_key(#[trigger] vs[k])),
    ensures
        merge_all(items, feed, vs) == (items, feed),
    decreases vs.len(),
{
    if vs.len() > 0 {
        lemma_known_posts_change_nothing(items, feed, vs.drop_last());
        assert(has_key(items, item_key(vs[vs.len() - 1])));
    }
}

/// The queue only grows: whatever was queued stays queued in its place.
pub proof fn lemma_merge_keeps_prefix(
    items: Seq<ApprovalPostItem>,
    feed: Seq<Option<ApprovalPostItem>>,
    vs: Seq<ApprovalPostItem>,
)
    ensures
        merge_all(items, feed, vs).0.len() >= items.len(),
        merge_all(items, feed, vs).0.subrange(0, items.len() as int) == items,
        merge_all(items, feed, vs).1.len() == feed.len(),
    decreases vs.len(),
{
    if vs.len() > 0 {
        lemma_merge_keeps_prefix(items, feed, vs.drop_last());
        let (a, b) = merge_all(items, feed, vs.drop_last());
        if !has_key(a, item_key(vs.last())) {
            assert(a.push(vs.last()).subrange(0, items.len() as int) =~= a.subrange(
                0,
                items.len() as int,
            ));
        }
    }
}

} // verus!
