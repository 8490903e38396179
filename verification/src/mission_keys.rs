//! Mission ids as keys: the mission list stands for a map from id to
//! mission, which needs its ids to be distinct.
use vstd::prelude::*;
use crate::missions::Mission;

verus! {

/// No two missions share an id, so the missions form a map from id to
/// mission.
pub open spec fn ids_distinct(s: Seq<Mission>) -> bool {
    forall|a: int, b: int|
        0 <= a < s.len() && 0 <= b < s.len() && a != b ==> #[trigger] s[a].config.id@
            != #[trigger] s[b].config.id@
}

/// `b` holds missions with the same ids as `a`, in the same places.
pub open spec fn same_ids(a: Seq<Mission>, b: Seq<Mission>) -> bool {
    &&& a.len() == b.len()
    &&& forall|j: int| 0 <= j < a.len() ==> #[trigger] b[j].config.id@ == a[j].config.id@
}

/// Missions with the same ids in the same places are keyed alike: one list
/// has distinct ids exactly when the other has.
pub proof fn lemma_same_ids_keep_distinct(a: Seq<Mission>, b: Seq<Mission>)
    requires
        same_ids(a, b),
    ensures
        ids_distinct(a) == ids_distinct(b),
{
    {
    if ids_distinct(a) {
        assert forall|x: int, y: int|
            0 <= x < b.len() && 0 <= y < b.len() && x != y implies #[trigger] b[x].config.id@
            != #[trigger] b[y].config.id@ by {
            assert(a[x].config.id@ != a[y].config.id@);
        }
    }
    if ids_distinct(b) {
        assert forall|x: int, y: int|
            0 <= x < a.len() && 0 <= y < a.len() && x != y implies #[trigger] a[x].config.id@
            != #[trigger] a[y].config.id@ by {
            assert(b[x].config.id@ != b[y].config.id@);
        }
    }
    }
}


} // verus!
