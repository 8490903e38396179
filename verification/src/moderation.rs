//! What the moderation and account services' HTTP answers mean: which
//! statuses are refusals, which are failures, and which carry a body to
//! read.
use vstd::prelude::*;

verus! {

/// A moderator's verdict on a pending video.
#[derive(Clone, Copy, Debug, PartialEq, Eq, Structural)]
pub enum ModerationVerdict {
    Approve,
    Disapprove,
}

/// The answer to a verdict.
#[derive(Clone, Debug)]
pub struct ModerationActionResponse {
    pub success: bool,
    pub message: String,
}

/// Whether an HTTP status is a success (2xx).
pub open spec fn is_success(status: u16) -> bool {
    200 <= status <= 299
}

/// The refusal for a rejected moderator identity.
pub open spec fn unauthorized_message() -> Seq<char> {
    "Unauthorized: Invalid delegated identity"@
}

/// The refusal for an identity that is not a moderator.
pub open spec fn forbidden_message() -> Seq<char> {
    "Forbidden: You are not a whitelisted moderator"@
}

/// What the status of the pending-videos request means: an error, or
/// `Ok` when the body is to be read. `status_text` is the status as HTTP
/// writes it ("500 Internal Server Error").
pub fn pending_videos_status(status: u16, status_text: &str) -> (r: Result<(), String>)
    ensures
        status == 401 ==> r is Err && r->Err_0@ == unauthorized_message(),
        status == 403 ==> r is Err && r->Err_0@ == forbidden_message(),
        status != 401 && status != 403 && !is_success(status) ==> r is Err && r->Err_0@
            == "Failed to fetch pending videos: HTTP "@ + status_text@,
        status != 401 && status != 403 && is_success(status) ==> r is Ok,
{
    if status == 401 {
        return Err(String::from_str("Unauthorized: Invalid delegated identity"));
    }
    if status == 403 {
        return Err(String::from_str("Forbidden: You are not a whitelisted moderator"));
    }
    if !(200 <= status && status <= 299) {
        let mut m = String::from_str("Failed to fetch pending videos: HTTP ");
        m.append(status_text);
        return Err(m);
    }
    Ok(())
}

/// What the status of a verdict request means: an error, a ready answer
/// for a video the service does not know, or `Ok(None)` when the body is
/// to be read.
pub fn verdict_status(verdict: ModerationVerdict, video_id: &str, status: u16, status_text: &str) -> (r: Result<Option<ModerationActionResponse>, String>)
    ensures
        status == 401 ==> r is Err && r->Err_0@ == unauthorized_message(),
        status == 403 ==> r is Err && r->Err_0@ == forbidden_message(),
        status == 404 ==> (r matches Ok(Some(a)) && !a.success && a.message@ == "Video "@
            + video_id@ + " not found"@),
        status != 401 && status != 403 && status != 404 && !is_success(status) ==> r is Err
            && r->Err_0@ == (match verdict {
            ModerationVerdict::Approve => "Failed to approve video: HTTP "@,
            ModerationVerdict::Disapprove => "Failed to disapprove video: HTTP "@,
        }) + status_text@,
        status != 401 && status != 403 && status != 404 && is_success(status) ==> r == Ok::<
            Option<ModerationActionResponse>,
            String,
        >(None),
{
    if status == 401 {
        return Err(String::from_str("Unauthorized: Invalid delegated identity"));
    }
    if status == 403 {
        return Err(String::from_str("Forbidden: You are not a whitelisted moderator"));
    }
    if status == 404 {
        let mut m = String::from_str("Video ");
        m.append(video_id);
        m.append(" not found");
        return Ok(Some(ModerationActionResponse { success: false, message: m }));
    }
    if !(200 <= status && status <= 299) {
        let mut m = match verdict {
            ModerationVerdict::Approve => String::from_str("Failed to approve video: HTTP "),
            ModerationVerdict::Disapprove => String::from_str("Failed to disapprove video: HTTP "),
        };
        m.append(status_text);
        return Err(m);
    }
    Ok(None)
}

/// What the status of an account deletion means.
pub fn delete_user_status(status: u16, status_text: &str) -> (r: Result<(), String>)
    ensures
        is_success(status) ==> r is Ok,
        !is_success(status) ==> r is Err && r->Err_0@ == "Delete user failed with status: "@
            + status_text@,
{
    if 200 <= status && status <= 299 {
        Ok(())
    } else {
        let mut m = String::from_str("Delete user failed with status: ");
        m.append(status_text);
        Err(m)
    }
}

/// The verdicts given on this page, by video uid: `done` with the verdict
/// on `uid` set to `v`, replacing any earlier one, or added at the end when
/// the video had none.
pub open spec fn record_verdict(
    done: Seq<(String, ModerationVerdict)>,
    uid: Seq<char>,
    v: ModerationVerdict,
    after: Seq<(String, ModerationVerdict)>,
) -> bool {
    if exists|j: int| 0 <= j < done.len() && (#[trigger] done[j]).0@ == uid {
        &&& after.len() == done.len()
        &&& forall|j: int|
            0 <= j < done.len() ==> if (#[trigger] done[j]).0@ == uid {
                after[j].0@ == uid && after[j].1 == v
            } else {
                after[j] == done[j]
            }
    } else {
        &&& after.len() == done.len() + 1
        &&& after.take(done.len() as int) == done
        &&& after[done.len() as int].0@ == uid
        &&& after[done.len() as int].1 == v
    }
}

/// The moderator's tap on approve or disapprove, once the service has
/// answered: `outcome` is the answer's success flag, or nothing when the
/// request failed. Without an identity nothing is sent and nothing
/// changes. A successful verdict is recorded for the video and the page
/// moves on to the next video; any failure leaves both as they were.
/// Returns whether the verdict went through.
pub fn approval_step(
    has_identity: bool,
    outcome: Option<bool>,
    verdict: ModerationVerdict,
    video_uid: &str,
    done: &mut Vec<(String, ModerationVerdict)>,
    idx: &mut usize,
) -> (advanced: bool)
    requires
        has_identity && outcome == Some(true) ==> *old(idx) < usize::MAX,
    ensures
        advanced == (has_identity && outcome == Some(true)),
        advanced ==> *final(idx) == *old(idx) + 1 && record_verdict(
            old(done)@,
            video_uid@,
            verdict,
            final(done)@,
        ),
        !advanced ==> *final(idx) == *old(idx) && final(done)@ == old(done)@,
{
    if !has_identity {
        return false;
    }
    match outcome {
        Some(true) => {
            let ghost before = done@;
            let key = String::from_str(video_uid);
            let mut found = false;
            let mut j: usize = 0;
            while j < done.len()
                invariant
                    j <= done@.len(),
                    key@ == video_uid@,
                    done@.len() == before.len(),
                    found == exists|k: int| 0 <= k < j && (#[trigger] before[k]).0@ == video_uid@,
                    forall|k: int|
                        0 <= k < j ==> if (#[trigger] before[k]).0@ == video_uid@ {
                            done@[k].0@ == video_uid@ && done@[k].1 == verdict
                        } else {
                            done@[k] == before[k]
                        },
                    forall|k: int| j <= k < before.len() ==> #[trigger] done@[k] == before[k],
                decreases before.len() - j,
            {
                let same = done[j].0 == key;
                if same {
                    done.set(j, (key.clone(), verdict));
                    found = true;
                }
                j = j + 1;
            }
            if !found {
                done.push((key, verdict));
                assert(done@.take(before.len() as int) =~= before);
            }
            *idx = *idx + 1;
            true
        },
        _ => false,
    }
}

/// The verdict already given on a video on this page, if any.
pub fn verdict_given(done: &Vec<(String, ModerationVerdict)>, video_uid: &str) -> (r: Option<
    ModerationVerdict,
>)
    ensures
        r is None <==> !exists|j: int| 0 <= j < done@.len() && (#[trigger] done@[j]).0@ == video_uid@,
        r matches Some(v) ==> exists|j: int|
            0 <= j < done@.len() && (#[trigger] done@[j]).0@ == video_uid@ && done@[j].1 == v,
{
    let key = String::from_str(video_uid);
    let mut j: usize = 0;
    while j < done.len()
        invariant
            j <= done@.len(),
            key@ == video_uid@,
            forall|k: int| 0 <= k < j ==> (#[trigger] done@[k]).0@ != video_uid@,
        decreases done@.len() - j,
    {
        if done[j].0 == key {
            return Some(done[j].1);
        }
        j = j + 1;
    }
    None
}

} // verus!
