//! The worker of the Bilibili upload queue: it takes the next part that may advance, and turns
//! the outcome of each remote operation into a change of the queue.

use crate::bilibili_queue::{
    is_part, is_session, part_models, queue_models, find_part, find_queue_session,
    BilibiliSegmentState, BilibiliSegmentTask, BilibiliSessionTask, BilibiliSettings,
    BilibiliStore, PartModel, SessionModel, MAX_VERIFICATIONS,
};
use crate::clock::{clamp_i64, local_reading, reads, saturating_later, LocalTime};
use crate::lists::first_index;
use crate::recordings::FileFacts;
use crate::retry::{
    law_delay_has_bounds, upload_backoff, upload_backoff_secs, verification_backoff,
    verification_backoff_secs,
};
use crate::text::{
    concat, decimal, decimal_i64, decimal_int, opt_text, push_decimal, push_text, same,
};
use vstd::prelude::*;

verus! {

/// A part that may advance, with its session.
#[derive(Debug)]
pub struct WorkItem {
    pub session: BilibiliSessionTask,
    pub segment: BilibiliSegmentTask,
}

/// True when `j` is the part of a session that has to be verified next: the one with the lowest
/// number among those that are not verified (the first of them, should a number occur twice).
pub open spec fn is_next_part(parts: Seq<PartModel>, j: int) -> bool {
    &&& 0 <= j < parts.len()
    &&& parts[j].state != BilibiliSegmentState::RemoteVerified
    &&& forall|i: int|
        0 <= i < parts.len() && (#[trigger] parts[i]).state != BilibiliSegmentState::RemoteVerified
            ==> parts[j].segment_index < parts[i].segment_index || (parts[j].segment_index
            == parts[i].segment_index && j <= i)
}

/// True when a part may be worked on at `now`. A part whose submission is uncertain or in
/// conflict never is.
pub open spec fn may_advance(part: PartModel, now: i64) -> bool {
    match part.state {
        BilibiliSegmentState::ReadyToUpload => true,
        BilibiliSegmentState::UploadingFile => true,
        BilibiliSegmentState::FileUploaded => true,
        BilibiliSegmentState::Submitting => true,
        BilibiliSegmentState::AuthRequired => true,
        BilibiliSegmentState::RemoteProcessing => part.next_retry_at <= now,
        BilibiliSegmentState::RetryPending => part.next_retry_at <= now,
        BilibiliSegmentState::SubmissionUncertain => false,
        BilibiliSegmentState::Conflict => false,
        BilibiliSegmentState::RemoteVerified => false,
    }
}

/// True when part `j` of a session is its next one and may be worked on at `now`.
pub open spec fn is_ready(session: SessionModel, j: int, now: i64) -> bool {
    is_next_part(session.segments, j) && may_advance(session.segments[j], now)
}

/// True when session `k` and its part `j` are what is worked on next: of all sessions with a part
/// that may advance, the one that started first.
pub open spec fn is_next_work(sessions: Seq<SessionModel>, now: i64, k: int, j: int) -> bool {
    &&& 0 <= k < sessions.len()
    &&& is_ready(sessions[k], j, now)
    &&& forall|m: int, i: int|
        0 <= m < sessions.len() && #[trigger] is_ready(sessions[m], i, now)
            ==> sessions[k].session_started_at < sessions[m].session_started_at || (
        sessions[k].session_started_at == sessions[m].session_started_at && k <= m)
}

fn part_may_advance(part: &BilibiliSegmentTask, now: i64) -> (r: bool)
    ensures
        r == may_advance(part@, now),
{
    match part.state {
        BilibiliSegmentState::ReadyToUpload
        | BilibiliSegmentState::UploadingFile
        | BilibiliSegmentState::FileUploaded
        | BilibiliSegmentState::Submitting
        | BilibiliSegmentState::AuthRequired => true,
        BilibiliSegmentState::RemoteProcessing | BilibiliSegmentState::RetryPending =>
            part.next_retry_at <= now,
        BilibiliSegmentState::SubmissionUncertain
        | BilibiliSegmentState::Conflict
        | BilibiliSegmentState::RemoteVerified => false,
    }
}

fn find_next_part(parts: &Vec<BilibiliSegmentTask>) -> (r: usize)
    ensures
        r <= parts.len(),
        r < parts.len() ==> is_next_part(part_models(parts@), r as int),
        r == parts.len() ==> forall|j: int| !is_next_part(part_models(parts@), j),
{
    let n: usize = parts.len();
    let ghost models = part_models(parts@);
    let mut best: usize = n;
    let mut i: usize = 0;
    while i < n
        invariant
            i <= n,
            n == parts.len(),
            models == part_models(parts@),
            best <= n,
            best == n ==> forall|m: int|
                0 <= m < i ==> (#[trigger] models[m]).state == BilibiliSegmentState::RemoteVerified,
            best < n ==> {
                &&& best < i
                &&& models[best as int].state != BilibiliSegmentState::RemoteVerified
                &&& forall|m: int|
                    0 <= m < i && (#[trigger] models[m]).state
                        != BilibiliSegmentState::RemoteVerified
                        ==> models[best as int].segment_index < models[m].segment_index || (
                    models[best as int].segment_index == models[m].segment_index && best <= m)
            },
        decreases n - i,
    {
        assert(models[i as int] == parts@[i as int]@);
        if parts[i].state != BilibiliSegmentState::RemoteVerified {
            if best == n {
                best = i;
            } else {
                assert(models[best as int] == parts@[best as int]@);
                if parts[i].segment_index < parts[best].segment_index {
                    best = i;
                }
            }
        }
        i = i + 1;
    }
    proof {
        if best == n {
            assert forall|j: int| !is_next_part(models, j) by {
                if 0 <= j < n {
                    assert(models[j].state == BilibiliSegmentState::RemoteVerified);
                }
            }
        }
    }
    best
}

/// The next part to work on at `now`. Within a session the parts go strictly in order: while the
/// next one cannot advance, no later one does.
pub fn next_work(store: &BilibiliStore, now: i64) -> (r: Option<WorkItem>)
    ensures
        ({
            let sessions = queue_models(store.sessions@);
            match r {
                Some(w) => exists|k: int, j: int| #[trigger]
                    is_next_work(sessions, now, k, j) && w.session@ == sessions[k] && w.segment@
                        == sessions[k].segments[j],
                None => forall|k: int, j: int|
                    0 <= k < sessions.len() ==> !#[trigger] is_ready(sessions[k], j, now),
            }
        }),
{
    let n: usize = store.sessions.len();
    let ghost models = queue_models(store.sessions@);
    let mut best: usize = n;
    let mut best_part: usize = 0;
    let mut i: usize = 0;
    while i < n
        invariant
            i <= n,
            n == store.sessions.len(),
            models == queue_models(store.sessions@),
            best <= n,
            best == n ==> forall|m: int, j: int|
                0 <= m < i ==> !#[trigger] is_ready(models[m], j, now),
            best < n ==> {
                &&& best < i
                &&& is_ready(models[best as int], best_part as int, now)
                &&& best_part < store.sessions@[best as int].segments.len()
                &&& forall|m: int, j: int|
                    0 <= m < i && #[trigger] is_ready(models[m], j, now)
                        ==> models[best as int].session_started_at < models[m].session_started_at
                        || (models[best as int].session_started_at == models[m].session_started_at
                        && best <= m)
            },
        decreases n - i,
    {
        let session = &store.sessions[i];
        assert(models[i as int] == session@);
        let ghost parts = part_models(session.segments@);
        let position: usize = find_next_part(&session.segments);
        let mut ready = false;
        if position < session.segments.len() {
            ready = part_may_advance(&session.segments[position], now);
            assert(parts[position as int] == session.segments@[position as int]@);
        }
        proof {
            assert forall|j: int| #[trigger] is_ready(models[i as int], j, now) implies ready && j
                == position by {
                assert(is_next_part(parts, j));
                if position < parts.len() {
                    assert(parts[j].state != BilibiliSegmentState::RemoteVerified);
                    assert(parts[position as int].state != BilibiliSegmentState::RemoteVerified);
                }
            }
            if ready {
                assert(is_ready(models[i as int], position as int, now));
            }
        }
        if ready {
            if best == n {
                best = i;
                best_part = position;
            } else {
                assert(models[best as int] == store.sessions@[best as int]@);
                if session.session_started_at < store.sessions[best].session_started_at {
                    best = i;
                    best_part = position;
                }
            }
        }
        i = i + 1;
    }
    if best == n {
        return None;
    }
    proof {
        assert(models[best as int] == store.sessions@[best as int]@);
        assert(is_next_work(models, now, best as int, best_part as int));
    }
    Some(
        WorkItem {
            session: store.sessions[best].clone(),
            segment: store.sessions[best].segments[best_part].clone(),
        },
    )
}

/// The next part to work on at `now`; none while uploads are switched off.
pub fn automatic_work(store: &BilibiliStore, now: i64) -> (r: Option<WorkItem>)
    ensures
        ({
            let sessions = queue_models(store.sessions@);
            match r {
                Some(w) => store.settings.auto_upload && exists|k: int, j: int| #[trigger]
                    is_next_work(sessions, now, k, j) && w.session@ == sessions[k] && w.segment@
                        == sessions[k].segments[j],
                None => store.settings.auto_upload ==> forall|k: int, j: int|
                    0 <= k < sessions.len() ==> !#[trigger] is_ready(sessions[k], j, now),
            }
        }),
{
    if store.settings.auto_upload {
        next_work(store, now)
    } else {
        None
    }
}

/// A submission that is waiting to be reconciled by hand, or in conflict, holds its session up:
/// no part of the session is worked on, at any time.
pub proof fn law_uncertain_blocks_session(session: SessionModel, j: int, now: i64)
    requires
        is_next_part(session.segments, j),
        session.segments[j].state == BilibiliSegmentState::SubmissionUncertain
            || session.segments[j].state == BilibiliSegmentState::Conflict,
    ensures
        forall|i: int| !#[trigger] is_ready(session, i, now),
{
    assert forall|i: int| !#[trigger] is_ready(session, i, now) by {
        if is_ready(session, i, now) {
            assert(session.segments[i].state != BilibiliSegmentState::RemoteVerified);
            assert(session.segments[j].state != BilibiliSegmentState::RemoteVerified);
            assert(i == j);
        }
    }
}

/// While a part of a session is being worked on, every part with a lower number is verified.
pub proof fn law_parts_in_order(session: SessionModel, j: int, now: i64, i: int)
    requires
        is_ready(session, j, now),
        0 <= i < session.segments.len(),
        session.segments[i].segment_index < session.segments[j].segment_index,
    ensures
        session.segments[i].state == BilibiliSegmentState::RemoteVerified,
{
}

/// A reference to a submission.
#[derive(Debug)]
pub struct BilibiliSubmissionRef {
    pub aid: u64,
    pub bvid: Option<String>,
}

/// A change of one part, and of its session where the submission is concerned.
#[derive(Debug)]
pub enum PartChange {
    /// Sets the state and the error; `next_retry_at` where it is given.
    SetState {
        state: BilibiliSegmentState,
        error: Option<String>,
        next_retry_at: Option<i64>,
    },
    /// The file is on the server under this name.
    FileUploaded { filename: String },
    /// The upload of the file failed and is tried again.
    RetryUpload { attempts: u32, next_retry_at: i64, error: String },
    /// The submission of the part was accepted, or cannot be told yet; it is looked for later.
    Processing { attempts: u32, next_retry_at: i64, error: Option<String> },
    /// The part created the submission of its session.
    Created { aid: u64, bvid: Option<String>, next_retry_at: i64 },
    /// The part is in the remote submission.
    Verified,
    /// Whether the part was submitted is not known; somebody has to look.
    Uncertain { error: String },
    /// The part cannot be uploaded.
    Conflict { error: String },
    /// The local file of the part is gone.
    LocalDeleted,
}

/// A part after a change.
pub open spec fn changed_part(part: PartModel, change: PartChange) -> PartModel {
    match change {
        PartChange::SetState { state, error, next_retry_at } => PartModel {
            state,
            last_error: opt_text(error),
            next_retry_at: match next_retry_at {
                Some(t) => t,
                None => part.next_retry_at,
            },
            ..part
        },
        PartChange::FileUploaded { filename } => PartModel {
            remote_filename: Some(filename@),
            state: BilibiliSegmentState::FileUploaded,
            retry_count: 0,
            next_retry_at: 0,
            last_error: None,
            ..part
        },
        PartChange::RetryUpload { attempts, next_retry_at, error } => PartModel {
            state: BilibiliSegmentState::RetryPending,
            retry_count: attempts,
            next_retry_at,
            last_error: Some(error@),
            ..part
        },
        PartChange::Processing { attempts, next_retry_at, error } => PartModel {
            state: BilibiliSegmentState::RemoteProcessing,
            retry_count: attempts,
            next_retry_at,
            last_error: opt_text(error),
            ..part
        },
        PartChange::Created { aid, bvid, next_retry_at } => PartModel {
            state: BilibiliSegmentState::RemoteProcessing,
            retry_count: 0,
            next_retry_at,
            last_error: None,
            ..part
        },
        PartChange::Verified => PartModel {
            state: BilibiliSegmentState::RemoteVerified,
            retry_count: 0,
            next_retry_at: 0,
            last_error: None,
            ..part
        },
        PartChange::Uncertain { error } => PartModel {
            state: BilibiliSegmentState::SubmissionUncertain,
            last_error: Some(error@),
            next_retry_at: 0,
            ..part
        },
        PartChange::Conflict { error } => PartModel {
            state: BilibiliSegmentState::Conflict,
            last_error: Some(error@),
            next_retry_at: 0,
            ..part
        },
        PartChange::LocalDeleted => PartModel { local_deleted: true, ..part },
    }
}

/// A session after a change of its part `j`.
pub open spec fn changed_session(session: SessionModel, j: int, change: PartChange) -> SessionModel {
    let segments = session.segments.update(j, changed_part(session.segments[j], change));
    match change {
        PartChange::Created { aid, bvid, next_retry_at } => SessionModel {
            segments,
            aid: Some(aid),
            bvid: opt_text(bvid),
            submission_state: "ACTIVE"@,
            ..session
        },
        PartChange::Uncertain { error } => SessionModel {
            segments,
            submission_state: "UNCERTAIN"@,
            ..session
        },
        _ => SessionModel { segments, ..session },
    }
}

fn apply_to_part(part: &mut BilibiliSegmentTask, change: PartChange)
    ensures
        final(part)@ == changed_part(old(part)@, change),
{
    match change {
        PartChange::SetState { state, error, next_retry_at } => {
            part.state = state;
            part.last_error = error;
            if let Some(t) = next_retry_at {
                part.next_retry_at = t;
            }
        },
        PartChange::FileUploaded { filename } => {
            part.remote_filename = Some(filename);
            part.state = BilibiliSegmentState::FileUploaded;
            part.retry_count = 0;
            part.next_retry_at = 0;
            part.last_error = None;
        },
        PartChange::RetryUpload { attempts, next_retry_at, error } => {
            part.state = BilibiliSegmentState::RetryPending;
            part.retry_count = attempts;
            part.next_retry_at = next_retry_at;
            part.last_error = Some(error);
        },
        PartChange::Processing { attempts, next_retry_at, error } => {
            part.state = BilibiliSegmentState::RemoteProcessing;
            part.retry_count = attempts;
            part.next_retry_at = next_retry_at;
            part.last_error = error;
        },
        PartChange::Created { aid: _, bvid: _, next_retry_at } => {
            part.state = BilibiliSegmentState::RemoteProcessing;
            part.retry_count = 0;
            part.next_retry_at = next_retry_at;
            part.last_error = None;
        },
        PartChange::Verified => {
            part.state = BilibiliSegmentState::RemoteVerified;
            part.retry_count = 0;
            part.next_retry_at = 0;
            part.last_error = None;
        },
        PartChange::Uncertain { error } => {
            part.state = BilibiliSegmentState::SubmissionUncertain;
            part.last_error = Some(error);
            part.next_retry_at = 0;
        },
        PartChange::Conflict { error } => {
            part.state = BilibiliSegmentState::Conflict;
            part.last_error = Some(error);
            part.next_retry_at = 0;
        },
        PartChange::LocalDeleted => {
            part.local_deleted = true;
        },
    }
}

fn apply_to_session(session: &mut BilibiliSessionTask, position: usize, change: PartChange)
    requires
        position < old(session).segments.len(),
    ensures
        final(session)@ == changed_session(old(session)@, position as int, change),
{
    let ghost before = part_models(session.segments@);
    match &change {
        PartChange::Created { aid, bvid, next_retry_at: _ } => {
            session.aid = Some(*aid);
            session.bvid = bvid.clone();
            session.submission_state = "ACTIVE".to_owned();
        },
        PartChange::Uncertain { error: _ } => {
            session.submission_state = "UNCERTAIN".to_owned();
        },
        _ => {},
    }
    apply_to_part(&mut session.segments[position], change);
    assert(part_models(session.segments@) =~= before.update(
        position as int,
        changed_part(before[position as int], change),
    ));
}

/// The answer to a change of a part that is not in the queue; `session_missing` where its session
/// is not there either. That a file is gone needs no part to be noted at.
pub open spec fn no_place(change: PartChange, session_missing: bool, r: Result<(), String>) -> bool {
    match change {
        PartChange::LocalDeleted => r is Ok,
        PartChange::SetState { .. } => r matches Err(m) && m@ == "B站 segment 不存在。"@,
        _ => r matches Err(m) && m@ == if session_missing {
            "B站 liveSession 不存在。"@
        } else {
            "B站 segment 不存在。"@
        },
    }
}

fn missing_place(change: &PartChange, session_missing: bool) -> (r: Result<(), String>)
    ensures
        no_place(*change, session_missing, r),
{
    match change {
        PartChange::LocalDeleted => Ok(()),
        PartChange::SetState { .. } => Err("B站 segment 不存在。".to_owned()),
        _ => if session_missing {
            Err("B站 liveSession 不存在。".to_owned())
        } else {
            Err("B站 segment 不存在。".to_owned())
        },
    }
}

/// Carries out a change of the part `segment_index` of a session.
pub fn change_part(
    store: &mut BilibiliStore,
    live_session_id: &str,
    segment_index: u32,
    change: PartChange,
) -> (r: Result<(), String>)
    ensures
        final(store).settings == old(store).settings,
        ({
            let sessions = queue_models(old(store).sessions@);
            let k = first_index(sessions, is_session(live_session_id@));
            if k == sessions.len() {
                &&& final(store).sessions == old(store).sessions
                &&& no_place(change, true, r)
            } else {
                let j = first_index(sessions[k].segments, is_part(segment_index));
                if j == sessions[k].segments.len() {
                    &&& final(store).sessions == old(store).sessions
                    &&& no_place(change, false, r)
                } else {
                    &&& r is Ok
                    &&& queue_models(final(store).sessions@) == sessions.update(
                        k,
                        changed_session(sessions[k], j, change),
                    )
                }
            }
        }),
{
    let ghost before = queue_models(store.sessions@);
    let k: usize = find_queue_session(&store.sessions, live_session_id);
    if k == store.sessions.len() {
        return missing_place(&change, true);
    }
    assert(before[k as int] == store.sessions@[k as int]@);
    let j: usize = find_part(&store.sessions[k].segments, segment_index);
    if j == store.sessions[k].segments.len() {
        return missing_place(&change, false);
    }
    apply_to_session(&mut store.sessions[k], j, change);
    assert(queue_models(store.sessions@) =~= before.update(
        k as int,
        changed_session(before[k as int], j as int, change),
    ));
    Ok(())
}

/// A session has one submission: no change but the creation of a submission touches which one it
/// is.
pub proof fn law_one_submission(session: SessionModel, j: int, change: PartChange)
    requires
        !(change is Created),
    ensures
        changed_session(session, j, change).aid == session.aid,
        changed_session(session, j, change).bvid == session.bvid,
{
}

/// What the worker does with a part that it has taken up.
#[derive(Debug)]
pub enum WorkAction {
    /// Change the queue; there is nothing to do remotely.
    Change(PartChange),
    /// Upload the file.
    UploadFile,
    /// Submit the part.
    SubmitPart,
    /// Find out what became of a submission that was interrupted.
    RecoverSubmission,
    /// Look for the part in the remote submission.
    VerifyRemote,
    /// Nothing.
    Nothing,
}

/// Decides what is done with a part, given whether there is a valid login.
pub fn start_work(part: &BilibiliSegmentTask, login: Result<(), String>) -> (r: WorkAction)
    ensures
        match login {
            Err(error) => r == WorkAction::Change(
                PartChange::SetState {
                    state: BilibiliSegmentState::AuthRequired,
                    error: Some(error),
                    next_retry_at: None,
                },
            ),
            Ok(_) => match part.state {
                BilibiliSegmentState::AuthRequired => r == WorkAction::Change(
                    PartChange::SetState {
                        state: if part.remote_filename is Some {
                            BilibiliSegmentState::FileUploaded
                        } else {
                            BilibiliSegmentState::ReadyToUpload
                        },
                        error: None,
                        next_retry_at: Some(0),
                    },
                ),
                BilibiliSegmentState::ReadyToUpload => r is UploadFile,
                BilibiliSegmentState::UploadingFile => r is UploadFile,
                BilibiliSegmentState::RetryPending => r is UploadFile,
                BilibiliSegmentState::FileUploaded => r is SubmitPart,
                BilibiliSegmentState::Submitting => r is RecoverSubmission,
                BilibiliSegmentState::RemoteProcessing => r is VerifyRemote,
                _ => r is Nothing,
            },
        },
{
    if let Err(error) = login {
        return WorkAction::Change(
            PartChange::SetState {
                state: BilibiliSegmentState::AuthRequired,
                error: Some(error),
                next_retry_at: None,
            },
        );
    }
    match part.state {
        BilibiliSegmentState::AuthRequired => {
            let state = if part.remote_filename.is_some() {
                BilibiliSegmentState::FileUploaded
            } else {
                BilibiliSegmentState::ReadyToUpload
            };
            WorkAction::Change(PartChange::SetState { state, error: None, next_retry_at: Some(0) })
        },
        BilibiliSegmentState::ReadyToUpload
        | BilibiliSegmentState::UploadingFile
        | BilibiliSegmentState::RetryPending => WorkAction::UploadFile,
        BilibiliSegmentState::FileUploaded => WorkAction::SubmitPart,
        BilibiliSegmentState::Submitting => WorkAction::RecoverSubmission,
        BilibiliSegmentState::RemoteProcessing => WorkAction::VerifyRemote,
        BilibiliSegmentState::RemoteVerified
        | BilibiliSegmentState::SubmissionUncertain
        | BilibiliSegmentState::Conflict => WorkAction::Nothing,
    }
}

/// The message for a file whose size has changed since it was queued.
pub open spec fn size_changed_text(queued: nat, present: nat) -> Seq<char> {
    "录像大小发生变化，拒绝上传（入队 "@ + decimal(queued) + " bytes，当前 "@ + decimal(present)
        + " bytes）。"@
}

/// What is made of the file of a part before it is uploaded.
pub open spec fn file_checked(
    part: BilibiliSegmentTask,
    facts: Result<FileFacts, String>,
    change: PartChange,
) -> bool {
    match facts {
        Err(error) => change matches PartChange::Conflict { error: m } && m@
            == "待上传录像不存在: "@ + error@,
        Ok(f) => if !f.is_file || f.len == 0 {
            change matches PartChange::Conflict { error: m } && m@
                == "待上传录像不是有效文件或为空。"@
        } else if f.len != part.file_size {
            change matches PartChange::Conflict { error: m } && m@ == size_changed_text(
                part.file_size as nat,
                f.len as nat,
            )
        } else {
            change == (PartChange::SetState {
                state: BilibiliSegmentState::UploadingFile,
                error: None,
                next_retry_at: None,
            })
        },
    }
}

/// Looks at the file of a part before it is uploaded: the part goes on to uploading, or is in
/// conflict because the file is missing, empty or of another size than it was.
pub fn check_upload_file(part: &BilibiliSegmentTask, facts: &Result<FileFacts, String>) -> (r: PartChange)
    ensures
        file_checked(*part, *facts, r),
{
    match facts {
        Err(error) => PartChange::Conflict {
            error: concat("待上传录像不存在: ", error.as_str()),
        },
        Ok(f) => {
            if !f.is_file || f.len == 0 {
                return PartChange::Conflict {
                    error: "待上传录像不是有效文件或为空。".to_owned(),
                };
            }
            if f.len != part.file_size {
                let mut message = "录像大小发生变化，拒绝上传（入队 ".to_owned();
                push_decimal(&mut message, part.file_size);
                push_text(&mut message, " bytes，当前 ");
                push_decimal(&mut message, f.len);
                push_text(&mut message, " bytes）。");
                return PartChange::Conflict { error: message };
            }
            PartChange::SetState {
                state: BilibiliSegmentState::UploadingFile,
                error: None,
                next_retry_at: None,
            }
        },
    }
}

/// The number of attempts after another one.
pub open spec fn one_more(attempts: u32) -> u32 {
    if attempts == u32::MAX {
        u32::MAX
    } else {
        (attempts + 1) as u32
    }
}

/// What the upload of a file at `now` comes to.
pub open spec fn upload_noted(
    part: BilibiliSegmentTask,
    result: Result<String, String>,
    now: i64,
    change: PartChange,
) -> bool {
    match result {
        Ok(filename) => change == (PartChange::FileUploaded { filename }),
        Err(error) => {
            let attempts = one_more(part.retry_count);
            change == (PartChange::RetryUpload {
                attempts,
                next_retry_at: clamp_i64(now + upload_backoff_secs(attempts as nat)),
                error,
            })
        },
    }
}

/// What the upload of a file at `now` comes to.
pub fn after_upload(part: &BilibiliSegmentTask, result: Result<String, String>, now: i64) -> (r: PartChange)
    ensures
        upload_noted(*part, result, now, r),
{
    match result {
        Ok(filename) => PartChange::FileUploaded { filename },
        Err(error) => {
            let attempts: u32 = part.retry_count.saturating_add(1);
            PartChange::RetryUpload {
                attempts,
                next_retry_at: saturating_later(now, upload_backoff(attempts)),
                error,
            }
        },
    }
}

/// How a part is submitted.
#[derive(Debug)]
pub enum SubmissionCall {
    /// Append it to the submission that the session has.
    Append { aid: u64, filename: String },
    /// Create the submission of the session with it.
    Create { filename: String },
}

/// Decides how an uploaded part is submitted: the first one of a session creates its submission,
/// every later one is appended to it.
pub fn submission_call(session: &BilibiliSessionTask, part: &BilibiliSegmentTask) -> (r: Result<
    SubmissionCall,
    String,
>)
    ensures
        match part.remote_filename {
            None => r matches Err(m) && m@ == "FILE_UPLOADED 状态缺少 remote_filename。"@,
            Some(filename) => match session.aid {
                Some(aid) => r == Ok::<SubmissionCall, String>(
                    SubmissionCall::Append { aid, filename },
                ),
                None => r == Ok::<SubmissionCall, String>(SubmissionCall::Create { filename }),
            },
        },
{
    match &part.remote_filename {
        None => Err("FILE_UPLOADED 状态缺少 remote_filename。".to_owned()),
        Some(filename) => match session.aid {
            Some(aid) => Ok(SubmissionCall::Append { aid, filename: filename.clone() }),
            None => Ok(SubmissionCall::Create { filename: filename.clone() }),
        },
    }
}

/// The change that is saved before a part is submitted, so that a restart knows that the outcome
/// of the submission may be lost.
pub fn submission_started() -> (r: PartChange)
    ensures
        r == (PartChange::SetState {
            state: BilibiliSegmentState::Submitting,
            error: None,
            next_retry_at: None,
        }),
{
    PartChange::SetState {
        state: BilibiliSegmentState::Submitting,
        error: None,
        next_retry_at: None,
    }
}

/// What appending a part at `now` comes to.
pub open spec fn append_noted(
    result: Result<(), String>,
    found: Result<bool, String>,
    now: i64,
    change: PartChange,
) -> bool {
    match result {
        Ok(_) => change == (PartChange::Processing {
            attempts: 0,
            next_retry_at: clamp_i64(now + 3),
            error: None,
        }),
        Err(error) => if found == Ok::<bool, String>(true) {
            change == PartChange::Verified
        } else {
            change == (PartChange::Uncertain { error })
        },
    }
}

/// What appending a part at `now` comes to. After a failure the remote submission has been looked
/// at (`found`): a part that is there is verified, anything else is uncertain.
pub fn after_append(result: Result<(), String>, found: &Result<bool, String>, now: i64) -> (r: PartChange)
    ensures
        append_noted(result, *found, now, r),
{
    match result {
        Ok(_) => PartChange::Processing {
            attempts: 0,
            next_retry_at: saturating_later(now, 3),
            error: None,
        },
        Err(error) => match found {
            Ok(true) => PartChange::Verified,
            _ => PartChange::Uncertain { error },
        },
    }
}

/// What creating a submission at `now` comes to.
pub open spec fn create_noted(
    result: Result<BilibiliSubmissionRef, String>,
    now: i64,
    change: PartChange,
) -> bool {
    match result {
        Ok(remote) => change == (PartChange::Created {
            aid: remote.aid,
            bvid: remote.bvid,
            next_retry_at: clamp_i64(now + 3),
        }),
        Err(error) => change == (PartChange::Uncertain { error }),
    }
}

/// What creating a submission at `now` comes to. A failure leaves it uncertain whether there is a
/// submission: none is ever created a second time.
pub fn after_create(result: Result<BilibiliSubmissionRef, String>, now: i64) -> (r: PartChange)
    ensures
        create_noted(result, now, r),
{
    match result {
        Ok(remote) => PartChange::Created {
            aid: remote.aid,
            bvid: remote.bvid,
            next_retry_at: saturating_later(now, 3),
        },
        Err(error) => PartChange::Uncertain { error },
    }
}

/// Looks for a file name among those of a remote submission.
pub open spec fn names_file(filenames: Seq<String>, filename: Seq<char>) -> bool {
    exists|i: int| 0 <= i < filenames.len() && (#[trigger] filenames[i])@ == filename
}

/// Whether a file name is among those of a remote submission.
pub fn remote_contains_filename(filenames: &Vec<String>, filename: &str) -> (r: bool)
    ensures
        r == names_file(filenames@, filename@),
{
    let n: usize = filenames.len();
    let mut i: usize = 0;
    while i < n
        invariant
            i <= n,
            n == filenames.len(),
            forall|j: int| 0 <= j < i ==> (#[trigger] filenames@[j])@ != filename@,
        decreases n - i,
    {
        if same(filenames[i].as_str(), filename) {
            return true;
        }
        i = i + 1;
    }
    false
}

/// What to look up to find out about a part.
#[derive(Debug)]
pub enum RemoteLookup {
    /// Look for the file name in this submission.
    Find { aid: u64, filename: String },
    /// There is nothing to look up; the queue is changed.
    Settled(PartChange),
}

/// Decides how to find out about a submission that was interrupted. Without a submission to look
/// at it stays uncertain.
pub fn recovery_lookup(session: &BilibiliSessionTask, part: &BilibiliSegmentTask) -> (r: RemoteLookup)
    ensures
        match part.remote_filename {
            None => r matches RemoteLookup::Settled(PartChange::Conflict { error }) && error@
                == "SUBMITTING 状态缺少 remote_filename。"@,
            Some(filename) => match session.aid {
                None => r matches RemoteLookup::Settled(PartChange::Uncertain { error }) && error@
                    == "App 在首次投稿请求期间中断且 aid 尚未持久化；为避免重复投稿，已停止自动重试。"@,
                Some(aid) => r == (RemoteLookup::Find { aid, filename }),
            },
        },
{
    match &part.remote_filename {
        None => RemoteLookup::Settled(
            PartChange::Conflict { error: "SUBMITTING 状态缺少 remote_filename。".to_owned() },
        ),
        Some(filename) => match session.aid {
            None => RemoteLookup::Settled(
                PartChange::Uncertain {
                    error:
                        "App 在首次投稿请求期间中断且 aid 尚未持久化；为避免重复投稿，已停止自动重试。".to_owned(),
                },
            ),
            Some(aid) => RemoteLookup::Find { aid, filename: filename.clone() },
        },
    }
}

/// The change for a lookup that failed at `now`: it is repeated later.
pub open spec fn lookup_failed(part: PartModel, error: String, now: i64) -> PartChange {
    let attempts = one_more(part.retry_count);
    PartChange::Processing {
        attempts,
        next_retry_at: clamp_i64(now + verification_backoff_secs(attempts as nat)),
        error: Some(error),
    }
}

fn repeat_lookup(part: &BilibiliSegmentTask, error: String, now: i64) -> (r: PartChange)
    ensures
        r == lookup_failed(part@, error, now),
{
    let attempts: u32 = part.retry_count.saturating_add(1);
    PartChange::Processing {
        attempts,
        next_retry_at: saturating_later(now, verification_backoff(attempts)),
        error: Some(error),
    }
}

/// What the lookup after an interrupted submission comes to.
pub open spec fn recovery_noted(
    part: BilibiliSegmentTask,
    found: Result<bool, String>,
    now: i64,
    change: PartChange,
) -> bool {
    match found {
        Ok(true) => change == PartChange::Verified,
        Ok(false) => change matches PartChange::Uncertain { error } && error@
            == "App 在追加分P请求期间中断，远端暂未确认该 P；为避免重复分P，已停止自动追加。"@,
        Err(error) => change == lookup_failed(part@, error, now),
    }
}

/// What the lookup after an interrupted submission comes to. A part that is not there is
/// uncertain, never submitted again.
pub fn after_recovery_lookup(
    part: &BilibiliSegmentTask,
    found: Result<bool, String>,
    now: i64,
) -> (r: PartChange)
    ensures
        recovery_noted(*part, found, now, r),
{
    match found {
        Ok(true) => PartChange::Verified,
        Ok(false) => PartChange::Uncertain {
            error:
                "App 在追加分P请求期间中断，远端暂未确认该 P；为避免重复分P，已停止自动追加。".to_owned(),
        },
        Err(error) => repeat_lookup(part, error, now),
    }
}

/// Decides where to look for a part that has been submitted.
pub fn verification_lookup(session: &BilibiliSessionTask, part: &BilibiliSegmentTask) -> (r: Result<
    (u64, String),
    String,
>)
    ensures
        match session.aid {
            None => r matches Err(m) && m@ == "REMOTE_PROCESSING 状态缺少 aid。"@,
            Some(aid) => match part.remote_filename {
                None => r matches Err(m) && m@ == "REMOTE_PROCESSING 状态缺少 remote_filename。"@,
                Some(filename) => r == Ok::<(u64, String), String>((aid, filename)),
            },
        },
{
    match session.aid {
        None => Err("REMOTE_PROCESSING 状态缺少 aid。".to_owned()),
        Some(aid) => match &part.remote_filename {
            None => Err("REMOTE_PROCESSING 状态缺少 remote_filename。".to_owned()),
            Some(filename) => Ok((aid, filename.clone())),
        },
    }
}

/// What looking for a submitted part at `now` comes to.
pub open spec fn verification_noted(
    part: BilibiliSegmentTask,
    found: Result<bool, String>,
    now: i64,
    change: PartChange,
) -> bool {
    match found {
        Ok(true) => change == PartChange::Verified,
        Ok(false) => {
            let attempts = one_more(part.retry_count);
            if attempts >= MAX_VERIFICATIONS {
                change matches PartChange::Uncertain { error } && error@
                    == "B站已接受提交，但多次检查仍无法确认该分P；本地录像保留，停止自动重复提交。"@
            } else {
                &&& change matches PartChange::Processing {
                    attempts: a,
                    next_retry_at: t,
                    error: e,
                }
                &&& a == attempts
                &&& t == clamp_i64(now + verification_backoff_secs(attempts as nat))
                &&& opt_text(e) == Some("等待 B站远端确认分P。"@)
            }
        },
        Err(error) => change == lookup_failed(part@, error, now),
    }
}

/// What looking for a submitted part at `now` comes to: it is verified when it is there; else it
/// is looked for again, and after eight looks its submission is uncertain.
pub fn after_verification(
    part: &BilibiliSegmentTask,
    found: Result<bool, String>,
    now: i64,
) -> (r: PartChange)
    ensures
        verification_noted(*part, found, now, r),
{
    match found {
        Ok(true) => PartChange::Verified,
        Ok(false) => {
            let attempts: u32 = part.retry_count.saturating_add(1);
            if attempts >= MAX_VERIFICATIONS {
                PartChange::Uncertain {
                    error:
                        "B站已接受提交，但多次检查仍无法确认该分P；本地录像保留，停止自动重复提交。".to_owned(),
                }
            } else {
                PartChange::Processing {
                    attempts,
                    next_retry_at: saturating_later(now, verification_backoff(attempts)),
                    error: Some("等待 B站远端确认分P。".to_owned()),
                }
            }
        },
        Err(error) => repeat_lookup(part, error, now),
    }
}

/// A local file that is no longer needed.
#[derive(Debug)]
pub struct DeletableFile {
    pub live_session_id: String,
    pub segment_index: u32,
    pub local_path: String,
}

/// True when the local file of a part may go: the part is verified remotely and the file is there.
pub open spec fn may_delete(part: PartModel) -> bool {
    part.state == BilibiliSegmentState::RemoteVerified && !part.local_deleted
}

/// True when `files` lists the files of the parts that may be deleted, in order.
pub open spec fn lists_files(
    session: Seq<char>,
    parts: Seq<PartModel>,
    files: Seq<DeletableFile>,
) -> bool
    decreases parts.len(),
{
    if parts.len() == 0 {
        files.len() == 0
    } else if may_delete(parts.last()) {
        &&& files.len() > 0
        &&& files.last().live_session_id@ == session
        &&& files.last().segment_index == parts.last().segment_index
        &&& files.last().local_path@ == parts.last().local_path
        &&& lists_files(session, parts.drop_last(), files.drop_last())
    } else {
        lists_files(session, parts.drop_last(), files)
    }
}

/// The local files of one session that are no longer needed: those of verified parts, unless the
/// user keeps files.
pub fn deletable_files(settings: &BilibiliSettings, session: &BilibiliSessionTask) -> (r: Vec<
    DeletableFile,
>)
    ensures
        if settings.delete_after_success {
            lists_files(session@.live_session_id, session@.segments, r@)
        } else {
            r@.len() == 0
        },
{
    if !settings.delete_after_success {
        return Vec::new();
    }
    let n: usize = session.segments.len();
    let ghost parts = part_models(session.segments@);
    let mut out: Vec<DeletableFile> = Vec::new();
    let mut i: usize = 0;
    assert(parts.take(0) =~= Seq::empty());
    while i < n
        invariant
            i <= n,
            n == session.segments.len(),
            parts == part_models(session.segments@),
            lists_files(session@.live_session_id, parts.take(i as int), out@),
        decreases n - i,
    {
        let ghost before = out@;
        let part = &session.segments[i];
        proof {
            assert(parts.take(i + 1).drop_last() =~= parts.take(i as int));
            assert(parts.take(i + 1).last() == part@);
        }
        if part.state == BilibiliSegmentState::RemoteVerified && !part.local_deleted {
            out.push(
                DeletableFile {
                    live_session_id: session.live_session_id.clone(),
                    segment_index: part.segment_index,
                    local_path: part.local_path.clone(),
                },
            );
            assert(out@.drop_last() =~= before);
        }
        i = i + 1;
    }
    assert(parts.take(n as int) =~= parts);
    out
}

/// Every file that is offered for deletion belongs to a part that is verified remotely.
pub proof fn law_deleted_only_after_verification(
    session: Seq<char>,
    parts: Seq<PartModel>,
    files: Seq<DeletableFile>,
    i: int,
)
    requires
        lists_files(session, parts, files),
        0 <= i < files.len(),
    ensures
        exists|j: int|
            0 <= j < parts.len() && (#[trigger] parts[j]).local_path == files[i].local_path@
                && parts[j].segment_index == files[i].segment_index && parts[j].state
                == BilibiliSegmentState::RemoteVerified,
    decreases parts.len(),
{
    if parts.len() > 0 {
        let last = parts.len() - 1;
        if may_delete(parts.last()) {
            if i == files.len() - 1 {
                assert(parts[last].local_path == files[i].local_path@);
            } else {
                law_deleted_only_after_verification(
                    session,
                    parts.drop_last(),
                    files.drop_last(),
                    i,
                );
                let j = choose|j: int|
                    0 <= j < parts.drop_last().len() && (
                    #[trigger] parts.drop_last()[j]).local_path == files.drop_last()[i].local_path@
                        && parts.drop_last()[j].segment_index == files.drop_last()[i].segment_index
                        && parts.drop_last()[j].state == BilibiliSegmentState::RemoteVerified;
                assert(parts[j] == parts.drop_last()[j]);
            }
        } else {
            law_deleted_only_after_verification(session, parts.drop_last(), files, i);
            let j = choose|j: int|
                0 <= j < parts.drop_last().len() && (#[trigger] parts.drop_last()[j]).local_path
                    == files[i].local_path@ && parts.drop_last()[j].segment_index
                    == files[i].segment_index && parts.drop_last()[j].state
                    == BilibiliSegmentState::RemoteVerified;
            assert(parts[j] == parts.drop_last()[j]);
        }
    }
}

/// True when a session is over and all its parts are verified, but its title is not final yet.
pub open spec fn awaits_final_title(session: SessionModel) -> bool {
    &&& session.recording_complete
    &&& session.aid is Some
    &&& session.submission_state == "ACTIVE"@
    &&& session.segments.len() > 0
    &&& forall|i: int|
        0 <= i < session.segments.len() ==> (#[trigger] session.segments[i]).state
            == BilibiliSegmentState::RemoteVerified
}

fn is_awaiting_final_title(session: &BilibiliSessionTask) -> (r: bool)
    ensures
        r == awaits_final_title(session@),
{
    if !session.recording_complete || session.aid.is_none() || !same(
        session.submission_state.as_str(),
        "ACTIVE",
    ) || session.segments.len() == 0 {
        return false;
    }
    let n: usize = session.segments.len();
    let mut i: usize = 0;
    while i < n
        invariant
            i <= n,
            n == session.segments.len(),
            session@.recording_complete,
            session@.aid is Some,
            session@.submission_state == "ACTIVE"@,
            forall|j: int|
                0 <= j < i ==> (#[trigger] session@.segments[j]).state
                    == BilibiliSegmentState::RemoteVerified,
        decreases n - i,
    {
        assert(session@.segments[i as int] == session.segments@[i as int]@);
        if session.segments[i].state != BilibiliSegmentState::RemoteVerified {
            return false;
        }
        i = i + 1;
    }
    true
}

/// The first session whose title can be made final; none while uploads are switched off.
pub fn session_to_finalize(store: &BilibiliStore) -> (r: Option<BilibiliSessionTask>)
    ensures
        ({
            let sessions = queue_models(store.sessions@);
            match r {
                Some(s) => store.settings.auto_upload && exists|k: int|
                    0 <= k < sessions.len() && s@ == #[trigger] sessions[k] && awaits_final_title(
                        sessions[k],
                    ) && forall|m: int|
                        0 <= m < k ==> !awaits_final_title(#[trigger] sessions[m]),
                None => store.settings.auto_upload ==> forall|k: int|
                    0 <= k < sessions.len() ==> !awaits_final_title(#[trigger] sessions[k]),
            }
        }),
{
    if !store.settings.auto_upload {
        return None;
    }
    let n: usize = store.sessions.len();
    let ghost models = queue_models(store.sessions@);
    let mut i: usize = 0;
    while i < n
        invariant
            i <= n,
            n == store.sessions.len(),
            models == queue_models(store.sessions@),
            store.settings.auto_upload,
            forall|m: int| 0 <= m < i ==> !awaits_final_title(#[trigger] models[m]),
        decreases n - i,
    {
        assert(models[i as int] == store.sessions@[i as int]@);
        if is_awaiting_final_title(&store.sessions[i]) {
            return Some(store.sessions[i].clone());
        }
        i = i + 1;
    }
    None
}

/// A session whose title is final.
pub open spec fn title_final(session: SessionModel) -> SessionModel {
    SessionModel { submission_state: "FINALIZED"@, ..session }
}

/// Notes that the title of a session is final.
pub fn mark_title_final(store: &mut BilibiliStore, live_session_id: &str)
    ensures
        final(store).settings == old(store).settings,
        ({
            let sessions = queue_models(old(store).sessions@);
            let k = first_index(sessions, is_session(live_session_id@));
            queue_models(final(store).sessions@) == if k < sessions.len() {
                sessions.update(k, title_final(sessions[k]))
            } else {
                sessions
            }
        }),
{
    let ghost before = queue_models(store.sessions@);
    let k: usize = find_queue_session(&store.sessions, live_session_id);
    if k < store.sessions.len() {
        store.sessions[k].submission_state = "FINALIZED".to_owned();
        assert(queue_models(store.sessions@) =~= before.update(
            k as int,
            SessionModel { submission_state: "FINALIZED"@, ..before[k as int] },
        ));
    }
}

/// The time of day in a title, or the bare timestamp where the calendar has no reading for it.
pub open spec fn time_text(reading: Option<LocalTime>, timestamp: i64) -> Seq<char> {
    match reading {
        Some(t) => t.clock(":"@),
        None => decimal_int(timestamp as int),
    }
}

/// The day in a title, or the bare timestamp where the calendar has no reading for it.
pub open spec fn day_text(reading: Option<LocalTime>, timestamp: i64) -> Seq<char> {
    match reading {
        Some(t) => t.date@,
        None => decimal_int(timestamp as int),
    }
}

fn format_time(reading: &Option<LocalTime>, timestamp: i64) -> (r: String)
    ensures
        r@ == time_text(*reading, timestamp),
{
    match reading {
        Some(t) => {
            let mut out = t.hour.clone();
            push_text(&mut out, ":");
            push_text(&mut out, t.minute.as_str());
            out
        },
        None => decimal_i64(timestamp),
    }
}

fn format_day(reading: &Option<LocalTime>, timestamp: i64) -> (r: String)
    ensures
        r@ == day_text(*reading, timestamp),
{
    match reading {
        Some(t) => t.date.clone(),
        None => decimal_i64(timestamp),
    }
}

/// The title of a part, given the local readings of its times.
pub fn part_title_from(
    part: &BilibiliSegmentTask,
    start: &Option<LocalTime>,
    end: &Option<LocalTime>,
) -> (r: String)
    ensures
        r@ == time_text(*start, part.started_at) + "-"@ + time_text(*end, part.ended_at),
{
    let mut out = format_time(start, part.started_at);
    push_text(&mut out, "-");
    push_text(&mut out, format_time(end, part.ended_at).as_str());
    out
}

/// The title of a part: from when to when it runs, in local time.
pub fn part_title(part: &BilibiliSegmentTask) -> (r: String)
    ensures
        exists|start: Option<LocalTime>, end: Option<LocalTime>|
            r@ == #[trigger] time_text(start, part.started_at) + "-"@ + #[trigger] time_text(
                end,
                part.ended_at,
            ) && reads(start, part.started_at) && reads(end, part.ended_at),
{
    let start = local_reading(part.started_at);
    let end = local_reading(part.ended_at);
    part_title_from(part, &start, &end)
}

/// The latest end among parts, if there are any.
pub open spec fn latest_end(parts: Seq<PartModel>) -> Option<i64>
    decreases parts.len(),
{
    if parts.len() == 0 {
        None
    } else {
        match latest_end(parts.drop_last()) {
            Some(t) if t > parts.last().ended_at => Some(t),
            _ => Some(parts.last().ended_at),
        }
    }
}

/// When a session ends, as its title says: the given end, the end of the recording, the latest
/// end of a part, or the start of the session, whichever is known first.
pub open spec fn title_end(session: SessionModel, end: Option<i64>) -> i64 {
    match end {
        Some(t) => t,
        None => match session.session_ended_at {
            Some(t) => t,
            None => match latest_end(session.segments) {
                Some(t) => t,
                None => session.session_started_at,
            },
        },
    }
}

/// When a session ends, as its title says.
pub fn session_title_end(session: &BilibiliSessionTask, end: Option<i64>) -> (r: i64)
    ensures
        r == title_end(session@, end),
{
    if let Some(t) = end {
        return t;
    }
    if let Some(t) = session.session_ended_at {
        return t;
    }
    let n: usize = session.segments.len();
    let ghost parts = part_models(session.segments@);
    let mut latest: Option<i64> = None;
    let mut i: usize = 0;
    assert(parts.take(0) =~= Seq::empty());
    while i < n
        invariant
            i <= n,
            n == session.segments.len(),
            parts == part_models(session.segments@),
            latest == latest_end(parts.take(i as int)),
        decreases n - i,
    {
        let t: i64 = session.segments[i].ended_at;
        proof {
            assert(parts.take(i + 1).drop_last() =~= parts.take(i as int));
            assert(parts.take(i + 1).last() == session.segments@[i as int]@);
        }
        latest = match latest {
            Some(known) => if known > t {
                Some(known)
            } else {
                Some(t)
            },
            None => Some(t),
        };
        i = i + 1;
    }
    assert(parts.take(n as int) =~= parts);
    match latest {
        Some(t) => t,
        None => session.session_started_at,
    }
}

/// The title of a session that ends at `end_at`, given the local readings of its times.
pub open spec fn session_title_text(
    session: SessionModel,
    end_at: i64,
    start: Option<LocalTime>,
    end: Option<LocalTime>,
) -> Seq<char> {
    session.streamer_name + "｜"@ + day_text(start, session.session_started_at) + "｜"@ + time_text(
        start,
        session.session_started_at,
    ) + "-"@ + time_text(end, end_at)
}

/// The title of a session, given its end and the local readings of its times.
pub fn session_title_from(
    session: &BilibiliSessionTask,
    end_at: i64,
    start: &Option<LocalTime>,
    end: &Option<LocalTime>,
) -> (r: String)
    ensures
        r@ == session_title_text(session@, end_at, *start, *end),
{
    let mut out = session.streamer_name.clone();
    push_text(&mut out, "｜");
    push_text(&mut out, format_day(start, session.session_started_at).as_str());
    push_text(&mut out, "｜");
    push_text(&mut out, format_time(start, session.session_started_at).as_str());
    push_text(&mut out, "-");
    push_text(&mut out, format_time(end, end_at).as_str());
    out
}

/// The title of a session: who, which day, from when to when, in local time.
pub fn session_title(session: &BilibiliSessionTask, end: Option<i64>) -> (r: String)
    ensures
        exists|start: Option<LocalTime>, until: Option<LocalTime>|
            r@ == #[trigger] session_title_text(session@, title_end(session@, end), start, until)
                && reads(start, session.session_started_at) && reads(
                until,
                title_end(session@, end),
            ),
{
    let end_at: i64 = session_title_end(session, end);
    let start = local_reading(session.session_started_at);
    let until = local_reading(end_at);
    session_title_from(session, end_at, &start, &until)
}

/// The description of a submission.
pub fn submission_description(room_url: &str) -> (r: String)
    ensures
        r@ == "自动直播回放\n直播间："@ + room_url@,
{
    concat("自动直播回放\n直播间：", room_url)
}

/// The lowest part of a session that is not verified yet is worked on as soon as its time has come,
/// unless somebody has to look at it: no part waits for ever.
pub proof fn law_waiting_part_comes_up(session: SessionModel, j: int, now: i64)
    requires
        0 <= j < session.segments.len(),
        session.segments[j].state != BilibiliSegmentState::RemoteVerified,
        session.segments[j].state != BilibiliSegmentState::SubmissionUncertain,
        session.segments[j].state != BilibiliSegmentState::Conflict,
        session.segments[j].next_retry_at <= now,
        forall|m: int|
            0 <= m < session.segments.len() && m != j && (#[trigger] session.segments[m]).state
                != BilibiliSegmentState::RemoteVerified ==> session.segments[j].segment_index
                < session.segments[m].segment_index,
    ensures
        is_ready(session, j, now),
{
}

/// A part that nothing was tried with yet, or whose login is missing, is worked on at any time; one
/// that waits for its next attempt is left alone until then.
pub proof fn law_attempts_are_spaced(session: SessionModel, j: int, now: i64)
    requires
        0 <= j < session.segments.len(),
        forall|m: int|
            0 <= m < session.segments.len() && m != j && (#[trigger] session.segments[m]).state
                != BilibiliSegmentState::RemoteVerified ==> session.segments[j].segment_index
                < session.segments[m].segment_index,
    ensures
        session.segments[j].state == BilibiliSegmentState::ReadyToUpload || session.segments[j].state
            == BilibiliSegmentState::UploadingFile || session.segments[j].state
            == BilibiliSegmentState::FileUploaded || session.segments[j].state
            == BilibiliSegmentState::Submitting || session.segments[j].state
            == BilibiliSegmentState::AuthRequired ==> is_ready(session, j, now),
        (session.segments[j].state == BilibiliSegmentState::RemoteProcessing
            || session.segments[j].state == BilibiliSegmentState::RetryPending)
            && session.segments[j].next_retry_at > now ==> !is_ready(session, j, now),
{
}

/// Of two sessions with a part to work on, the one that started first has its turn.
pub proof fn law_oldest_session_first(
    sessions: Seq<SessionModel>,
    now: i64,
    k: int,
    j: int,
    m: int,
    i: int,
)
    requires
        is_next_work(sessions, now, k, j),
        0 <= m < sessions.len(),
        is_ready(sessions[m], i, now),
    ensures
        0 <= k < sessions.len(),
        is_ready(sessions[k], j, now),
        sessions[k].session_started_at <= sessions[m].session_started_at,
        m < k ==> sessions[k].session_started_at < sessions[m].session_started_at,
        m == k ==> i == j,
{
    if m == k {
        let parts = sessions[k].segments;
        assert(parts[i].state != BilibiliSegmentState::RemoteVerified);
        assert(parts[j].state != BilibiliSegmentState::RemoteVerified);
    }
}

/// No change makes a part another one: it keeps its session, its number, its file and its times.
pub proof fn law_part_keeps_identity(part: PartModel, change: PartChange)
    ensures
        ({
            let after = changed_part(part, change);
            &&& after.live_session_id == part.live_session_id
            &&& after.segment_index == part.segment_index
            &&& after.local_path == part.local_path
            &&& after.file_size == part.file_size
            &&& after.started_at == part.started_at
            &&& after.ended_at == part.ended_at
            &&& after.remote_filename == part.remote_filename || change is FileUploaded
            &&& after.local_deleted == part.local_deleted || change is LocalDeleted
            &&& after.state == part.state || !(change is LocalDeleted)
        }),
{
}

/// A change of one part leaves the other parts of the session alone, and the session keeps its
/// identity; only a part that created the submission settles which one it is.
pub proof fn law_session_keeps_identity(session: SessionModel, j: int, change: PartChange, i: int)
    requires
        0 <= j < session.segments.len(),
        0 <= i < session.segments.len(),
        i != j,
    ensures
        ({
            let after = changed_session(session, j, change);
            &&& after.live_session_id == session.live_session_id
            &&& after.streamer_name == session.streamer_name
            &&& after.room_url == session.room_url
            &&& after.platform == session.platform
            &&& after.session_started_at == session.session_started_at
            &&& after.session_ended_at == session.session_ended_at
            &&& after.recording_complete == session.recording_complete
            &&& after.segments.len() == session.segments.len()
            &&& after.segments[i] == session.segments[i]
            &&& change matches PartChange::Created { aid, bvid, next_retry_at } ==> after.aid
                == Some(aid) && after.bvid == opt_text(bvid)
            &&& !(change is Created) && !(change is Uncertain) ==> after.submission_state
                == session.submission_state
        }),
{
}

/// A part whose file is on the server is under that name there, and goes on at once; one that is
/// tried again later comes up then and not before; a verified one never comes up again.
pub proof fn law_change_decides_when_work_goes_on(
    part: PartModel,
    filename: String,
    attempts: u32,
    at: i64,
    error: String,
    shown: Option<String>,
    aid: u64,
    bvid: Option<String>,
    now: i64,
)
    ensures
        ({
            let uploaded = changed_part(part, PartChange::FileUploaded { filename });
            &&& uploaded.remote_filename == Some(filename@)
            &&& may_advance(uploaded, now)
            &&& uploaded.last_error is None
        }),
        ({
            let retried = changed_part(
                part,
                PartChange::RetryUpload { attempts, next_retry_at: at, error },
            );
            &&& may_advance(retried, now) <==> at <= now
            &&& retried.retry_count == attempts
            &&& retried.last_error == Some(error@)
        }),
        ({
            let processing = changed_part(
                part,
                PartChange::Processing { attempts, next_retry_at: at, error: shown },
            );
            &&& may_advance(processing, now) <==> at <= now
            &&& processing.retry_count == attempts
            &&& processing.last_error == opt_text(shown)
        }),
        ({
            let created = changed_part(part, PartChange::Created { aid, bvid, next_retry_at: at });
            &&& may_advance(created, now) <==> at <= now
            &&& created.last_error is None
        }),
        ({
            let verified = changed_part(part, PartChange::Verified);
            &&& !may_advance(verified, now)
            &&& verified.last_error is None
        }),
        ({
            let uncertain = changed_part(part, PartChange::Uncertain { error });
            &&& !may_advance(uncertain, now)
            &&& uncertain.state != BilibiliSegmentState::RemoteVerified
            &&& uncertain.last_error == Some(error@)
        }),
        ({
            let conflict = changed_part(part, PartChange::Conflict { error });
            &&& !may_advance(conflict, now)
            &&& conflict.state != BilibiliSegmentState::RemoteVerified
            &&& conflict.last_error == Some(error@)
        }),
        changed_part(part, PartChange::LocalDeleted).local_deleted,
{
}

/// A file is uploaded only as it was queued: if it is gone, empty, no regular file or of another
/// size, the part is in conflict, and its upload does not begin.
pub proof fn law_upload_needs_the_queued_file(
    part: BilibiliSegmentTask,
    facts: Result<FileFacts, String>,
    change: PartChange,
    now: i64,
)
    requires
        file_checked(part, facts, change),
    ensures
        ({
            let sound = facts matches Ok(f) && f.is_file && f.len > 0 && f.len == part.file_size;
            let after = changed_part(part@, change);
            &&& sound ==> after.state == BilibiliSegmentState::UploadingFile && after.last_error
                is None
            &&& !sound ==> after.state == BilibiliSegmentState::Conflict && after.last_error is Some
                && !may_advance(after, now)
        }),
{
}

/// An upload that failed is tried again, later and with one attempt more counted; one that
/// succeeded is not.
pub proof fn law_failed_upload_is_repeated(
    part: BilibiliSegmentTask,
    result: Result<String, String>,
    now: i64,
    change: PartChange,
)
    requires
        upload_noted(part, result, now, change),
        now < 9_000_000_000_000,
        part.retry_count < u32::MAX,
    ensures
        ({
            let after = changed_part(part@, change);
            match result {
                Ok(filename) => after.remote_filename == Some(filename@) && after.state
                    == BilibiliSegmentState::FileUploaded,
                Err(error) => {
                    &&& after.remote_filename == part@.remote_filename
                    &&& after.retry_count == part.retry_count + 1
                    &&& after.last_error == Some(error@)
                    &&& !may_advance(after, now)
                    &&& may_advance(after, i64::MAX)
                },
            }
        }),
{
    law_delay_has_bounds(30, part.retry_count as nat, 7, 3600);
}

/// A part counts as verified only when it was found in the remote submission, and then at once.
pub proof fn law_verified_only_when_found(
    part: BilibiliSegmentTask,
    error: String,
    found: Result<bool, String>,
    now: i64,
    appended: PartChange,
    recovered: PartChange,
    looked: PartChange,
)
    requires
        append_noted(Err(error), found, now, appended),
        recovery_noted(part, found, now, recovered),
        verification_noted(part, found, now, looked),
    ensures
        ({
            let there = found == Ok::<bool, String>(true);
            &&& changed_part(part@, appended).state == BilibiliSegmentState::RemoteVerified <==> there
            &&& changed_part(part@, recovered).state == BilibiliSegmentState::RemoteVerified
                <==> there
            &&& changed_part(part@, looked).state == BilibiliSegmentState::RemoteVerified <==> there
        }),
{
}

/// A part that was submitted and is not seen yet is looked for again, later each time; only after
/// several looks is it left to somebody. A look that failed says nothing: it is repeated.
pub proof fn law_submitted_part_is_looked_for(
    part: BilibiliSegmentTask,
    found: Result<bool, String>,
    now: i64,
    change: PartChange,
)
    requires
        verification_noted(part, found, now, change),
        found != Ok::<bool, String>(true),
        now < 9_000_000_000_000,
        part.retry_count < u32::MAX,
    ensures
        ({
            let after = changed_part(part@, change);
            &&& after.remote_filename == part@.remote_filename
            &&& after.last_error is Some
            &&& !may_advance(after, now)
            &&& found is Err || part.retry_count + 1 < MAX_VERIFICATIONS ==> {
                &&& after.state == BilibiliSegmentState::RemoteProcessing
                &&& after.retry_count == part.retry_count + 1
                &&& may_advance(after, i64::MAX)
            }
            &&& found is Ok && part.retry_count + 1 >= MAX_VERIFICATIONS ==> after.state
                == BilibiliSegmentState::SubmissionUncertain
        }),
{
    law_delay_has_bounds(5, part.retry_count as nat, 5, 300);
}

/// A submission that was accepted is looked for soon; one whose outcome is not known is not made
/// again, and waits for somebody.
pub proof fn law_submission_outcome_kept(
    session: SessionModel,
    j: int,
    created: Result<BilibiliSubmissionRef, String>,
    on_create: PartChange,
    on_append: PartChange,
    found: Result<bool, String>,
    now: i64,
)
    requires
        0 <= j < session.segments.len(),
        create_noted(created, now, on_create),
        append_noted(Ok(()), found, now, on_append),
        now < 9_000_000_000_000,
    ensures
        ({
            let after = changed_session(session, j, on_create);
            match created {
                Ok(remote) => {
                    &&& after.aid == Some(remote.aid)
                    &&& after.bvid == opt_text(remote.bvid)
                    &&& after.segments[j].state == BilibiliSegmentState::RemoteProcessing
                    &&& may_advance(after.segments[j], i64::MAX)
                },
                Err(error) => {
                    &&& after.aid == session.aid
                    &&& after.segments[j].state == BilibiliSegmentState::SubmissionUncertain
                    &&& after.segments[j].last_error == Some(error@)
                },
            }
        }),
        ({
            let after = changed_session(session, j, on_append);
            &&& after.aid == session.aid
            &&& after.segments[j].state == BilibiliSegmentState::RemoteProcessing
            &&& after.segments[j].last_error is None
            &&& !may_advance(after.segments[j], now)
            &&& may_advance(after.segments[j], i64::MAX)
        }),
{
}

/// Every verified part whose file is still there has that file offered for deletion.
pub proof fn law_verified_files_offered(
    session: Seq<char>,
    parts: Seq<PartModel>,
    files: Seq<DeletableFile>,
    j: int,
)
    requires
        lists_files(session, parts, files),
        0 <= j < parts.len(),
        parts[j].state == BilibiliSegmentState::RemoteVerified,
        !parts[j].local_deleted,
    ensures
        exists|i: int|
            0 <= i < files.len() && (#[trigger] files[i]).local_path@ == parts[j].local_path
                && files[i].segment_index == parts[j].segment_index && files[i].live_session_id@
                == session,
    decreases parts.len(),
{
    let last = parts.len() - 1;
    if j == last {
        assert(parts.last() == parts[j]);
        assert(files[files.len() - 1] == files.last());
    } else if may_delete(parts.last()) {
        law_verified_files_offered(session, parts.drop_last(), files.drop_last(), j);
        let i = choose|i: int|
            0 <= i < files.drop_last().len() && (#[trigger] files.drop_last()[i]).local_path@
                == parts[j].local_path && files.drop_last()[i].segment_index
                == parts[j].segment_index && files.drop_last()[i].live_session_id@ == session;
        assert(files[i] == files.drop_last()[i]);
    } else {
        law_verified_files_offered(session, parts.drop_last(), files, j);
    }
}

/// A title is made final once everything of the session is verified, and not before; it is made
/// final once.
pub proof fn law_title_final_after_all_parts(session: SessionModel, j: int)
    ensures
        session.recording_complete && session.aid is Some && session.submission_state == "ACTIVE"@
            && session.segments.len() > 0 && (forall|i: int|
            0 <= i < session.segments.len() ==> (#[trigger] session.segments[i]).state
                == BilibiliSegmentState::RemoteVerified) ==> awaits_final_title(session),
        0 <= j < session.segments.len() && session.segments[j].state
            != BilibiliSegmentState::RemoteVerified ==> !awaits_final_title(session),
        !session.recording_complete ==> !awaits_final_title(session),
        !awaits_final_title(SessionModel { submission_state: "FINALIZED"@, ..session }),
{
    reveal_strlit("ACTIVE");
    reveal_strlit("FINALIZED");
    assert("ACTIVE"@.len() != "FINALIZED"@.len());
}

/// Where nothing else says when a session ended, it is when its last part did.
pub proof fn law_session_ends_with_its_last_part(session: SessionModel, j: int)
    requires
        session.session_ended_at is None,
        0 <= j < session.segments.len(),
    ensures
        title_end(session, None) >= session.segments[j].ended_at,
        exists|i: int|
            0 <= i < session.segments.len() && title_end(session, None) == (
            #[trigger] session.segments[i]).ended_at,
{
    lemma_latest_end(session.segments);
}

proof fn lemma_latest_end(parts: Seq<PartModel>)
    requires
        parts.len() > 0,
    ensures
        latest_end(parts) matches Some(t) && (forall|i: int|
            0 <= i < parts.len() ==> (#[trigger] parts[i]).ended_at <= t) && exists|i: int|
            0 <= i < parts.len() && t == (#[trigger] parts[i]).ended_at,
    decreases parts.len(),
{
    let last = parts.len() - 1;
    assert(parts[last] == parts.last());
    if parts.len() > 1 {
        lemma_latest_end(parts.drop_last());
        let t = latest_end(parts.drop_last())->Some_0;
        assert forall|i: int| 0 <= i < parts.len() implies (#[trigger] parts[i]).ended_at
            <= latest_end(parts)->Some_0 by {
            if i < last {
                assert(parts.drop_last()[i] == parts[i]);
            }
        }
        let i = choose|i: int|
            0 <= i < parts.drop_last().len() && t == (#[trigger] parts.drop_last()[i]).ended_at;
        assert(parts[i] == parts.drop_last()[i]);
    } else {
        assert(parts.drop_last().len() == 0);
    }
}

/// A title tells who and, to the end, until when: it begins with the name of the streamer and ends
/// with the time at which the session does; the end that is given counts before any other.
pub proof fn law_title_names_streamer_and_end(
    session: SessionModel,
    end: i64,
    start: Option<LocalTime>,
    until: LocalTime,
)
    ensures
        title_end(session, Some(end)) == end,
        session.streamer_name.is_prefix_of(session_title_text(session, end, start, Some(until))),
        ({
            let title = session_title_text(session, end, start, Some(until));
            let clock = until.hour@ + ":"@ + until.minute@;
            &&& title.len() >= clock.len()
            &&& title.skip(title.len() - clock.len()) == clock
        }),
{
    let title = session_title_text(session, end, start, Some(until));
    let clock = until.hour@ + ":"@ + until.minute@;
    let head = session.streamer_name + "｜"@ + day_text(start, session.session_started_at) + "｜"@
        + time_text(start, session.session_started_at) + "-"@;
    assert(title =~= head + clock);
    assert(title.skip(title.len() - clock.len()) =~= clock);
    assert(title.subrange(0, session.streamer_name.len() as int) =~= session.streamer_name);
}

/// A change of a part that is not there fails, except that its file is gone, which needs no part.
pub proof fn law_changes_need_their_part(
    change: PartChange,
    session_missing: bool,
    r: Result<(), String>,
)
    requires
        no_place(change, session_missing, r),
    ensures
        r is Ok <==> change is LocalDeleted,
{
}

/// Once the title of a session is final it is not asked for again, and nothing else changes.
pub proof fn law_title_is_final_once(session: SessionModel)
    ensures
        !awaits_final_title(title_final(session)),
        title_final(session) == (SessionModel {
            submission_state: title_final(session).submission_state,
            ..session
        }),
{
    reveal_strlit("FINALIZED");
    reveal_strlit("ACTIVE");
    assert("FINALIZED"@.len() != "ACTIVE"@.len());
}

} // verus!
