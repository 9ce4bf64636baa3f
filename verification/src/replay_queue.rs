//! The worker that uploads the parts of one session: which part is due, what an attempt does step
//! by step, and what follows a failure.

use crate::json::{
    get_in, item_of, member_of, number_in, number_of, parse_json, parsed_json, text_in, text_of,
};
use crate::lists::{first_index, lemma_first_index, lemma_first_index_found};
use crate::replay_rows::{
    is_terminal, needs_hand, segment_is_terminal, SegmentRow, SessionRow,
};
use crate::statuses::{SegmentStatus, SessionStatus, SubmitState};
use crate::text::{decimal, decimal_i64, decimal_int, opt_text, push_decimal, push_text, same};
use vstd::prelude::*;

verus! {

/// Looks at the remote part before an upload attempt gives up.
pub const VERIFY_ATTEMPTS: usize = 30;

/// Pause between two looks at the remote part.
pub const VERIFY_INTERVAL_SECONDS: u64 = 10;

/// Seconds before the first, second, ... repetition of an upload.
pub const RETRY_DELAYS: [u64; 5] = [60, 300, 900, 1800, 3600];

/// Seconds before an upload is tried again for the `attempt`-th time.
pub open spec fn retry_secs(attempt: nat) -> u64 {
    if attempt <= 1 {
        60
    } else if attempt == 2 {
        300
    } else if attempt == 3 {
        900
    } else if attempt == 4 {
        1800
    } else {
        3600
    }
}

/// Seconds before an upload is tried again for the `attempt`-th time: one minute, then 5, 15 and
/// 30 minutes, then one hour each time.
pub fn retry_delay(attempt: usize) -> (r: u64)
    ensures
        r == retry_secs(attempt as nat),
{
    let index: usize = attempt.saturating_sub(1);
    if index < RETRY_DELAYS.len() {
        RETRY_DELAYS[index]
    } else {
        3600
    }
}

/// Later attempts never wait less, and none waits longer than an hour.
pub proof fn law_retry_schedule(attempt: nat, later: nat)
    requires
        attempt <= later,
    ensures
        60 <= retry_secs(attempt) <= retry_secs(later) <= 3600,
{
}

/// The predicate of the part of a session that is due at `now`.
pub open spec fn is_due_part(session: SessionRow, now: i64) -> spec_fn(SegmentRow) -> bool {
    |r: SegmentRow|
        {
            &&& r.session_id == session.id
            &&& r.part_number == session.next_part_to_upload
            &&& !is_terminal(r.status)
            &&& !needs_hand(r.status)
            &&& match r.next_retry_at {
                Some(t) => t <= now,
                None => true,
            }
        }
}

/// The part of a session that is due at `now`: the one whose turn it is, unless it is done, waits
/// for a hand, or waits for its next attempt.
pub fn next_ready_segment(session: &SessionRow, segments: &Vec<SegmentRow>, now: i64) -> (r: Option<
    usize,
>)
    ensures
        ({
            let k = first_index(segments@, is_due_part(*session, now));
            r == if k < segments@.len() {
                Some(k as usize)
            } else {
                None
            }
        }),
{
    let n: usize = segments.len();
    let ghost due = is_due_part(*session, now);
    let mut i: usize = 0;
    while i < n
        invariant
            i <= n,
            n == segments.len(),
            due == is_due_part(*session, now),
            forall|j: int| 0 <= j < i ==> !due(#[trigger] segments@[j]),
        decreases n - i,
    {
        let row = &segments[i];
        let waits = match row.next_retry_at {
            Some(t) => t > now,
            None => false,
        };
        if row.session_id == session.id && row.part_number == session.next_part_to_upload
            && !segment_is_terminal(&row.status) && row.status != SegmentStatus::Conflict
            && row.status != SegmentStatus::SubmissionUncertain && !waits {
            proof {
                lemma_first_index(segments@, due, i as int);
            }
            return Some(i);
        }
        i = i + 1;
    }
    proof {
        lemma_first_index(segments@, due, n as int);
    }
    None
}

/// The number of parts of a session for which something is left to do.
pub open spec fn pending_count(segments: Seq<SegmentRow>, session_id: i64) -> nat
    decreases segments.len(),
{
    if segments.len() == 0 {
        0
    } else {
        pending_count(segments.drop_last(), session_id) + if segments.last().session_id
            == session_id && !is_terminal(segments.last().status) {
            1nat
        } else {
            0nat
        }
    }
}

/// The number of parts of a session for which something is left to do.
pub fn count_pending(segments: &Vec<SegmentRow>, session_id: i64) -> (r: usize)
    ensures
        r == pending_count(segments@, session_id),
        r <= segments.len(),
{
    let n: usize = segments.len();
    let mut count: usize = 0;
    let mut i: usize = 0;
    assert(segments@.take(0) =~= Seq::empty());
    while i < n
        invariant
            i <= n,
            n == segments.len(),
            count == pending_count(segments@.take(i as int), session_id),
            count <= i,
        decreases n - i,
    {
        proof {
            assert(segments@.take(i + 1).drop_last() =~= segments@.take(i as int));
            assert(segments@.take(i + 1).last() == segments@[i as int]);
        }
        if segments[i].session_id == session_id && !segment_is_terminal(&segments[i].status) {
            count = count + 1;
        }
        i = i + 1;
    }
    assert(segments@.take(n as int) =~= segments@);
    count
}

/// Whether a session is over: it is no longer recorded and nothing is left to do for its parts.
pub fn session_can_finish(session: &SessionRow, segments: &Vec<SegmentRow>) -> (r: bool)
    ensures
        r == ((session.status == SessionStatus::RecordingComplete || session.status
            == SessionStatus::Complete) && pending_count(segments@, session.id) == 0),
{
    (session.status == SessionStatus::RecordingComplete || session.status
        == SessionStatus::Complete) && count_pending(segments, session.id) == 0
}

/// What the worker of a session does next.
#[derive(Clone, Copy, Debug, PartialEq, Eq, Structural)]
pub enum QueueDecision {
    /// Work on this part.
    Process(usize),
    /// The session is over.
    Finish,
    /// Wait this many seconds, or until woken up.
    Wait(u64),
}

/// What the worker of a session does at `now`.
pub open spec fn decided(session: SessionRow, segments: Seq<SegmentRow>, now: i64) -> QueueDecision {
    let k = first_index(segments, is_due_part(session, now));
    if k < segments.len() {
        QueueDecision::Process(k as usize)
    } else if (session.status == SessionStatus::RecordingComplete || session.status
        == SessionStatus::Complete) && pending_count(segments, session.id) == 0 {
        QueueDecision::Finish
    } else {
        QueueDecision::Wait(2)
    }
}

/// Decides what the worker of a session does at `now`.
pub fn queue_decision(session: &SessionRow, segments: &Vec<SegmentRow>, now: i64) -> (r: QueueDecision)
    ensures
        r == decided(*session, segments@, now),
{
    match next_ready_segment(session, segments, now) {
        Some(k) => QueueDecision::Process(k),
        None => if session_can_finish(session, segments) {
            QueueDecision::Finish
        } else {
            QueueDecision::Wait(2)
        },
    }
}

/// What follows an attempt that failed.
#[derive(Clone, Copy, Debug, PartialEq, Eq, Structural)]
pub enum FailureDecision {
    /// The part waits for a hand; look again after this many seconds.
    WaitForHand(u64),
    /// Try again, for the `attempt`-th time, after `delay` seconds.
    Retry { attempt: i64, delay: u64 },
}

/// What follows an attempt that failed and left the part in this state.
pub open spec fn failure_decided(segment: SegmentRow) -> FailureDecision {
    if needs_hand(segment.status) {
        FailureDecision::WaitForHand(60)
    } else {
        let attempt = if segment.retry_count == i64::MAX {
            i64::MAX
        } else {
            (segment.retry_count + 1) as i64
        };
        FailureDecision::Retry {
            attempt,
            delay: if attempt < 0 {
                3600
            } else {
                retry_secs(attempt as nat)
            },
        }
    }
}

/// Decides what follows an attempt that failed and left the part in this state.
pub fn after_failure(segment: &SegmentRow) -> (r: FailureDecision)
    ensures
        r == failure_decided(*segment),
{
    if segment.status == SegmentStatus::Conflict || segment.status
        == SegmentStatus::SubmissionUncertain {
        return FailureDecision::WaitForHand(60);
    }
    let attempt: i64 = if segment.retry_count == i64::MAX {
        i64::MAX
    } else {
        segment.retry_count + 1
    };
    let bounded: usize = if attempt > 100 || attempt < 0 {
        100
    } else {
        attempt as usize
    };
    FailureDecision::Retry { attempt, delay: retry_delay(bounded) }
}

/// What the remote submission holds at the place of a part.
#[derive(Debug)]
pub enum RemotePartState {
    /// Nothing.
    Missing,
    /// The part, or a place without a name yet; it is still being processed.
    MatchingProcessing,
    /// The part, ready to be watched.
    MatchingReady,
    /// Another file.
    Conflict(String),
}

/// A part of the remote submission, as the service reports it.
#[derive(Debug)]
pub struct RemoteVideo {
    pub filename: Option<String>,
    pub duration: Option<u64>,
}

/// The state of a place in a remote submission, given the name and the duration of the part there.
pub open spec fn is_place_state(
    filename: Option<Seq<char>>,
    duration: Option<u64>,
    expected: Seq<char>,
    state: RemotePartState,
) -> bool {
    match filename {
        Some(name) if name.len() > 0 => if name != expected {
            state matches RemotePartState::Conflict(other) && other@ == name
        } else if duration matches Some(d) && d > 0 {
            state is MatchingReady
        } else {
            state is MatchingProcessing
        },
        _ => state is MatchingProcessing,
    }
}

/// The state of a place in a remote submission; `video` is the part there, if any.
pub fn place_state(video: Option<RemoteVideo>, expected_filename: &str) -> (r: RemotePartState)
    ensures
        match video {
            Some(v) => is_place_state(opt_text(v.filename), v.duration, expected_filename@, r),
            None => r is Missing,
        },
{
    let video = match video {
        Some(video) => video,
        None => {
            return RemotePartState::Missing;
        },
    };
    let filename = match video.filename {
        Some(name) => name,
        None => {
            return RemotePartState::MatchingProcessing;
        },
    };
    if filename.as_str().is_empty() {
        return RemotePartState::MatchingProcessing;
    }
    if !same(filename.as_str(), expected_filename) {
        return RemotePartState::Conflict(filename);
    }
    let ready = match video.duration {
        Some(duration) => duration > 0,
        None => false,
    };
    if ready {
        RemotePartState::MatchingReady
    } else {
        RemotePartState::MatchingProcessing
    }
}

/// The number of a part as an index type counts it: a number that does not fit wraps around.
pub open spec fn counted_as(part_number: i64) -> usize {
    #[verifier::truncate]
    (part_number as usize)
}

/// The number of a part as the remote submission counts it.
pub fn remote_number(part_number: i64) -> (r: usize)
    ensures
        r == counted_as(part_number),
        0 <= part_number <= usize::MAX ==> r == part_number,
{
    #[verifier::truncate]
    (part_number as usize)
}

/// The state of the part `part_number` in a remote submission with this description.
pub open spec fn is_remote_state(
    data: Seq<char>,
    part_number: nat,
    expected: Seq<char>,
    state: RemotePartState,
) -> bool {
    let place: nat = if part_number == 0 {
        0
    } else {
        (part_number - 1) as nat
    };
    match item_of(member_of(parsed_json(data), "videos"@), place as int) {
        Some(video) => is_place_state(
            text_of(member_of(Some(video), "filename"@)),
            number_of(member_of(Some(video), "duration"@)),
            expected,
            state,
        ),
        None => state is Missing,
    }
}

/// Finds out what a remote submission holds at the place of the part `part_number`; `data` is the
/// description that the service gives of it, as JSON.
pub fn remote_part_state(data: &str, part_number: usize, expected_filename: &str) -> (r:
    RemotePartState)
    ensures
        is_remote_state(data@, part_number as nat, expected_filename@, r),
{
    let place: usize = part_number.saturating_sub(1);
    let data = parse_json(data);
    let video = match get_in(data.as_ref(), "videos") {
        Some(videos) => videos.item(place),
        None => None,
    };
    let video = match video {
        Some(video) => Some(
            RemoteVideo {
                filename: text_in(video.get("filename")),
                duration: number_in(video.get("duration")),
            },
        ),
        None => None,
    };
    place_state(video, expected_filename)
}

/// How the part of a session with an uploaded file is submitted.
#[derive(Debug)]
pub enum SubmissionPlan {
    /// The session has this submission; look whether the part is in it.
    CheckRemote(u64),
    /// It is not known whether the session has a submission: stop, with this message.
    Stop(String),
    /// The session has no submission; create it.
    Create,
}

/// The message for a session whose first submission may have been accepted.
pub open spec fn maybe_accepted() -> Seq<char> {
    "首个投稿请求可能已经被B站接收；为防止重复投稿，已暂停并等待绑定AID/BVID"@
}

/// The message for a first submission that failed.
pub open spec fn maybe_created() -> Seq<char> {
    "首个投稿返回结果不确定；已停止自动重投，避免生成重复稿件"@
}

/// Decides how the part of a session is submitted. A submission is created only while none has
/// ever been asked for.
pub fn submission_plan(session: &SessionRow) -> (r: SubmissionPlan)
    ensures
        match session.aid {
            Some(aid) => r == SubmissionPlan::CheckRemote(aid),
            None => if session.submit_state == SubmitState::Submitting || session.submit_state
                == SubmitState::Uncertain {
                r matches SubmissionPlan::Stop(m) && m@ == maybe_accepted()
            } else {
                r is Create
            },
        },
{
    match session.aid {
        Some(aid) => SubmissionPlan::CheckRemote(aid),
        None => if session.submit_state == SubmitState::Submitting || session.submit_state
            == SubmitState::Uncertain {
            SubmissionPlan::Stop(
                "首个投稿请求可能已经被B站接收；为防止重复投稿，已暂停并等待绑定AID/BVID".to_owned(),
            )
        } else {
            SubmissionPlan::Create
        },
    }
}

/// The message that a failed creation of a submission leaves behind.
pub fn creation_failed() -> (r: String)
    ensures
        r@ == maybe_created(),
{
    "首个投稿返回结果不确定；已停止自动重投，避免生成重复稿件".to_owned()
}

/// What is done about a part that has a place in a submission.
#[derive(Debug)]
pub enum RemoteDecision {
    /// Append it.
    Append,
    /// It is there; wait until it is ready.
    Await,
    /// Another file is there: stop, with this message.
    Stop(String),
}

/// The message for a remote part that is another file.
pub open spec fn conflict_text(part_number: int, remote: Seq<char>, local: Seq<char>) -> Seq<char> {
    "远端 P"@ + decimal_int(part_number) + " 文件标识为 "@ + remote + "，本地上传标识为 "@ + local
}

/// Writes the message for a remote part that is another file.
pub fn conflict_message(part_number: i64, remote: &str, local: &str) -> (r: String)
    ensures
        r@ == conflict_text(part_number as int, remote@, local@),
{
    let mut message = "远端 P".to_owned();
    push_text(&mut message, decimal_i64(part_number).as_str());
    push_text(&mut message, " 文件标识为 ");
    push_text(&mut message, remote);
    push_text(&mut message, "，本地上传标识为 ");
    push_text(&mut message, local);
    message
}

/// Decides what is done about a part, given what is at its place in the submission.
pub fn remote_decision(state: &RemotePartState, part_number: i64, remote_filename: &str) -> (r: RemoteDecision)
    ensures
        match *state {
            RemotePartState::Missing => r is Append,
            RemotePartState::MatchingReady => r is Await,
            RemotePartState::MatchingProcessing => r is Await,
            RemotePartState::Conflict(other) => r matches RemoteDecision::Stop(m) && m@
                == conflict_text(part_number as int, other@, remote_filename@),
        },
{
    match state {
        RemotePartState::Missing => RemoteDecision::Append,
        RemotePartState::MatchingReady => RemoteDecision::Await,
        RemotePartState::MatchingProcessing => RemoteDecision::Await,
        RemotePartState::Conflict(other) => RemoteDecision::Stop(
            conflict_message(part_number, other.as_str(), remote_filename),
        ),
    }
}

/// Checks that a part may be appended to a submission that has `remote_parts` parts: it has to
/// become the one right behind them.
pub fn check_append_order(remote_parts: usize, part_number: i64) -> (r: Result<(), String>)
    ensures
        r is Ok <==> remote_parts + 1 == part_number,
        r matches Err(m) ==> m@ == "remote part order mismatch: remote="@ + decimal(
            remote_parts as nat,
        ) + ", expected part="@ + decimal_int(part_number as int),
{
    if part_number >= 1 && (part_number - 1) as u64 == remote_parts as u64 {
        return Ok(());
    }
    let mut message = "remote part order mismatch: remote=".to_owned();
    push_decimal(&mut message, remote_parts as u64);
    push_text(&mut message, ", expected part=");
    push_text(&mut message, decimal_i64(part_number).as_str());
    Err(message)
}

/// What follows a look at a remote part that is awaited.
#[derive(Debug)]
pub enum AwaitDecision {
    /// It is ready.
    Ready,
    /// Look again after a pause.
    LookAgain,
    /// Another file is there: give up at once, with this message.
    GiveUp(String),
    /// That was the last look: give up after a pause, with this message.
    TimedOut(String),
}

/// The message for an awaited part whose place holds another file.
pub open spec fn other_file(part_number: nat, expected: Seq<char>, other: Seq<char>) -> Seq<char> {
    "remote identity conflict at P"@ + decimal(part_number) + ": expected "@ + expected
        + ", got "@ + other
}

/// The message for an awaited part that did not become ready in time.
pub open spec fn not_ready(aid: nat, part_number: nat) -> Seq<char> {
    "remote part verification timed out: aid="@ + decimal(aid) + ", part="@ + decimal(part_number)
}

/// Decides what follows the look number `look` (counted from zero) at a remote part.
pub fn await_decision(
    state: &RemotePartState,
    look: usize,
    aid: u64,
    part_number: usize,
    expected_filename: &str,
) -> (r: AwaitDecision)
    ensures
        match *state {
            RemotePartState::MatchingReady => r is Ready,
            RemotePartState::Conflict(other) => r matches AwaitDecision::GiveUp(m) && m@
                == other_file(part_number as nat, expected_filename@, other@),
            _ => if look + 1 < VERIFY_ATTEMPTS {
                r is LookAgain
            } else {
                r matches AwaitDecision::TimedOut(m) && m@ == not_ready(
                    aid as nat,
                    part_number as nat,
                )
            },
        },
{
    match state {
        RemotePartState::MatchingReady => AwaitDecision::Ready,
        RemotePartState::Conflict(other) => {
            let mut message = "remote identity conflict at P".to_owned();
            push_decimal(&mut message, part_number as u64);
            push_text(&mut message, ": expected ");
            push_text(&mut message, expected_filename);
            push_text(&mut message, ", got ");
            push_text(&mut message, other.as_str());
            AwaitDecision::GiveUp(message)
        },
        RemotePartState::Missing | RemotePartState::MatchingProcessing => {
            if look < VERIFY_ATTEMPTS - 1 {
                AwaitDecision::LookAgain
            } else {
                let mut message = "remote part verification timed out: aid=".to_owned();
                push_decimal(&mut message, aid);
                push_text(&mut message, ", part=");
                push_decimal(&mut message, part_number as u64);
                AwaitDecision::TimedOut(message)
            }
        },
    }
}

/// What follows when waiting for a remote part was given up: another look (`state`) may show that
/// another file is there, which stops the session; otherwise the attempt has failed.
pub fn after_await_failed(
    state: &Result<RemotePartState, String>,
    part_number: i64,
    remote_filename: &str,
) -> (r: Option<String>)
    ensures
        match *state {
            Ok(RemotePartState::Conflict(other)) => r matches Some(m) && m@ == conflict_text(
                part_number as int,
                other@,
                remote_filename@,
            ),
            _ => r is None,
        },
{
    match state {
        Ok(RemotePartState::Conflict(other)) => Some(
            conflict_message(part_number, other.as_str(), remote_filename),
        ),
        _ => None,
    }
}

/// The part whose turn it is is due as soon as its waiting time is over, a part that was just queued
/// included. Only a part that is done, or that waits for a hand, is passed over.
pub proof fn law_part_in_turn_is_due(session: SessionRow, part: SegmentRow, now: i64)
    requires
        part.session_id == session.id,
        part.part_number == session.next_part_to_upload,
        part.status != SegmentStatus::Deleted,
        part.status != SegmentStatus::Retained,
        part.status != SegmentStatus::Conflict,
        part.status != SegmentStatus::SubmissionUncertain,
    ensures
        part.next_retry_at is None ==> is_due_part(session, now)(part),
        part.next_retry_at matches Some(t) ==> (is_due_part(session, now)(part) <==> t <= now),
{
}

/// A part of another session, out of turn, done, or waiting for a hand is never due.
pub proof fn law_part_out_of_turn_waits(session: SessionRow, part: SegmentRow, now: i64)
    requires
        part.session_id != session.id || part.part_number != session.next_part_to_upload
            || part.status == SegmentStatus::Deleted || part.status == SegmentStatus::Retained
            || part.status == SegmentStatus::Conflict || part.status
            == SegmentStatus::SubmissionUncertain,
    ensures
        !is_due_part(session, now)(part),
{
}

/// The worker takes up the part whose turn has come, and no other.
pub proof fn law_worker_takes_the_part_in_turn(
    session: SessionRow,
    segments: Seq<SegmentRow>,
    now: i64,
    k: int,
)
    requires
        segments.len() <= usize::MAX,
        0 <= k < segments.len(),
        segments[k].session_id == session.id,
        segments[k].part_number == session.next_part_to_upload,
        segments[k].status != SegmentStatus::Deleted,
        segments[k].status != SegmentStatus::Retained,
        segments[k].status != SegmentStatus::Conflict,
        segments[k].status != SegmentStatus::SubmissionUncertain,
        segments[k].next_retry_at matches Some(t) ==> t <= now,
    ensures
        decided(session, segments, now) matches QueueDecision::Process(i) && i <= k
            && segments[i as int].session_id == session.id && segments[i as int].part_number
            == session.next_part_to_upload,
{
    lemma_first_index_found(segments, is_due_part(session, now));
    assert(is_due_part(session, now)(segments[k]));
}

proof fn lemma_pending_count(segments: Seq<SegmentRow>, session_id: i64)
    ensures
        pending_count(segments, session_id) == 0 <==> (forall|i: int|
            0 <= i < segments.len() && (#[trigger] segments[i]).session_id == session_id
                ==> segments[i].status == SegmentStatus::Deleted || segments[i].status
                == SegmentStatus::Retained),
    decreases segments.len(),
{
    if segments.len() > 0 {
        let rest = segments.drop_last();
        lemma_pending_count(rest, session_id);
        assert(forall|i: int| 0 <= i < rest.len() ==> #[trigger] rest[i] == segments[i]);
        if pending_count(segments, session_id) == 0 {
            assert forall|i: int|
                0 <= i < segments.len() && (#[trigger] segments[i]).session_id
                    == session_id implies segments[i].status == SegmentStatus::Deleted
                || segments[i].status == SegmentStatus::Retained by {
                if i < rest.len() {
                    assert(rest[i] == segments[i]);
                }
            }
        }
    }
}

/// The worker ends once the recording is over and every part is deleted or retained, and not before;
/// a part that is left keeps it waiting.
pub proof fn law_worker_ends_when_all_is_done(
    session: SessionRow,
    segments: Seq<SegmentRow>,
    now: i64,
)
    requires
        segments.len() <= usize::MAX,
    ensures
        decided(session, segments, now) is Finish <==> {
            &&& session.status == SessionStatus::RecordingComplete || session.status
                == SessionStatus::Complete
            &&& forall|i: int|
                0 <= i < segments.len() && (#[trigger] segments[i]).session_id == session.id
                    ==> segments[i].status == SegmentStatus::Deleted || segments[i].status
                    == SegmentStatus::Retained
        },
{
    lemma_pending_count(segments, session.id);
    let due = is_due_part(session, now);
    lemma_first_index_found(segments, due);
    let k = first_index(segments, due);
    if k < segments.len() {
        assert(segments[k].session_id == session.id);
    }
}

/// Parts are counted as pending one by one, each until it is deleted or retained.
pub proof fn law_pending_parts_are_counted(
    segments: Seq<SegmentRow>,
    part: SegmentRow,
    session_id: i64,
)
    ensures
        pending_count(segments, session_id) <= pending_count(segments.push(part), session_id)
            <= pending_count(segments, session_id) + 1,
        pending_count(segments.push(part), session_id) == pending_count(segments, session_id) + 1
            <==> part.session_id == session_id && part.status != SegmentStatus::Deleted
            && part.status != SegmentStatus::Retained,
        pending_count(Seq::empty(), session_id) == 0,
{
    assert(segments.push(part).drop_last() =~= segments);
}

/// A failed attempt is repeated after one, five, fifteen, thirty and then always sixty minutes.
pub proof fn law_waiting_times(attempt: nat)
    ensures
        retry_secs(0) == 60 && retry_secs(1) == 60,
        retry_secs(2) == 5 * retry_secs(1),
        retry_secs(3) == 3 * retry_secs(2),
        retry_secs(4) == 2 * retry_secs(3),
        attempt >= 5 ==> retry_secs(attempt) == 60 * 60,
{
}

/// A part that waits for a hand is not tried again; any other is, with its attempts counted.
pub proof fn law_failed_attempt_is_repeated(segment: SegmentRow)
    ensures
        failure_decided(segment) is WaitForHand <==> segment.status == SegmentStatus::Conflict
            || segment.status == SegmentStatus::SubmissionUncertain,
        failure_decided(segment) matches FailureDecision::WaitForHand(seconds) ==> seconds == 60,
        failure_decided(segment) matches FailureDecision::Retry { attempt, delay } ==> {
            &&& segment.retry_count < i64::MAX ==> attempt == segment.retry_count + 1
            &&& attempt >= segment.retry_count
            &&& 60 <= delay <= 3600
            &&& segment.retry_count == 0 ==> delay == 60
            &&& segment.retry_count >= 4 ==> delay == 3600
        },
{
}

/// The place of a part is taken as its own only where its file stands there, and as ready only once
/// the service knows how long it plays. A file of another name is never taken for it.
pub proof fn law_remote_place(
    filename: Option<Seq<char>>,
    duration: Option<u64>,
    expected: Seq<char>,
    state: RemotePartState,
)
    requires
        is_place_state(filename, duration, expected, state),
    ensures
        !(state is Missing),
        state is MatchingReady <==> filename == Some(expected) && expected.len() > 0
            && duration is Some && duration->0 > 0,
        state is Conflict <==> filename is Some && filename->0.len() > 0 && filename->0 != expected,
        state matches RemotePartState::Conflict(other) ==> filename == Some(other@) && other@
            != expected,
{
}

/// A conflict is told with both names and the number of the part.
pub proof fn law_conflict_names_both(
    part_number: int,
    remote: Seq<char>,
    local: Seq<char>,
    place: nat,
    expected: Seq<char>,
    other: Seq<char>,
)
    ensures
        ("远端 P"@ + decimal_int(part_number)).is_prefix_of(
            conflict_text(part_number, remote, local),
        ),
        local.is_suffix_of(conflict_text(part_number, remote, local)),
        ("remote identity conflict at P"@ + decimal(place)).is_prefix_of(
            other_file(place, expected, other),
        ),
        other.is_suffix_of(other_file(place, expected, other)),
{
    let t = conflict_text(part_number, remote, local);
    let head = "远端 P"@ + decimal_int(part_number);
    assert(t.take(head.len() as int) =~= head);
    assert(t.skip(t.len() - local.len()) =~= local);
    let u = other_file(place, expected, other);
    let start = "remote identity conflict at P"@ + decimal(place);
    assert(u.take(start.len() as int) =~= start);
    assert(u.skip(u.len() - other.len()) =~= other);
}

/// A part is looked for at its own place: the first part at the front, every further one behind the
/// one before it. Where the submission has no such place, the part is missing.
pub proof fn law_place_of_a_part(
    data: Seq<char>,
    part_number: nat,
    expected: Seq<char>,
    state: RemotePartState,
)
    requires
        is_remote_state(data, part_number, expected, state),
        part_number >= 1,
    ensures
        ({
            let video = item_of(member_of(parsed_json(data), "videos"@), part_number - 1);
            &&& state is Missing <==> video is None
            &&& state is MatchingReady ==> text_of(member_of(video, "filename"@)) == Some(expected)
                && (number_of(member_of(video, "duration"@)) matches Some(d) && d > 0)
            &&& state matches RemotePartState::Conflict(other) ==> text_of(
                member_of(video, "filename"@),
            ) == Some(other@) && other@ != expected
            &&& video is Some && text_of(member_of(video, "filename"@)) == Some(expected)
                && expected.len() > 0 && (number_of(member_of(video, "duration"@)) matches Some(d)
                && d > 0) ==> state is MatchingReady
        }),
{
}

} // verus!
