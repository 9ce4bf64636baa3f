//! The Bilibili upload queue: sessions with their parts, which part may advance, and what each
//! stage of an upload does to it.

use crate::lists::{first_index, lemma_first_index, lemma_first_index_found, ordered, stable_sort, Ranked};
use crate::recording::RecordingSegment;
use crate::recordings::FileFacts;
use crate::text::{concat, opt_text, same};
use vstd::prelude::*;

verus! {

/// How many pieces of a file are uploaded side by side.
pub const UPLOAD_CONCURRENCY: usize = 3;

/// Pause of the worker between two looks at the queue.
pub const WORKER_IDLE_SECONDS: u64 = 5;

/// Looks at the remote submission before a part that does not show up counts as uncertain.
pub const MAX_VERIFICATIONS: u32 = 8;

/// How far a part has come.
#[derive(Clone, Copy, Debug, PartialEq, Eq, Structural)]
pub enum BilibiliSegmentState {
    ReadyToUpload,
    UploadingFile,
    FileUploaded,
    Submitting,
    RemoteProcessing,
    RemoteVerified,
    RetryPending,
    AuthRequired,
    SubmissionUncertain,
    Conflict,
}

/// One part on its way into the submission of its session.
#[derive(Debug)]
pub struct BilibiliSegmentTask {
    pub live_session_id: String,
    pub segment_index: u32,
    pub local_path: String,
    pub file_size: u64,
    pub started_at: i64,
    pub ended_at: i64,
    pub state: BilibiliSegmentState,
    pub remote_filename: Option<String>,
    pub retry_count: u32,
    pub next_retry_at: i64,
    pub last_error: Option<String>,
    pub local_deleted: bool,
}

impl Clone for BilibiliSegmentTask {
    fn clone(&self) -> (r: Self)
        ensures
            r == *self,
    {
        BilibiliSegmentTask {
            live_session_id: self.live_session_id.clone(),
            segment_index: self.segment_index,
            local_path: self.local_path.clone(),
            file_size: self.file_size,
            started_at: self.started_at,
            ended_at: self.ended_at,
            state: self.state,
            remote_filename: self.remote_filename.clone(),
            retry_count: self.retry_count,
            next_retry_at: self.next_retry_at,
            last_error: self.last_error.clone(),
            local_deleted: self.local_deleted,
        }
    }
}

/// Model of a part in the queue.
pub struct PartModel {
    pub live_session_id: Seq<char>,
    pub segment_index: u32,
    pub local_path: Seq<char>,
    pub file_size: u64,
    pub started_at: i64,
    pub ended_at: i64,
    pub state: BilibiliSegmentState,
    pub remote_filename: Option<Seq<char>>,
    pub retry_count: u32,
    pub next_retry_at: i64,
    pub last_error: Option<Seq<char>>,
    pub local_deleted: bool,
}

impl View for BilibiliSegmentTask {
    type V = PartModel;

    open spec fn view(&self) -> PartModel {
        PartModel {
            live_session_id: self.live_session_id@,
            segment_index: self.segment_index,
            local_path: self.local_path@,
            file_size: self.file_size,
            started_at: self.started_at,
            ended_at: self.ended_at,
            state: self.state,
            remote_filename: opt_text(self.remote_filename),
            retry_count: self.retry_count,
            next_retry_at: self.next_retry_at,
            last_error: opt_text(self.last_error),
            local_deleted: self.local_deleted,
        }
    }
}

impl Ranked for BilibiliSegmentTask {
    open spec fn ranks_before(self, other: Self) -> bool {
        self.segment_index <= other.segment_index
    }

    fn not_after(&self, other: &Self) -> (r: bool) {
        self.segment_index <= other.segment_index
    }

    proof fn total(a: Self, b: Self) {
    }

    proof fn transitive(a: Self, b: Self, c: Self) {
    }
}

/// The parts of a list, by their models.
pub open spec fn part_models(v: Seq<BilibiliSegmentTask>) -> Seq<PartModel> {
    v.map_values(|t: BilibiliSegmentTask| t@)
}

/// One session with its parts. All parts go into one submission.
#[derive(Debug)]
pub struct BilibiliSessionTask {
    pub live_session_id: String,
    pub streamer_name: String,
    pub room_url: String,
    pub platform: String,
    pub session_started_at: i64,
    pub session_ended_at: Option<i64>,
    pub recording_complete: bool,
    pub aid: Option<u64>,
    pub bvid: Option<String>,
    pub submission_state: String,
    pub segments: Vec<BilibiliSegmentTask>,
}

fn clone_parts(parts: &Vec<BilibiliSegmentTask>) -> (r: Vec<BilibiliSegmentTask>)
    ensures
        r@ == parts@,
{
    let n: usize = parts.len();
    let mut out: Vec<BilibiliSegmentTask> = Vec::new();
    let mut i: usize = 0;
    while i < n
        invariant
            i <= n,
            n == parts.len(),
            out@ == parts@.take(i as int),
        decreases n - i,
    {
        out.push(parts[i].clone());
        i = i + 1;
        assert(parts@.take(i as int) =~= parts@.take(i - 1).push(parts@[i - 1]));
    }
    assert(parts@.take(n as int) =~= parts@);
    out
}

/// Model of a session in the queue.
pub struct SessionModel {
    pub live_session_id: Seq<char>,
    pub streamer_name: Seq<char>,
    pub room_url: Seq<char>,
    pub platform: Seq<char>,
    pub session_started_at: i64,
    pub session_ended_at: Option<i64>,
    pub recording_complete: bool,
    pub aid: Option<u64>,
    pub bvid: Option<Seq<char>>,
    pub submission_state: Seq<char>,
    pub segments: Seq<PartModel>,
}

impl View for BilibiliSessionTask {
    type V = SessionModel;

    open spec fn view(&self) -> SessionModel {
        SessionModel {
            live_session_id: self.live_session_id@,
            streamer_name: self.streamer_name@,
            room_url: self.room_url@,
            platform: self.platform@,
            session_started_at: self.session_started_at,
            session_ended_at: self.session_ended_at,
            recording_complete: self.recording_complete,
            aid: self.aid,
            bvid: opt_text(self.bvid),
            submission_state: self.submission_state@,
            segments: part_models(self.segments@),
        }
    }
}

impl Clone for BilibiliSessionTask {
    fn clone(&self) -> (r: Self)
        ensures
            r@ == self@,
            r.segments@ == self.segments@,
    {
        BilibiliSessionTask {
            live_session_id: self.live_session_id.clone(),
            streamer_name: self.streamer_name.clone(),
            room_url: self.room_url.clone(),
            platform: self.platform.clone(),
            session_started_at: self.session_started_at,
            session_ended_at: self.session_ended_at,
            recording_complete: self.recording_complete,
            aid: self.aid,
            bvid: self.bvid.clone(),
            submission_state: self.submission_state.clone(),
            segments: clone_parts(&self.segments),
        }
    }
}

/// The sessions of a list, by their models.
pub open spec fn queue_models(v: Seq<BilibiliSessionTask>) -> Seq<SessionModel> {
    v.map_values(|t: BilibiliSessionTask| t@)
}

/// What the user has chosen for uploads.
#[derive(Debug)]
pub struct BilibiliSettings {
    pub auto_upload: bool,
    pub delete_after_success: bool,
    pub account_label: Option<String>,
}

impl Default for BilibiliSettings {
    fn default() -> (r: Self)
        ensures
            !r.auto_upload,
            r.delete_after_success,
            r.account_label is None,
    {
        BilibiliSettings { auto_upload: false, delete_after_success: true, account_label: None }
    }
}

/// The upload queue as it is kept on disk.
#[derive(Debug)]
pub struct BilibiliStore {
    pub settings: BilibiliSettings,
    pub sessions: Vec<BilibiliSessionTask>,
}

impl Default for BilibiliStore {
    fn default() -> (r: Self)
        ensures
            !r.settings.auto_upload,
            r.settings.delete_after_success,
            r.settings.account_label is None,
            r.sessions@.len() == 0,
    {
        BilibiliStore { settings: BilibiliSettings::default(), sessions: Vec::new() }
    }
}

/// The predicate of being the session with an identifier.
pub open spec fn is_session(id: Seq<char>) -> spec_fn(SessionModel) -> bool {
    |s: SessionModel| s.live_session_id == id
}

/// The predicate of being the part with a number.
pub open spec fn is_part(index: u32) -> spec_fn(PartModel) -> bool {
    |p: PartModel| p.segment_index == index
}

pub(crate) fn find_queue_session(sessions: &Vec<BilibiliSessionTask>, id: &str) -> (r: usize)
    ensures
        r <= sessions.len(),
        r == first_index(queue_models(sessions@), is_session(id@)),
        r < sessions.len() ==> sessions@[r as int]@.live_session_id == id@,
{
    let n: usize = sessions.len();
    let ghost models = queue_models(sessions@);
    let mut i: usize = 0;
    while i < n
        invariant
            i <= n,
            n == sessions.len(),
            models == queue_models(sessions@),
            forall|j: int| 0 <= j < i ==> !is_session(id@)(#[trigger] models[j]),
        decreases n - i,
    {
        assert(models[i as int] == sessions@[i as int]@);
        if same(sessions[i].live_session_id.as_str(), id) {
            proof {
                lemma_first_index(models, is_session(id@), i as int);
            }
            return i;
        }
        i = i + 1;
    }
    proof {
        lemma_first_index(models, is_session(id@), n as int);
    }
    n
}

pub(crate) fn find_part(parts: &Vec<BilibiliSegmentTask>, index: u32) -> (r: usize)
    ensures
        r <= parts.len(),
        r == first_index(part_models(parts@), is_part(index)),
        r < parts.len() ==> parts@[r as int].segment_index == index,
{
    let n: usize = parts.len();
    let ghost models = part_models(parts@);
    let mut i: usize = 0;
    while i < n
        invariant
            i <= n,
            n == parts.len(),
            models == part_models(parts@),
            forall|j: int| 0 <= j < i ==> !is_part(index)(#[trigger] models[j]),
        decreases n - i,
    {
        assert(models[i as int] == parts@[i as int]@);
        if parts[i].segment_index == index {
            proof {
                lemma_first_index(models, is_part(index), i as int);
            }
            return i;
        }
        i = i + 1;
    }
    proof {
        lemma_first_index(models, is_part(index), n as int);
    }
    n
}

/// The session that the first part of a recording opens in the queue.
pub open spec fn opened_by(segment: RecordingSegment) -> SessionModel {
    SessionModel {
        live_session_id: segment.live_session_id@,
        streamer_name: segment.streamer_name@,
        room_url: segment.room_url@,
        platform: segment.platform@,
        session_started_at: segment.started_at,
        session_ended_at: None,
        recording_complete: false,
        aid: None,
        bvid: None,
        submission_state: "NOT_SUBMITTED"@,
        segments: Seq::empty(),
    }
}

/// The part that a finished file becomes in the queue.
pub open spec fn queued_part(segment: RecordingSegment, path: Seq<char>, size: u64) -> PartModel {
    PartModel {
        live_session_id: segment.live_session_id@,
        segment_index: segment.segment_index,
        local_path: path,
        file_size: size,
        started_at: segment.started_at,
        ended_at: segment.ended_at,
        state: BilibiliSegmentState::ReadyToUpload,
        remote_filename: None,
        retry_count: 0,
        next_retry_at: 0,
        last_error: None,
        local_deleted: false,
    }
}

/// `parts` with `part` added in order of the part numbers, behind those with the same number.
pub open spec fn with_part(parts: Seq<PartModel>, part: PartModel) -> Seq<PartModel>
    decreases parts.len(),
{
    if parts.len() == 0 || parts.last().segment_index <= part.segment_index {
        parts.push(part)
    } else {
        with_part(parts.drop_last(), part).push(parts.last())
    }
}

/// `parts` in order of their numbers; equal numbers keep their order.
pub open spec fn parts_ordered(parts: Seq<PartModel>) -> Seq<PartModel>
    decreases parts.len(),
{
    if parts.len() == 0 {
        parts
    } else {
        with_part(parts_ordered(parts.drop_last()), parts.last())
    }
}

proof fn lemma_inserted_models(s: Seq<BilibiliSegmentTask>, x: BilibiliSegmentTask)
    ensures
        part_models(crate::lists::inserted(s, x)) == with_part(part_models(s), x@),
    decreases s.len(),
{
    if s.len() == 0 || s.last().ranks_before(x) {
        assert(part_models(s.push(x)) =~= part_models(s).push(x@));
    } else {
        lemma_inserted_models(s.drop_last(), x);
        assert(part_models(s.drop_last()) =~= part_models(s).drop_last());
        assert(part_models(crate::lists::inserted(s.drop_last(), x).push(s.last()))
            =~= part_models(crate::lists::inserted(s.drop_last(), x)).push(s.last()@));
    }
}

proof fn lemma_ordered_models(s: Seq<BilibiliSegmentTask>)
    ensures
        part_models(ordered(s)) == parts_ordered(part_models(s)),
    decreases s.len(),
{
    if s.len() == 0 {
        assert(part_models(s) =~= Seq::empty());
    } else {
        lemma_ordered_models(s.drop_last());
        lemma_inserted_models(ordered(s.drop_last()), s.last());
        assert(part_models(s.drop_last()) =~= part_models(s).drop_last());
    }
}

/// A session once a finished part is queued: the part joins in order, unless a part with its
/// number is there.
pub open spec fn session_with_part(
    session: SessionModel,
    segment: RecordingSegment,
    path: Seq<char>,
    size: u64,
) -> SessionModel {
    if first_index(session.segments, is_part(segment.segment_index)) < session.segments.len() {
        session
    } else {
        SessionModel {
            segments: parts_ordered(
                session.segments.push(queued_part(segment, path, size)),
            ),
            ..session
        }
    }
}

/// The sessions of the queue once a finished part is queued.
pub open spec fn queue_with_part(
    sessions: Seq<SessionModel>,
    segment: RecordingSegment,
    path: Seq<char>,
    size: u64,
) -> Seq<SessionModel> {
    let k = first_index(sessions, is_session(segment.live_session_id@));
    if k < sessions.len() {
        sessions.update(k, session_with_part(sessions[k], segment, path, size))
    } else {
        sessions.push(session_with_part(opened_by(segment), segment, path, size))
    }
}

fn add_part(
    session: &mut BilibiliSessionTask,
    segment: &RecordingSegment,
    final_mp4_path: &str,
    size: u64,
)
    ensures
        final(session)@ == session_with_part(old(session)@, *segment, final_mp4_path@, size),
{
    let position: usize = find_part(&session.segments, segment.segment_index);
    if position < session.segments.len() {
        return;
    }
    let ghost before = part_models(session.segments@);
    let mut parts: Vec<BilibiliSegmentTask> = Vec::new();
    std::mem::swap(&mut parts, &mut session.segments);
    let part = BilibiliSegmentTask {
        live_session_id: segment.live_session_id.clone(),
        segment_index: segment.segment_index,
        local_path: final_mp4_path.to_owned(),
        file_size: size,
        started_at: segment.started_at,
        ended_at: segment.ended_at,
        state: BilibiliSegmentState::ReadyToUpload,
        remote_filename: None,
        retry_count: 0,
        next_retry_at: 0,
        last_error: None,
        local_deleted: false,
    };
    let ghost model = part@;
    parts.push(part);
    proof {
        assert(part_models(parts@) =~= before.push(model));
        lemma_ordered_models(parts@);
    }
    session.segments = stable_sort(parts);
}

/// Queues a finished part. The session is opened with its first part; a part is queued once. A
/// file that cannot be read, is no regular file or is empty is refused.
pub fn enqueue_finalized_segment(
    store: &mut BilibiliStore,
    segment: &RecordingSegment,
    final_mp4_path: &str,
    facts: &Result<FileFacts, String>,
) -> (r: Result<(), String>)
    ensures
        final(store).settings == old(store).settings,
        match *facts {
            Err(error) => r matches Err(m) && m@ == "读取 B站待上传 MP4 失败: "@ + error@
                && final(store).sessions == old(store).sessions,
            Ok(f) => if f.is_file && f.len > 0 {
                &&& r is Ok
                &&& queue_models(final(store).sessions@) == queue_with_part(
                    queue_models(old(store).sessions@),
                    *segment,
                    final_mp4_path@,
                    f.len,
                )
            } else {
                r matches Err(m) && m@ == "B站待上传 MP4 为空，拒绝入队。"@ && final(store).sessions
                    == old(store).sessions
            },
        },
{
    let size: u64 = match facts {
        Err(error) => {
            return Err(concat("读取 B站待上传 MP4 失败: ", error.as_str()));
        },
        Ok(f) => {
            if !f.is_file || f.len == 0 {
                return Err("B站待上传 MP4 为空，拒绝入队。".to_owned());
            }
            f.len
        },
    };
    let ghost before = queue_models(store.sessions@);
    let k: usize = find_queue_session(&store.sessions, segment.live_session_id.as_str());
    if k < store.sessions.len() {
        add_part(&mut store.sessions[k], segment, final_mp4_path, size);
        assert(queue_models(store.sessions@) =~= before.update(
            k as int,
            session_with_part(before[k as int], *segment, final_mp4_path@, size),
        ));
    } else {
        let mut session = BilibiliSessionTask {
            live_session_id: segment.live_session_id.clone(),
            streamer_name: segment.streamer_name.clone(),
            room_url: segment.room_url.clone(),
            platform: segment.platform.clone(),
            session_started_at: segment.started_at,
            session_ended_at: None,
            recording_complete: false,
            aid: None,
            bvid: None,
            submission_state: "NOT_SUBMITTED".to_owned(),
            segments: Vec::new(),
        };
        assert(part_models(session.segments@) =~= Seq::empty());
        add_part(&mut session, segment, final_mp4_path, size);
        store.sessions.push(session);
        assert(queue_models(store.sessions@) =~= before.push(
            session_with_part(opened_by(*segment), *segment, final_mp4_path@, size),
        ));
    }
    Ok(())
}

/// A session whose recording is over.
pub open spec fn recording_over(session: SessionModel, ended_at: i64) -> SessionModel {
    SessionModel { recording_complete: true, session_ended_at: Some(ended_at), ..session }
}

/// Notes that no more parts of a session will come.
pub fn mark_session_recording_complete(
    store: &mut BilibiliStore,
    live_session_id: &str,
    ended_at: i64,
)
    ensures
        final(store).settings == old(store).settings,
        ({
            let sessions = queue_models(old(store).sessions@);
            let k = first_index(sessions, is_session(live_session_id@));
            queue_models(final(store).sessions@) == if k < sessions.len() {
                sessions.update(k, recording_over(sessions[k], ended_at))
            } else {
                sessions
            }
        }),
{
    let ghost before = queue_models(store.sessions@);
    let k: usize = find_queue_session(&store.sessions, live_session_id);
    if k < store.sessions.len() {
        store.sessions[k].recording_complete = true;
        store.sessions[k].session_ended_at = Some(ended_at);
        assert(queue_models(store.sessions@) =~= before.update(
            k as int,
            SessionModel {
                recording_complete: true,
                session_ended_at: Some(ended_at),
                ..before[k as int]
            },
        ));
    }
}

/// Switches uploads, and the deletion of what was uploaded, on or off.
pub fn set_settings(store: &mut BilibiliStore, auto_upload: bool, delete_after_success: bool)
    ensures
        final(store).sessions == old(store).sessions,
        final(store).settings == (BilibiliSettings {
            auto_upload,
            delete_after_success,
            ..old(store).settings
        }),
{
    store.settings.auto_upload = auto_upload;
    store.settings.delete_after_success = delete_after_success;
}

proof fn lemma_with_part(parts: Seq<PartModel>, part: PartModel)
    ensures
        with_part(parts, part).len() == parts.len() + 1,
        forall|p: PartModel| #[trigger]
            with_part(parts, part).contains(p) <==> parts.contains(p) || p == part,
        parts_sorted(parts) ==> parts_sorted(with_part(parts, part)),
    decreases parts.len(),
{
    let after = with_part(parts, part);
    if parts.len() == 0 || parts.last().segment_index <= part.segment_index {
        assert forall|p: PartModel| #[trigger]
            after.contains(p) <==> parts.contains(p) || p == part by {
            if parts.contains(p) {
                assert(after[parts.index_of(p)] == p);
            }
            if p == part {
                assert(after[parts.len() as int] == p);
            }
        }
    } else {
        let rest = with_part(parts.drop_last(), part);
        lemma_with_part(parts.drop_last(), part);
        assert forall|p: PartModel| #[trigger]
            after.contains(p) <==> parts.contains(p) || p == part by {
            if after.contains(p) {
                let i = after.index_of(p);
                if i < rest.len() {
                    assert(rest[i] == p);
                    assert(rest.contains(p));
                    if p != part {
                        let k = parts.drop_last().index_of(p);
                        assert(parts[k] == p);
                    }
                } else {
                    assert(parts[parts.len() - 1] == p);
                }
            }
            if parts.contains(p) {
                let k = parts.index_of(p);
                if k < parts.len() - 1 {
                    assert(parts.drop_last()[k] == p);
                    assert(rest.contains(p));
                    assert(after[rest.index_of(p)] == p);
                } else {
                    assert(after[rest.len() as int] == p);
                }
            }
            if p == part {
                assert(rest.contains(part));
                assert(after[rest.index_of(part)] == part);
            }
        }
        if parts_sorted(parts) {
            assert(parts_sorted(parts.drop_last())) by {
                assert forall|i: int, j: int|
                    0 <= i < j < parts.drop_last().len() implies (
                #[trigger] parts.drop_last()[i]).segment_index <= (
                #[trigger] parts.drop_last()[j]).segment_index by {
                    assert(parts[i].segment_index <= parts[j].segment_index);
                }
            }
            assert forall|i: int, j: int| 0 <= i < j < after.len() implies (
            #[trigger] after[i]).segment_index <= (#[trigger] after[j]).segment_index by {
                if j < rest.len() {
                    assert(rest[i].segment_index <= rest[j].segment_index);
                } else {
                    assert(rest.contains(rest[i]));
                    if rest[i] != part {
                        let k = parts.drop_last().index_of(rest[i]);
                        assert(parts[k].segment_index <= parts[parts.len() - 1].segment_index);
                    }
                }
            }
        }
    }
}

/// The parts stand in the order of their numbers.
pub open spec fn parts_sorted(parts: Seq<PartModel>) -> bool {
    forall|i: int, j: int|
        0 <= i < j < parts.len() ==> (#[trigger] parts[i]).segment_index <= (
        #[trigger] parts[j]).segment_index
}

/// Ordering parts by their numbers loses none and adds none.
pub proof fn law_ordering_keeps_parts(parts: Seq<PartModel>)
    ensures
        parts_sorted(parts_ordered(parts)),
        parts_ordered(parts).len() == parts.len(),
        forall|p: PartModel| #[trigger] parts_ordered(parts).contains(p) <==> parts.contains(p),
    decreases parts.len(),
{
    if parts.len() > 0 {
        let rest = parts.drop_last();
        law_ordering_keeps_parts(rest);
        lemma_with_part(parts_ordered(rest), parts.last());
        assert forall|p: PartModel| #[trigger]
            parts_ordered(parts).contains(p) <==> parts.contains(p) by {
            if parts.contains(p) {
                let k = parts.index_of(p);
                if k < rest.len() {
                    assert(rest[k] == p);
                    assert(rest.contains(p));
                }
            }
            if rest.contains(p) {
                assert(parts[rest.index_of(p)] == p);
            }
            assert(parts[parts.len() - 1] == parts.last());
        }
    }
}

/// A finished recording gets into the queue: there is a session with its identifier then, and in it
/// a part with its number. Where the part is new, it is the recording itself that waits there, with
/// the file and the size it was given, ready to be uploaded.
pub proof fn law_finished_recording_is_queued(
    sessions: Seq<SessionModel>,
    segment: RecordingSegment,
    path: Seq<char>,
    size: u64,
)
    ensures
        ({
            let after = queue_with_part(sessions, segment, path, size);
            exists|k: int, j: int|
                #![trigger after[k].segments[j]]
                {
                    &&& 0 <= k < after.len() && 0 <= j < after[k].segments.len()
                    &&& after[k].live_session_id == segment.live_session_id@
                    &&& after[k].segments[j].segment_index == segment.segment_index
                    &&& (forall|m: int, i: int|
                        #![trigger sessions[m].segments[i]]
                        0 <= m < sessions.len() && 0 <= i < sessions[m].segments.len()
                            && sessions[m].live_session_id == segment.live_session_id@
                            ==> sessions[m].segments[i].segment_index != segment.segment_index)
                        ==> {
                        let part = after[k].segments[j];
                        &&& part.local_path == path
                        &&& part.file_size == size
                        &&& part.started_at == segment.started_at
                        &&& part.ended_at == segment.ended_at
                        &&& part.live_session_id == segment.live_session_id@
                        &&& part.state == BilibiliSegmentState::ReadyToUpload
                        &&& part.remote_filename is None
                        &&& !part.local_deleted
                    }
                }
        }),
{
    let id = segment.live_session_id@;
    let k = first_index(sessions, is_session(id));
    lemma_first_index_found(sessions, is_session(id));
    let after = queue_with_part(sessions, segment, path, size);
    let before = if k < sessions.len() {
        sessions[k]
    } else {
        opened_by(segment)
    };
    let i = first_index(before.segments, is_part(segment.segment_index));
    lemma_first_index_found(before.segments, is_part(segment.segment_index));
    if i < before.segments.len() {
        assert(after[k].segments[i] == before.segments[i]);
        assert(sessions[k].segments[i].segment_index == segment.segment_index);
    } else {
        let part = queued_part(segment, path, size);
        let all = before.segments.push(part);
        law_ordering_keeps_parts(all);
        assert(all[before.segments.len() as int] == part);
        assert(all.contains(part));
        assert(parts_ordered(all).contains(part));
        let j = parts_ordered(all).index_of(part);
        assert(after[k].segments[j] == part);
    }
}

/// A session that a recording opens in the queue is the session of that recording.
pub proof fn law_new_session_is_the_recorded_one(
    sessions: Seq<SessionModel>,
    segment: RecordingSegment,
    path: Seq<char>,
    size: u64,
)
    requires
        forall|m: int|
            0 <= m < sessions.len() ==> (#[trigger] sessions[m]).live_session_id
                != segment.live_session_id@,
    ensures
        ({
            let after = queue_with_part(sessions, segment, path, size);
            let opened = after[sessions.len() as int];
            &&& after.len() == sessions.len() + 1
            &&& after.take(sessions.len() as int) == sessions
            &&& opened.live_session_id == segment.live_session_id@
            &&& opened.streamer_name == segment.streamer_name@
            &&& opened.room_url == segment.room_url@
            &&& opened.platform == segment.platform@
            &&& opened.session_started_at == segment.started_at
            &&& opened.session_ended_at is None
            &&& !opened.recording_complete
            &&& opened.aid is None && opened.bvid is None
            &&& opened.segments.len() == 1
        }),
{
    lemma_first_index(sessions, is_session(segment.live_session_id@), sessions.len() as int);
    let parts = opened_by(segment).segments;
    lemma_first_index(parts, is_part(segment.segment_index), 0);
    law_ordering_keeps_parts(parts.push(queued_part(segment, path, size)));
    assert(queue_with_part(sessions, segment, path, size).take(sessions.len() as int)
        =~= sessions);
}

/// Queueing a recording leaves every other session alone, and of its own session what was there.
pub proof fn law_queueing_disturbs_nothing(
    sessions: Seq<SessionModel>,
    segment: RecordingSegment,
    path: Seq<char>,
    size: u64,
    m: int,
    i: int,
)
    requires
        0 <= m < sessions.len(),
        0 <= i < sessions[m].segments.len(),
    ensures
        ({
            let after = queue_with_part(sessions, segment, path, size);
            &&& after.len() >= sessions.len()
            &&& sessions[m].live_session_id != segment.live_session_id@ ==> after[m] == sessions[m]
            &&& after[m] == (SessionModel { segments: after[m].segments, ..sessions[m] })
            &&& after[m].segments.contains(sessions[m].segments[i])
        }),
{
    let k = first_index(sessions, is_session(segment.live_session_id@));
    lemma_first_index_found(sessions, is_session(segment.live_session_id@));
    let part = sessions[m].segments[i];
    let all = sessions[m].segments.push(queued_part(segment, path, size));
    law_ordering_keeps_parts(all);
    assert(all[i] == part);
    assert(all.contains(part));
    assert(sessions[m].segments.contains(part));
}

/// A recording that is queued again is not queued twice.
pub proof fn law_queueing_twice(
    sessions: Seq<SessionModel>,
    segment: RecordingSegment,
    path: Seq<char>,
    size: u64,
    other_path: Seq<char>,
    other_size: u64,
)
    ensures
        queue_with_part(
            queue_with_part(sessions, segment, path, size),
            segment,
            other_path,
            other_size,
        ) == queue_with_part(sessions, segment, path, size),
{
    let id = segment.live_session_id@;
    let index = segment.segment_index;
    let k = first_index(sessions, is_session(id));
    lemma_first_index_found(sessions, is_session(id));
    let after = queue_with_part(sessions, segment, path, size);
    assert forall|i: int| 0 <= i < k implies !is_session(id)(#[trigger] after[i]) by {
        assert(after[i] == sessions[i]);
    }
    lemma_first_index(after, is_session(id), k);
    let before = if k < sessions.len() {
        sessions[k]
    } else {
        opened_by(segment)
    };
    lemma_first_index_found(before.segments, is_part(index));
    if first_index(before.segments, is_part(index)) == before.segments.len() {
        let part = queued_part(segment, path, size);
        let all = before.segments.push(part);
        law_ordering_keeps_parts(all);
        assert(all[before.segments.len() as int] == part);
        assert(all.contains(part));
        assert(parts_ordered(all).contains(part));
        let j = parts_ordered(all).index_of(part);
        lemma_first_index_found(parts_ordered(all), is_part(index));
        assert(is_part(index)(parts_ordered(all)[j]));
    }
    assert(queue_with_part(after, segment, other_path, other_size) =~= after);
}

/// A session whose recording is over is noted as such, with its end, and keeps everything else.
pub proof fn law_recording_over(session: SessionModel, ended_at: i64)
    ensures
        recording_over(session, ended_at).recording_complete,
        recording_over(session, ended_at).session_ended_at == Some(ended_at),
        recording_over(session, ended_at) == (SessionModel {
            recording_complete: true,
            session_ended_at: Some(ended_at),
            ..session
        }),
        recording_over(session, ended_at).segments == session.segments,
        recording_over(session, ended_at).aid == session.aid,
{
}

} // verus!
