//! The state that the recorder keeps: its settings, the streamers, the sessions, their parts, and
//! the queue of uploads.

use crate::clock::{
    clamp_i64, format_id, id_text, now_millis, now_seconds, saturating_gap, IdCounter,
    MAX_TIMESTAMP,
};
use crate::paths::{with_extension, with_extension_of};
use crate::text::{concat, opt_text, same};
use vstd::prelude::*;

verus! {

/// Settings of the recorder.
#[derive(Clone, Copy, Debug, PartialEq, Eq, Structural)]
pub struct CoreSettings {
    pub monitor_interval_secs: u64,
    pub segment_minutes: u64,
    /// Longest interruption within a session.
    pub same_session_gap_secs: i64,
    pub warn_free_bytes: u64,
    pub stop_new_recording_free_bytes: u64,
    pub auto_upload: bool,
}

impl Default for CoreSettings {
    fn default() -> (r: Self)
        ensures
            r == (CoreSettings {
                monitor_interval_secs: 30,
                segment_minutes: 60,
                same_session_gap_secs: 600,
                warn_free_bytes: 32_212_254_720,
                stop_new_recording_free_bytes: 10_737_418_240,
                auto_upload: false,
            }),
    {
        CoreSettings {
            monitor_interval_secs: 30,
            segment_minutes: 60,
            same_session_gap_secs: 600,
            warn_free_bytes: 32_212_254_720,
            stop_new_recording_free_bytes: 10_737_418_240,
            auto_upload: false,
        }
    }
}

/// A streamer.
#[derive(Debug)]
pub struct StreamerConfig {
    pub id: String,
    pub name: String,
    pub url: String,
    pub enabled: bool,
    pub bilibili_cookie: Option<String>,
    pub douyin_cookie: Option<String>,
    pub last_error: Option<String>,
    pub last_probe_at: Option<i64>,
    pub currently_live: bool,
}

/// A live session.
#[derive(Debug)]
pub struct ReplaySession {
    pub id: String,
    pub streamer_id: String,
    pub streamer_name: String,
    pub platform: String,
    pub started_at: i64,
    pub last_live_at: i64,
    pub ended_at: Option<i64>,
    pub next_part_index: u32,
    pub bilibili_bvid: Option<String>,
    pub bilibili_aid: Option<u64>,
}

/// The state of a part.
#[derive(Clone, Copy, Debug, PartialEq, Eq, Structural)]
pub enum SegmentState {
    Recording,
    Ready,
    Uploading,
    Uploaded,
    Failed,
}

/// A part of a session.
#[derive(Debug)]
pub struct SegmentRecord {
    pub id: String,
    pub session_id: String,
    pub streamer_id: String,
    pub part_index: u32,
    pub file_path: String,
    pub bytes: u64,
    pub started_at: i64,
    pub ended_at: Option<i64>,
    pub state: SegmentState,
    /// The service has confirmed that it has the part.
    pub remote_confirmed: bool,
    pub remote_part_id: Option<String>,
}

/// The state of an upload.
#[derive(Clone, Copy, Debug, PartialEq, Eq, Structural)]
pub enum UploadState {
    Pending,
    Uploading,
    RetryWait,
    Uploaded,
}

/// An upload.
#[derive(Debug)]
pub struct UploadJob {
    pub id: String,
    pub segment_id: String,
    pub session_id: String,
    pub file_path: String,
    pub part_index: u32,
    pub state: UploadState,
    pub attempts: u32,
    pub next_retry_at: i64,
    pub last_error: Option<String>,
    pub created_at: i64,
}

/// What an upload is.
#[verifier::ext_equal]
pub struct JobModel {
    pub id: Seq<char>,
    pub segment_id: Seq<char>,
    pub session_id: Seq<char>,
    pub file_path: Seq<char>,
    pub part_index: u32,
    pub state: UploadState,
    pub attempts: u32,
    pub next_retry_at: i64,
    pub last_error: Option<Seq<char>>,
    pub created_at: i64,
}

impl View for UploadJob {
    type V = JobModel;

    open spec fn view(&self) -> JobModel {
        JobModel {
            id: self.id@,
            segment_id: self.segment_id@,
            session_id: self.session_id@,
            file_path: self.file_path@,
            part_index: self.part_index,
            state: self.state,
            attempts: self.attempts,
            next_retry_at: self.next_retry_at,
            last_error: opt_text(self.last_error),
            created_at: self.created_at,
        }
    }
}

/// What uploads are.
pub open spec fn job_models(jobs: Seq<UploadJob>) -> Seq<JobModel> {
    jobs.map_values(|j: UploadJob| j@)
}

/// How recordings are submitted.
#[derive(Debug)]
pub struct BilibiliUploadConfig {
    pub enabled: bool,
    pub login_info_json: Option<String>,
    pub visibility_public: bool,
    pub tid: u16,
    pub tag: String,
    pub description_template: String,
}

/// The category of submissions where none is configured.
pub fn default_bilibili_tid() -> (r: u16)
    ensures
        r == 65,
{
    65
}

impl Default for BilibiliUploadConfig {
    fn default() -> (r: Self)
        ensures
            !r.enabled,
            r.login_info_json is None,
            r.visibility_public,
            r.tid == 65,
            r.tag@ == "直播回放"@,
            r.description_template@ == "{streamer} 直播回放\n直播时间：{time}"@,
    {
        BilibiliUploadConfig {
            enabled: false,
            login_info_json: None,
            visibility_public: true,
            tid: default_bilibili_tid(),
            tag: "直播回放".to_owned(),
            description_template: "{streamer} 直播回放\n直播时间：{time}".to_owned(),
        }
    }
}

/// The state that the recorder keeps.
#[derive(Debug)]
pub struct PersistentState {
    pub settings: CoreSettings,
    pub bilibili: BilibiliUploadConfig,
    pub streamers: Vec<StreamerConfig>,
    pub sessions: Vec<ReplaySession>,
    pub segments: Vec<SegmentRecord>,
    pub upload_queue: Vec<UploadJob>,
}

impl Default for PersistentState {
    fn default() -> (r: Self)
        ensures
            r.streamers@.len() == 0,
            r.sessions@.len() == 0,
            r.segments@.len() == 0,
            r.upload_queue@.len() == 0,
            !r.settings.auto_upload,
            !r.bilibili.enabled,
    {
        PersistentState {
            settings: CoreSettings::default(),
            bilibili: BilibiliUploadConfig::default(),
            streamers: Vec::new(),
            sessions: Vec::new(),
            segments: Vec::new(),
            upload_queue: Vec::new(),
        }
    }
}

/// Some upload of a part is not done.
pub open spec fn has_open_job(jobs: Seq<JobModel>, segment_id: Seq<char>) -> bool {
    exists|i: int|
        0 <= i < jobs.len() && (#[trigger] jobs[i]).segment_id == segment_id && jobs[i].state
            != UploadState::Uploaded
}

/// The upload of a part that is queued at `now`.
pub open spec fn queued_job(segment: SegmentRecord, id: Seq<char>, now: i64) -> JobModel {
    JobModel {
        id,
        segment_id: segment.id@,
        session_id: segment.session_id@,
        file_path: segment.file_path@,
        part_index: segment.part_index,
        state: UploadState::Pending,
        attempts: 0,
        next_retry_at: now,
        last_error: None,
        created_at: now,
    }
}

/// A part is uploaded only once: not while an upload of it is open, nor when the service has it.
pub open spec fn wants_job(jobs: Seq<JobModel>, segment: SegmentRecord) -> bool {
    !segment.remote_confirmed && !has_open_job(jobs, segment.id@)
}

/// The queue after a part has been queued, if it has to be.
pub open spec fn with_job(
    jobs: Seq<JobModel>,
    segment: SegmentRecord,
    id: Seq<char>,
    now: i64,
) -> Seq<JobModel> {
    if wants_job(jobs, segment) {
        jobs.push(queued_job(segment, id, now))
    } else {
        jobs
    }
}

/// The identifier of an upload.
pub open spec fn upload_id(millis: int, number: nat) -> Seq<char> {
    id_text("upload"@, millis, number)
}

/// The number behind `n` of a counter that wraps around.
pub open spec fn next_number(n: nat) -> nat {
    (n + 1) % 0x1_0000_0000_0000_0000
}

fn open_job(jobs: &Vec<UploadJob>, segment_id: &str) -> (r: bool)
    ensures
        r == has_open_job(job_models(jobs@), segment_id@),
{
    let ghost models = job_models(jobs@);
    let mut i: usize = 0;
    while i < jobs.len()
        invariant
            i <= jobs.len(),
            models == job_models(jobs@),
            forall|k: int|
                0 <= k < i ==> !((#[trigger] models[k]).segment_id == segment_id@ && models[k].state
                    != UploadState::Uploaded),
        decreases jobs.len() - i,
    {
        assert(models[i as int] == jobs@[i as int]@);
        if same(jobs[i].segment_id.as_str(), segment_id) && jobs[i].state != UploadState::Uploaded {
            return true;
        }
        i = i + 1;
    }
    false
}

fn new_job(segment: &SegmentRecord, id: String, now: i64) -> (r: UploadJob)
    ensures
        r@ == queued_job(*segment, id@, now),
{
    UploadJob {
        id,
        segment_id: segment.id.clone(),
        session_id: segment.session_id.clone(),
        file_path: segment.file_path.clone(),
        part_index: segment.part_index,
        state: UploadState::Pending,
        attempts: 0,
        next_retry_at: now,
        last_error: None,
        created_at: now,
    }
}

/// Queues the upload of a part at `now`, if it has to be.
fn queue_job_at(
    queue: &mut Vec<UploadJob>,
    segment: &SegmentRecord,
    counter: &mut IdCounter,
    millis: i64,
    now: i64,
)
    ensures
        job_models(final(queue)@) == with_job(
            job_models(old(queue)@),
            *segment,
            upload_id(millis as int, old(counter).next as nat),
            now,
        ),
        final(counter).next == number_after(
            job_models(old(queue)@),
            *segment,
            old(counter).next as nat,
        ),
{
    if segment.remote_confirmed || open_job(queue, segment.id.as_str()) {
        return;
    }
    let number: u64 = counter.take();
    let id = format_id("upload", millis, number);
    let ghost before = job_models(queue@);
    queue.push(new_job(segment, id, now));
    assert(job_models(queue@) =~= before.push(
        queued_job(*segment, upload_id(millis as int, old(counter).next as nat), now),
    ));
}

/// A part after a restart: one that was being recorded is broken off, and one that was being
/// uploaded is ready again, unless the service has it.
pub open spec fn restarted_segment(segment: SegmentRecord) -> SegmentRecord {
    SegmentRecord {
        state: if segment.state == SegmentState::Recording {
            SegmentState::Failed
        } else if segment.state == SegmentState::Uploading && !segment.remote_confirmed {
            SegmentState::Ready
        } else {
            segment.state
        },
        ..segment
    }
}

/// The parts after a restart.
pub open spec fn restarted_segments(segments: Seq<SegmentRecord>) -> Seq<SegmentRecord> {
    segments.map_values(|s: SegmentRecord| restarted_segment(s))
}

/// An upload after a restart at `now`: one that was running waits again.
pub open spec fn restarted_job(job: JobModel, now: i64) -> JobModel {
    if job.state == UploadState::Uploading {
        JobModel { state: UploadState::Pending, next_retry_at: now, ..job }
    } else {
        job
    }
}

/// The uploads that are not done, after a restart at `now`.
pub open spec fn restarted_jobs(jobs: Seq<JobModel>, now: i64) -> Seq<JobModel>
    decreases jobs.len(),
{
    if jobs.len() == 0 {
        Seq::empty()
    } else {
        let rest = restarted_jobs(jobs.drop_last(), now);
        if jobs.last().state == UploadState::Uploaded {
            rest
        } else {
            rest.push(restarted_job(jobs.last(), now))
        }
    }
}

/// The queue, with an upload for every part that is ready and has none; and the number of the next
/// identifier.
pub open spec fn refilled(
    segments: Seq<SegmentRecord>,
    jobs: Seq<JobModel>,
    millis: int,
    number: nat,
    now: i64,
) -> (Seq<JobModel>, nat)
    decreases segments.len(),
{
    if segments.len() == 0 {
        (jobs, number)
    } else {
        let (queue, next) = refilled(segments.drop_last(), jobs, millis, number, now);
        let segment = segments.last();
        if segment.state == SegmentState::Ready && wants_job(queue, segment) {
            (queue.push(queued_job(segment, upload_id(millis, next), now)), next_number(next))
        } else {
            (queue, next)
        }
    }
}

/// The queue after a restart at `now`.
pub open spec fn restarted_queue(
    segments: Seq<SegmentRecord>,
    jobs: Seq<JobModel>,
    millis: int,
    number: nat,
    now: i64,
) -> Seq<JobModel> {
    refilled(restarted_segments(segments), restarted_jobs(jobs, now), millis, number, now).0
}

/// The number of the next identifier after a restart at `now`.
pub open spec fn restarted_number(
    segments: Seq<SegmentRecord>,
    jobs: Seq<JobModel>,
    millis: int,
    number: nat,
    now: i64,
) -> nat {
    refilled(restarted_segments(segments), restarted_jobs(jobs, now), millis, number, now).1
}

/// The number of the next identifier once the upload of a part was queued, if it had to be.
pub open spec fn number_after(jobs: Seq<JobModel>, segment: SegmentRecord, number: nat) -> nat {
    if wants_job(jobs, segment) {
        next_number(number)
    } else {
        number
    }
}

fn restart_queue(queue: &mut Vec<UploadJob>, now: i64)
    ensures
        job_models(final(queue)@) == restarted_jobs(job_models(old(queue)@), now),
{
    let ghost all = job_models(queue@);
    let ghost mut read: int = 0;
    let mut i: usize = 0;
    assert(all.take(0) =~= Seq::empty());
    assert(job_models(queue@) =~= restarted_jobs(all.take(0), now) + all.skip(0));
    while i < queue.len()
        invariant
            i <= queue.len(),
            0 <= read <= all.len(),
            restarted_jobs(all.take(read), now).len() == i,
            job_models(queue@) == restarted_jobs(all.take(read), now) + all.skip(read),
        decreases queue.len() - i,
    {
        let ghost done = restarted_jobs(all.take(read), now);
        let ghost before = queue@;
        proof {
            assert(job_models(before).len() == done.len() + (all.len() - read));
            assert(all.take(read + 1).drop_last() =~= all.take(read));
            assert(all.take(read + 1).last() == all[read]);
            assert(job_models(before)[i as int] == all[read]);
            assert(before[i as int]@ == all[read]);
            assert forall|k: int| 0 <= k < i implies (#[trigger] before[k])@ == done[k] by {
                assert(job_models(before)[k] == done[k]);
            }
            assert forall|k: int| i <= k < before.len() implies (#[trigger] before[k])@ == all[read
                + k - i] by {
                assert(job_models(before)[k] == all.skip(read)[k - i]);
            }
        }
        if queue[i].state == UploadState::Uploaded {
            queue.remove(i);
        } else {
            if queue[i].state == UploadState::Uploading {
                queue[i].state = UploadState::Pending;
                queue[i].next_retry_at = now;
            }
            i = i + 1;
        }
        assert(job_models(queue@) =~= restarted_jobs(all.take(read + 1), now) + all.skip(read + 1));
        proof {
            read = read + 1;
        }
    }
    proof {
        assert(all.take(read) =~= all);
        assert(job_models(queue@) =~= restarted_jobs(all, now));
    }
}

/// The parts of the state that a restart leaves alone.
pub open spec fn same_apart_from_parts(a: PersistentState, b: PersistentState) -> bool {
    a.settings == b.settings && a.bilibili == b.bilibili && a.streamers == b.streamers
        && a.sessions == b.sessions
}

impl PersistentState {
    /// Brings the state in order after a restart at `now`. `millis` is the time in the identifiers
    /// of uploads that are queued.
    pub fn normalize_after_restart_at(&mut self, counter: &mut IdCounter, millis: i64, now: i64)
        ensures
            same_apart_from_parts(*final(self), *old(self)),
            final(self).segments@ == restarted_segments(old(self).segments@),
            job_models(final(self).upload_queue@) == restarted_queue(
                old(self).segments@,
                job_models(old(self).upload_queue@),
                millis as int,
                old(counter).next as nat,
                now,
            ),
            final(counter).next == restarted_number(
                old(self).segments@,
                job_models(old(self).upload_queue@),
                millis as int,
                old(counter).next as nat,
                now,
            ),
    {
        let ghost before = self.segments@;
        let ghost segments = restarted_segments(before);
        let mut i: usize = 0;
        while i < self.segments.len()
            invariant
                i <= before.len(),
                self.segments@.len() == before.len(),
                same_apart_from_parts(*self, *old(self)),
                self.upload_queue == old(self).upload_queue,
                forall|k: int|
                    0 <= k < i ==> (#[trigger] self.segments@[k]) == restarted_segment(before[k]),
                forall|k: int|
                    i <= k < before.len() ==> (#[trigger] self.segments@[k]) == before[k],
            decreases before.len() - i,
        {
            let segment = &mut self.segments[i];
            if segment.state == SegmentState::Recording {
                segment.state = SegmentState::Failed;
            } else if segment.state == SegmentState::Uploading && !segment.remote_confirmed {
                segment.state = SegmentState::Ready;
            }
            i = i + 1;
        }
        assert(self.segments@ =~= segments);
        restart_queue(&mut self.upload_queue, now);
        let ghost jobs = job_models(self.upload_queue@);
        let ghost start = counter.next;
        let mut j: usize = 0;
        assert(segments.take(0) =~= Seq::empty());
        while j < self.segments.len()
            invariant
                j <= self.segments.len(),
                self.segments@ == segments,
                same_apart_from_parts(*self, *old(self)),
                (job_models(self.upload_queue@), counter.next as nat) == refilled(
                    segments.take(j as int),
                    jobs,
                    millis as int,
                    start as nat,
                    now,
                ),
            decreases self.segments.len() - j,
        {
            proof {
                assert(segments.take(j + 1).drop_last() =~= segments.take(j as int));
                assert(segments.take(j + 1).last() == segments[j as int]);
            }
            if self.segments[j].state == SegmentState::Ready {
                queue_job_at(&mut self.upload_queue, &self.segments[j], counter, millis, now);
            }
            j = j + 1;
        }
        assert(segments.take(j as int) =~= segments);
    }

    /// Brings the state in order after a restart.
    pub fn normalize_after_restart(&mut self, counter: &mut IdCounter)
        ensures
            same_apart_from_parts(*final(self), *old(self)),
            final(self).segments@ == restarted_segments(old(self).segments@),
            exists|millis: int, now: i64|
                0 <= now < MAX_TIMESTAMP && 0 <= millis < MAX_TIMESTAMP * 1000 && job_models(
                    final(self).upload_queue@,
                ) == #[trigger] restarted_queue(
                    old(self).segments@,
                    job_models(old(self).upload_queue@),
                    millis,
                    old(counter).next as nat,
                    now,
                ) && final(counter).next == restarted_number(
                    old(self).segments@,
                    job_models(old(self).upload_queue@),
                    millis,
                    old(counter).next as nat,
                    now,
                ),
    {
        let now: i64 = now_seconds();
        let millis: i64 = now_millis();
        self.normalize_after_restart_at(counter, millis, now);
    }

    /// A session of a streamer that goes on at `now`: it has not ended, and the streamer was live
    /// not too long ago.
    pub open spec fn goes_on(self, k: int, streamer_id: Seq<char>, now: i64) -> bool {
        &&& 0 <= k < self.sessions@.len()
        &&& self.sessions@[k].streamer_id@ == streamer_id
        &&& self.sessions@[k].ended_at is None
        &&& clamp_i64(now - self.sessions@[k].last_live_at) <= self.settings.same_session_gap_secs
    }

    /// `found` is the last session of a streamer that goes on at `now`, if there is one.
    pub open spec fn is_active(self, found: Option<usize>, streamer_id: Seq<char>, now: i64) -> bool {
        match found {
            Some(k) => self.goes_on(k as int, streamer_id, now) && forall|i: int|
                k < i < self.sessions@.len() ==> !#[trigger] self.goes_on(i, streamer_id, now),
            None => forall|i: int|
                0 <= i < self.sessions@.len() ==> !#[trigger] self.goes_on(i, streamer_id, now),
        }
    }

    /// Finds the last session of a streamer that goes on at `now`.
    pub fn active_session_for_streamer_at(&self, streamer_id: &str, now: i64) -> (r: Option<usize>)
        ensures
            self.is_active(r, streamer_id@, now),
    {
        let mut i: usize = self.sessions.len();
        while i > 0
            invariant
                i <= self.sessions.len(),
                forall|k: int|
                    i <= k < self.sessions@.len() ==> !#[trigger] self.goes_on(
                        k,
                        streamer_id@,
                        now,
                    ),
            decreases i,
        {
            let session = &self.sessions[i - 1];
            if same(session.streamer_id.as_str(), streamer_id) && session.ended_at.is_none()
                && saturating_gap(now, session.last_live_at)
                <= self.settings.same_session_gap_secs {
                assert(self.goes_on(i - 1, streamer_id@, now));
                return Some(i - 1);
            }
            assert(!self.goes_on(i - 1, streamer_id@, now));
            i = i - 1;
        }
        None
    }

    /// Finds the last session of a streamer that goes on.
    pub fn active_session_for_streamer(&self, streamer_id: &str) -> (r: Option<usize>)
        ensures
            exists|now: i64|
                0 <= now < MAX_TIMESTAMP && #[trigger] self.is_active(r, streamer_id@, now),
    {
        let now: i64 = now_seconds();
        self.active_session_for_streamer_at(streamer_id, now)
    }

    /// A part with this identifier or this file is there already.
    pub open spec fn knows(self, segment: SegmentRecord) -> bool {
        exists|i: int|
            0 <= i < self.segments@.len() && ((#[trigger] self.segments@[i]).id@ == segment.id@
                || self.segments@[i].file_path@ == segment.file_path@)
    }

    fn knows_segment(&self, segment: &SegmentRecord) -> (r: bool)
        ensures
            r == self.knows(*segment),
    {
        let mut i: usize = 0;
        while i < self.segments.len()
            invariant
                i <= self.segments.len(),
                forall|k: int|
                    0 <= k < i ==> !((#[trigger] self.segments@[k]).id@ == segment.id@
                        || self.segments@[k].file_path@ == segment.file_path@),
            decreases self.segments.len() - i,
        {
            if same(self.segments[i].id.as_str(), segment.id.as_str()) || same(
                self.segments[i].file_path.as_str(),
                segment.file_path.as_str(),
            ) {
                return true;
            }
            i = i + 1;
        }
        false
    }

    /// Takes a finished part in at `now`, unless it is known or the service has it. Where uploads
    /// are switched on, it is queued as well.
    pub fn enqueue_segment_at(
        &mut self,
        segment: SegmentRecord,
        counter: &mut IdCounter,
        millis: i64,
        now: i64,
    )
        ensures
            same_apart_from_parts(*final(self), *old(self)),
            if segment.remote_confirmed || old(self).knows(segment) {
                *final(self) == *old(self) && *final(counter) == *old(counter)
            } else {
                &&& final(self).segments@ == old(self).segments@.push(segment)
                &&& job_models(final(self).upload_queue@) == if old(self).settings.auto_upload
                    && old(self).bilibili.enabled {
                    with_job(
                        job_models(old(self).upload_queue@),
                        segment,
                        upload_id(millis as int, old(counter).next as nat),
                        now,
                    )
                } else {
                    job_models(old(self).upload_queue@)
                }
                &&& final(counter).next == if old(self).settings.auto_upload && old(
                    self,
                ).bilibili.enabled {
                    number_after(
                        job_models(old(self).upload_queue@),
                        segment,
                        old(counter).next as nat,
                    )
                } else {
                    old(counter).next as nat
                }
            },
    {
        if segment.remote_confirmed || self.knows_segment(&segment) {
            return;
        }
        if self.settings.auto_upload && self.bilibili.enabled {
            queue_job_at(&mut self.upload_queue, &segment, counter, millis, now);
        }
        self.segments.push(segment);
    }

    /// Takes a finished part in, unless it is known or the service has it. Where uploads are
    /// switched on, it is queued as well.
    pub fn enqueue_segment(&mut self, segment: SegmentRecord, counter: &mut IdCounter)
        ensures
            same_apart_from_parts(*final(self), *old(self)),
            if segment.remote_confirmed || old(self).knows(segment) {
                *final(self) == *old(self) && *final(counter) == *old(counter)
            } else {
                &&& final(self).segments@ == old(self).segments@.push(segment)
                &&& final(counter).next == if old(self).settings.auto_upload && old(
                    self,
                ).bilibili.enabled {
                    number_after(
                        job_models(old(self).upload_queue@),
                        segment,
                        old(counter).next as nat,
                    )
                } else {
                    old(counter).next as nat
                }
                &&& if old(self).settings.auto_upload && old(self).bilibili.enabled {
                    exists|millis: int, now: i64|
                        0 <= now < MAX_TIMESTAMP && 0 <= millis < MAX_TIMESTAMP * 1000
                            && job_models(final(self).upload_queue@) == #[trigger] with_job(
                            job_models(old(self).upload_queue@),
                            segment,
                            upload_id(millis, old(counter).next as nat),
                            now,
                        )
                } else {
                    job_models(final(self).upload_queue@) == job_models(old(self).upload_queue@)
                }
            },
    {
        let now: i64 = now_seconds();
        let millis: i64 = now_millis();
        self.enqueue_segment_at(segment, counter, millis, now);
    }

    /// Queues the upload of a part at `now`, if it has to be.
    pub fn enqueue_segment_job_at(
        &mut self,
        segment: &SegmentRecord,
        counter: &mut IdCounter,
        millis: i64,
        now: i64,
    )
        ensures
            same_apart_from_parts(*final(self), *old(self)),
            final(self).segments == old(self).segments,
            job_models(final(self).upload_queue@) == with_job(
                job_models(old(self).upload_queue@),
                *segment,
                upload_id(millis as int, old(counter).next as nat),
                now,
            ),
            final(counter).next == number_after(
                job_models(old(self).upload_queue@),
                *segment,
                old(counter).next as nat,
            ),
    {
        queue_job_at(&mut self.upload_queue, segment, counter, millis, now);
    }

    /// Queues the upload of a part, if it has to be.
    pub fn enqueue_segment_job(&mut self, segment: &SegmentRecord, counter: &mut IdCounter)
        ensures
            same_apart_from_parts(*final(self), *old(self)),
            final(self).segments == old(self).segments,
            exists|millis: int, now: i64|
                0 <= now < MAX_TIMESTAMP && 0 <= millis < MAX_TIMESTAMP * 1000 && job_models(
                    final(self).upload_queue@,
                ) == #[trigger] with_job(
                    job_models(old(self).upload_queue@),
                    *segment,
                    upload_id(millis, old(counter).next as nat),
                    now,
                ),
            final(counter).next == number_after(
                job_models(old(self).upload_queue@),
                *segment,
                old(counter).next as nat,
            ),
    {
        let now: i64 = now_seconds();
        let millis: i64 = now_millis();
        self.enqueue_segment_job_at(segment, counter, millis, now);
    }
}

proof fn lemma_restarted_jobs(jobs: Seq<JobModel>, now: i64)
    ensures
        forall|i: int|
            0 <= i < restarted_jobs(jobs, now).len() ==> (#[trigger] restarted_jobs(
                jobs,
                now,
            )[i]).state != UploadState::Uploading && restarted_jobs(jobs, now)[i].state
                != UploadState::Uploaded,
    decreases jobs.len(),
{
    if jobs.len() > 0 {
        lemma_restarted_jobs(jobs.drop_last(), now);
    }
}

proof fn lemma_refilled(
    segments: Seq<SegmentRecord>,
    jobs: Seq<JobModel>,
    millis: int,
    number: nat,
    now: i64,
)
    requires
        forall|i: int|
            0 <= i < jobs.len() ==> (#[trigger] jobs[i]).state != UploadState::Uploading
                && jobs[i].state != UploadState::Uploaded,
    ensures
        ({
            let queue = refilled(segments, jobs, millis, number, now).0;
            &&& forall|i: int|
                0 <= i < queue.len() ==> (#[trigger] queue[i]).state != UploadState::Uploading
                    && queue[i].state != UploadState::Uploaded
            &&& forall|i: int|
                0 <= i < segments.len() && (#[trigger] segments[i]).state == SegmentState::Ready
                    && !segments[i].remote_confirmed ==> has_open_job(queue, segments[i].id@)
        }),
    decreases segments.len(),
{
    if segments.len() > 0 {
        let rest = segments.drop_last();
        lemma_refilled(rest, jobs, millis, number, now);
        let (before, next) = refilled(rest, jobs, millis, number, now);
        let queue = refilled(segments, jobs, millis, number, now).0;
        assert forall|i: int|
            0 <= i < segments.len() && (#[trigger] segments[i]).state == SegmentState::Ready
                && !segments[i].remote_confirmed implies has_open_job(queue, segments[i].id@) by {
            if i < segments.len() - 1 {
                assert(rest[i] == segments[i]);
                let k = choose|k: int|
                    0 <= k < before.len() && (#[trigger] before[k]).segment_id == segments[i].id@
                        && before[k].state != UploadState::Uploaded;
                assert(queue[k] == before[k]);
            } else if wants_job(before, segments.last()) {
                assert(queue.last() == queued_job(
                    segments.last(),
                    upload_id(millis, next),
                    now,
                ));
                assert(queue[queue.len() - 1].segment_id == segments[i].id@);
            }
        }
    }
}

/// After a restart no part counts as being recorded, no upload as running or done, and every part
/// that is ready and that the service has not confirmed is in the queue: nothing that was recorded
/// is forgotten.
pub proof fn law_restart_queues_ready_parts(
    segments: Seq<SegmentRecord>,
    jobs: Seq<JobModel>,
    millis: int,
    number: nat,
    now: i64,
)
    ensures
        ({
            let parts = restarted_segments(segments);
            let queue = restarted_queue(segments, jobs, millis, number, now);
            &&& forall|i: int|
                0 <= i < parts.len() ==> (#[trigger] parts[i]).state != SegmentState::Recording
            &&& forall|i: int|
                0 <= i < parts.len() && (#[trigger] parts[i]).state == SegmentState::Uploading
                    ==> parts[i].remote_confirmed
            &&& forall|i: int|
                0 <= i < queue.len() ==> (#[trigger] queue[i]).state != UploadState::Uploading
                    && queue[i].state != UploadState::Uploaded
            &&& forall|i: int|
                0 <= i < parts.len() && (#[trigger] parts[i]).state == SegmentState::Ready
                    && !parts[i].remote_confirmed ==> has_open_job(queue, parts[i].id@)
        }),
{
    let parts = restarted_segments(segments);
    lemma_restarted_jobs(jobs, now);
    lemma_refilled(parts, restarted_jobs(jobs, now), millis, number, now);
    assert forall|i: int| 0 <= i < parts.len() implies (#[trigger] parts[i]) == restarted_segment(
        segments[i],
    ) by {}
}

/// Queuing a part a second time changes nothing while its upload is open.
pub proof fn law_queued_once(
    jobs: Seq<JobModel>,
    segment: SegmentRecord,
    id: Seq<char>,
    now: i64,
    other_id: Seq<char>,
    later: i64,
)
    ensures
        with_job(with_job(jobs, segment, id, now), segment, other_id, later) == with_job(
            jobs,
            segment,
            id,
            now,
        ),
{
    let once = with_job(jobs, segment, id, now);
    if wants_job(jobs, segment) {
        assert(once[jobs.len() as int].segment_id == segment.id@);
        assert(has_open_job(once, segment.id@));
    }
}

/// Where a state file is written before it gets its name.
pub fn temp_path(path: &str) -> (r: String)
    ensures
        r@ == path@ + ".tmp"@,
{
    concat(path, ".tmp")
}

/// Where the state file goes that is replaced.
pub fn backup_path(path: &str) -> (r: String)
    ensures
        r@ == with_extension_of(path@, "json.bak"@),
{
    with_extension(path, "json.bak")
}

/// A part that is queued waits to be uploaded at once: its own file, as its own part of its session.
pub proof fn law_queued_job_is_of_its_part(segment: SegmentRecord, id: Seq<char>, now: i64)
    ensures
        ({
            let job = queued_job(segment, id, now);
            &&& job.id == id
            &&& job.segment_id == segment.id@
            &&& job.session_id == segment.session_id@
            &&& job.file_path == segment.file_path@
            &&& job.part_index == segment.part_index
            &&& job.state == UploadState::Pending
            &&& job.attempts == 0 && job.last_error is None
            &&& job.next_retry_at == now && job.created_at == now
        }),
{
}

/// A part gets a job where the service has not confirmed it and no job of it is open, and only then;
/// the jobs that are there stay.
pub proof fn law_every_part_gets_one_job(
    jobs: Seq<JobModel>,
    segment: SegmentRecord,
    id: Seq<char>,
    now: i64,
    number: nat,
)
    requires
        number < u64::MAX,
    ensures
        ({
            let open = exists|i: int|
                0 <= i < jobs.len() && (#[trigger] jobs[i]).segment_id == segment.id@
                    && jobs[i].state != UploadState::Uploaded;
            let after = with_job(jobs, segment, id, now);
            &&& jobs.is_prefix_of(after)
            &&& segment.remote_confirmed || open ==> after == jobs
            &&& !segment.remote_confirmed && !open ==> after.len() == jobs.len() + 1
                && after.last().segment_id == segment.id@ && after.last().state
                == UploadState::Pending
        }),
        number_after(jobs, segment, number) == if with_job(jobs, segment, id, now) == jobs {
            number as int
        } else {
            number as int + 1
        },
{
    let after = with_job(jobs, segment, id, now);
    assert(after.take(jobs.len() as int) =~= jobs);
    assert(wants_job(jobs, segment) ==> after.len() > jobs.len());
}

/// A restart changes of a part only its state: what was being recorded has failed, and what was being
/// uploaded without a confirmation is ready again.
pub proof fn law_restart_keeps_parts(segment: SegmentRecord)
    ensures
        ({
            let after = restarted_segment(segment);
            &&& after == (SegmentRecord { state: after.state, ..segment })
            &&& segment.state == SegmentState::Recording ==> after.state == SegmentState::Failed
            &&& segment.state == SegmentState::Uploading && !segment.remote_confirmed
                ==> after.state == SegmentState::Ready
            &&& segment.state == SegmentState::Uploading && segment.remote_confirmed ==> after
                == segment
            &&& segment.state != SegmentState::Uploading && segment.state
                != SegmentState::Recording ==> after == segment
            &&& restarted_segment(after) == after
        }),
{
}

/// A restart keeps every job that is not done: one that ran waits again, due at once, and the others
/// are as they were. The jobs that are done go.
pub proof fn law_restart_keeps_open_jobs(jobs: Seq<JobModel>, now: i64, i: int)
    requires
        0 <= i < jobs.len(),
    ensures
        jobs[i].state != UploadState::Uploaded && jobs[i].state != UploadState::Uploading
            ==> restarted_jobs(jobs, now).contains(jobs[i]),
        jobs[i].state == UploadState::Uploading ==> restarted_jobs(jobs, now).contains(
            JobModel { state: UploadState::Pending, next_retry_at: now, ..jobs[i] },
        ),
        restarted_jobs(jobs, now).len() <= jobs.len(),
    decreases jobs.len(),
{
    let rest = jobs.drop_last();
    let earlier = restarted_jobs(rest, now);
    let after = restarted_jobs(jobs, now);
    lemma_restarted_len(rest, now);
    if i < rest.len() {
        law_restart_keeps_open_jobs(rest, now, i);
        let job = if jobs[i].state == UploadState::Uploading {
            JobModel { state: UploadState::Pending, next_retry_at: now, ..jobs[i] }
        } else {
            jobs[i]
        };
        if jobs[i].state != UploadState::Uploaded {
            assert(earlier.contains(job));
            assert(after[earlier.index_of(job)] == job);
        }
    } else if jobs[i].state != UploadState::Uploaded {
        assert(after[earlier.len() as int] == restarted_job(jobs[i], now));
    }
}

proof fn lemma_restarted_len(jobs: Seq<JobModel>, now: i64)
    ensures
        restarted_jobs(jobs, now).len() <= jobs.len(),
    decreases jobs.len(),
{
    if jobs.len() > 0 {
        lemma_restarted_len(jobs.drop_last(), now);
    }
}

proof fn lemma_refilled_keeps(
    segments: Seq<SegmentRecord>,
    jobs: Seq<JobModel>,
    millis: int,
    number: nat,
    now: i64,
)
    ensures
        jobs.is_prefix_of(refilled(segments, jobs, millis, number, now).0),
    decreases segments.len(),
{
    if segments.len() > 0 {
        let rest = segments.drop_last();
        lemma_refilled_keeps(rest, jobs, millis, number, now);
        let before = refilled(rest, jobs, millis, number, now).0;
        let after = refilled(segments, jobs, millis, number, now).0;
        assert(after.take(jobs.len() as int) =~= before.take(jobs.len() as int));
    } else {
        assert(jobs.take(jobs.len() as int) =~= jobs);
    }
}

/// The queue after a restart begins with the jobs that were open before it; the jobs of the parts
/// that had none come behind them.
pub proof fn law_restart_queue_begins_with_open_jobs(
    segments: Seq<SegmentRecord>,
    jobs: Seq<JobModel>,
    millis: int,
    number: nat,
    now: i64,
)
    ensures
        restarted_jobs(jobs, now).is_prefix_of(
            restarted_queue(segments, jobs, millis, number, now),
        ),
{
    lemma_refilled_keeps(
        restarted_segments(segments),
        restarted_jobs(jobs, now),
        millis,
        number,
        now,
    );
}

/// A session goes on where it is of the same streamer, has not ended and was live within the
/// configured gap; of several the last one does.
pub proof fn law_session_goes_on(
    state: PersistentState,
    found: Option<usize>,
    streamer_id: Seq<char>,
    now: i64,
    i: int,
)
    requires
        state.is_active(found, streamer_id, now),
        0 <= i < state.sessions@.len(),
        i64::MIN <= now - state.sessions@[i].last_live_at <= i64::MAX,
    ensures
        ({
            let fits = state.sessions@[i].streamer_id@ == streamer_id && state.sessions@[i].ended_at
                is None && now - state.sessions@[i].last_live_at
                <= state.settings.same_session_gap_secs;
            &&& fits ==> found is Some && found->0 >= i
            &&& found == Some(i as usize) && i <= usize::MAX ==> fits
        }),
{
    let fits = state.sessions@[i].streamer_id@ == streamer_id && state.sessions@[i].ended_at is None
        && now - state.sessions@[i].last_live_at <= state.settings.same_session_gap_secs;
    assert(fits <==> state.goes_on(i, streamer_id, now));
}

/// A part is known by its identifier or by its file.
pub proof fn law_known_parts(state: PersistentState, segment: SegmentRecord, i: int)
    requires
        0 <= i < state.segments@.len(),
    ensures
        state.segments@[i].id@ == segment.id@ ==> state.knows(segment),
        state.segments@[i].file_path@ == segment.file_path@ ==> state.knows(segment),
        (forall|k: int|
            0 <= k < state.segments@.len() ==> (#[trigger] state.segments@[k]).id@ != segment.id@
                && state.segments@[k].file_path@ != segment.file_path@) ==> !state.knows(segment),
{
}

} // verus!
