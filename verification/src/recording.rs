//! Recording one live session: the parts it is cut into, and the decisions of the loop that keeps
//! probing and recording a room until the broadcast is over.

use crate::clock::{local_now, local_reading, readable, reads, IdCounter, LocalTime};
use crate::naming::{
    join_path, path_in, raw_prefix, raw_prefix_text, safe_component, safe_file_component,
    source_name, source_name_text,
};
use crate::text::{
    blank, concat, decimal, drop_leading, is_blank, is_char, join, joined, lemma_decimal_denotes,
    lower, lowered, opt_text, push_decimal, push_text, same, texts, trim, trim_start_of, trimmed,
};
use std::collections::HashMap;
use vstd::prelude::*;

verus! {

/// Size at which a recording file is cut at the next safe boundary: a little under 15 GB.
pub const SEGMENT_TARGET_BYTES: u64 = 14_900_000_000;

/// How long a room may be offline before its session counts as over.
pub const LIVE_OFFLINE_GRACE_SECS: u64 = 600;

/// Pause between two probes of a room that is not live.
pub const RECHECK_INTERVAL_SECS: u64 = 20;

/// Pause between the end of a connection and the next probe.
pub const RECONNECT_DELAY_SECS: u64 = 2;

/// A wish to stop, once made never taken back. It is a plain value: who shares it with other tasks
/// keeps it behind a reference.
#[derive(Debug)]
pub struct StopFlag {
    pub requested: bool,
}

/// A flag that does not ask to stop yet.
pub fn new_stop_flag() -> (r: StopFlag)
    ensures
        !r.requested,
{
    StopFlag { requested: false }
}

/// Asks to stop.
pub fn request_stop(flag: &mut StopFlag)
    ensures
        final(flag).requested,
{
    flag.requested = true;
}

/// Credentials for the platforms that need them.
#[derive(Clone, Debug)]
pub struct CoreCredentials {
    pub bilibili_cookie: Option<String>,
    pub douyin_cookie: Option<String>,
}

impl Default for CoreCredentials {
    fn default() -> (r: Self)
        ensures
            r.bilibili_cookie is None,
            r.douyin_cookie is None,
    {
        CoreCredentials { bilibili_cookie: None, douyin_cookie: None }
    }
}

/// A live stream as a probe found it.
#[derive(Clone, Debug)]
pub struct ResolvedStream {
    pub name: String,
    pub title: String,
    pub platform: String,
    pub room_url: String,
    pub stream_url: String,
    pub suffix: String,
    pub headers: HashMap<String, String>,
}

/// What a probe of a room found.
#[derive(Clone, Debug)]
pub enum ProbeResult {
    Live { stream: ResolvedStream },
    Offline,
}

/// The outcome of recording a direct stream into one file.
#[derive(Clone, Debug)]
pub struct RecordingResult {
    pub file_path: String,
    pub bytes_written: u64,
    pub stopped_by_user: bool,
}

/// One finished part of a recorded session.
#[derive(Debug)]
pub struct RecordingSegment {
    pub live_session_id: String,
    pub segment_index: u32,
    pub streamer_name: String,
    pub platform: String,
    pub room_url: String,
    pub source_path: String,
    pub final_mp4_path: String,
    pub local_file_name: String,
    pub youtube_title: String,
    pub started_at: i64,
    pub ended_at: i64,
    pub bytes_written: u64,
}

/// Model of a finished part.
pub struct SegmentModel {
    pub live_session_id: Seq<char>,
    pub segment_index: u32,
    pub streamer_name: Seq<char>,
    pub platform: Seq<char>,
    pub room_url: Seq<char>,
    pub source_path: Seq<char>,
    pub final_mp4_path: Seq<char>,
    pub local_file_name: Seq<char>,
    pub youtube_title: Seq<char>,
    pub started_at: i64,
    pub ended_at: i64,
    pub bytes_written: u64,
}

impl View for RecordingSegment {
    type V = SegmentModel;

    open spec fn view(&self) -> SegmentModel {
        SegmentModel {
            live_session_id: self.live_session_id@,
            segment_index: self.segment_index,
            streamer_name: self.streamer_name@,
            platform: self.platform@,
            room_url: self.room_url@,
            source_path: self.source_path@,
            final_mp4_path: self.final_mp4_path@,
            local_file_name: self.local_file_name@,
            youtube_title: self.youtube_title@,
            started_at: self.started_at,
            ended_at: self.ended_at,
            bytes_written: self.bytes_written,
        }
    }
}

impl Clone for RecordingSegment {
    fn clone(&self) -> (r: Self)
        ensures
            r == *self,
    {
        RecordingSegment {
            live_session_id: self.live_session_id.clone(),
            segment_index: self.segment_index,
            streamer_name: self.streamer_name.clone(),
            platform: self.platform.clone(),
            room_url: self.room_url.clone(),
            source_path: self.source_path.clone(),
            final_mp4_path: self.final_mp4_path.clone(),
            local_file_name: self.local_file_name.clone(),
            youtube_title: self.youtube_title.clone(),
            started_at: self.started_at,
            ended_at: self.ended_at,
            bytes_written: self.bytes_written,
        }
    }
}

/// Smallest size at which a raw file of the given container holds media at all.
pub open spec fn minimum_useful_size(extension: Seq<char>) -> u64 {
    if extension == "flv"@ {
        14
    } else {
        1
    }
}

/// Smallest size at which a raw file of the given container holds media at all: an FLV file
/// begins with a header of 13 bytes.
pub fn minimum_segment_size(extension: &str) -> (r: u64)
    ensures
        r == minimum_useful_size(extension@),
{
    if same(extension, "flv") {
        14
    } else {
        1
    }
}

/// The title of a part: who, which day, from when to when. `colon` stands between hour and minute.
pub open spec fn part_title_text(
    base: Seq<char>,
    start: LocalTime,
    end: LocalTime,
    colon: Seq<char>,
) -> Seq<char> {
    base + "｜"@ + start.date@ + "｜"@ + start.clock(colon) + "-"@ + end.clock(colon)
}

/// Writes the title of a part.
pub fn part_title(base: &str, start: &LocalTime, end: &LocalTime, colon: &str) -> (r: String)
    ensures
        r@ == part_title_text(base@, *start, *end, colon@),
{
    let mut from = start.hour.clone();
    push_text(&mut from, colon);
    push_text(&mut from, start.minute.as_str());
    let mut to = end.hour.clone();
    push_text(&mut to, colon);
    push_text(&mut to, end.minute.as_str());
    let mut out = base.to_owned();
    push_text(&mut out, "｜");
    push_text(&mut out, start.date.as_str());
    push_text(&mut out, "｜");
    push_text(&mut out, from.as_str());
    push_text(&mut out, "-");
    push_text(&mut out, to.as_str());
    out
}

/// The state of cutting one session into parts.
pub struct SegmentEmitterState {
    pub live_session_id: String,
    pub streamer_name: String,
    pub platform: String,
    pub room_url: String,
    pub output_dir: String,
    pub next_index: u32,
    pub segment_started: LocalTime,
    pub segments: Vec<RecordingSegment>,
    pub errors: Vec<String>,
}

/// Where a raw file that is worth keeping is to go.
pub struct SegmentPlan {
    pub index: u32,
    pub size: u64,
    pub ended: LocalTime,
    pub source_path: String,
    /// Name of the finished file.
    pub file_name: String,
    /// Name of the finished file where the first name is taken.
    pub numbered_file_name: String,
    pub youtube_title: String,
}

/// What becomes of a raw file once its size is known.
pub enum MeasuredSegment {
    /// The size could not be read; the file stays where it is.
    Unreadable,
    /// There is no media in the file; it is to be removed.
    Discard,
    /// The file is a part of the session.
    Keep(SegmentPlan),
}

/// A number one higher, or the largest one.
pub open spec fn next_after(n: u32) -> u32 {
    if n == u32::MAX {
        u32::MAX
    } else {
        (n + 1) as u32
    }
}

impl SegmentEmitterState {
    /// What identifies the session is the same in both states.
    pub open spec fn same_session(self, other: Self) -> bool {
        &&& self.live_session_id == other.live_session_id
        &&& self.streamer_name == other.streamer_name
        &&& self.platform == other.platform
        &&& self.room_url == other.room_url
        &&& self.output_dir == other.output_dir
    }

    /// Parts are numbered upwards without repetition, each begins where the one before it ended,
    /// the part in progress begins where the last one ended, and all of them carry the identifier,
    /// the streamer, the platform and the room of the session.
    pub open spec fn wf(self) -> bool {
        &&& forall|i: int, j: int|
            0 <= i < j < self.segments@.len() ==> (#[trigger] self.segments@[i]).segment_index < (
            #[trigger] self.segments@[j]).segment_index
        &&& forall|i: int|
            0 <= i < self.segments@.len() ==> (#[trigger] self.segments@[i]).segment_index
                < self.next_index
        &&& forall|i: int, j: int|
            0 <= i && j == i + 1 && j < self.segments@.len() ==> (
            #[trigger] self.segments@[j]).started_at == (#[trigger] self.segments@[i]).ended_at
        &&& self.segments@.len() > 0 ==> self.segment_started.timestamp
            == self.segments@.last().ended_at
        &&& forall|i: int|
            0 <= i < self.segments@.len() ==> (#[trigger] self.segments@[i]).live_session_id@
                == self.live_session_id@ && self.segments@[i].streamer_name@ == self.streamer_name@
                && self.segments@[i].platform@ == self.platform@ && self.segments@[i].room_url@
                == self.room_url@
    }

    /// `index` has been handed out, and no part has this number or a higher one yet.
    pub open spec fn fresh(self, index: u32) -> bool {
        &&& index < self.next_index
        &&& forall|i: int|
            0 <= i < self.segments@.len() ==> (#[trigger] self.segments@[i]).segment_index < index
    }

    /// The base of the file names of this session.
    pub open spec fn base(self) -> Seq<char> {
        safe_component(self.streamer_name@)
    }

    /// The plan for a raw file of `size` bytes that was closed at `ended`.
    pub open spec fn planned(self, extension: Seq<char>, size: u64, ended: LocalTime, plan: SegmentPlan) -> bool {
        let stem = part_title_text(self.base(), self.segment_started, ended, "："@);
        &&& plan.index == self.next_index
        &&& plan.size == size
        &&& plan.ended == ended
        &&& plan.source_path@ == path_in(
            self.output_dir@,
            source_name_text(self.live_session_id@, self.next_index as nat, extension),
        )
        &&& plan.file_name@ == stem + ".mp4"@
        &&& plan.numbered_file_name@ == stem + "｜P"@ + decimal(self.next_index as nat) + ".mp4"@
        &&& plan.youtube_title@ == part_title_text(
            self.base(),
            self.segment_started,
            ended,
            ":"@,
        )
    }

    /// Decides about a raw file whose size has been read (or could not be): a file without media
    /// is discarded, any other gets the next part number and the names that go with it.
    pub fn measure_raw_segment(
        &mut self,
        raw_path: &str,
        extension: &str,
        size: Result<u64, String>,
        ended: &LocalTime,
    ) -> (r: MeasuredSegment)
        ensures
            final(self).same_session(*old(self)),
            final(self).segment_started == old(self).segment_started,
            final(self).segments == old(self).segments,
            match size {
                Err(error) => {
                    &&& r is Unreadable
                    &&& final(self).next_index == old(self).next_index
                    &&& texts(final(self).errors@) == texts(old(self).errors@).push(
                        "读取切段文件失败 "@ + raw_path@ + ": "@ + error@,
                    )
                },
                Ok(size) => {
                    &&& final(self).errors == old(self).errors
                    &&& if size < minimum_useful_size(extension@) {
                        &&& r is Discard
                        &&& final(self).next_index == old(self).next_index
                    } else {
                        &&& r matches MeasuredSegment::Keep(plan)
                        &&& old(self).planned(extension@, size, *ended, plan)
                        &&& final(self).next_index == next_after(old(self).next_index)
                        &&& old(self).wf() && old(self).next_index < u32::MAX ==> final(self).fresh(plan.index)
                    }
                },
            },
            old(self).wf() ==> final(self).wf(),
    {
        let size: u64 = match size {
            Ok(size) => size,
            Err(error) => {
                let mut message = "读取切段文件失败 ".to_owned();
                push_text(&mut message, raw_path);
                push_text(&mut message, ": ");
                push_text(&mut message, error.as_str());
                self.errors.push(message);
                assert(texts(self.errors@) =~= texts(old(self).errors@).push(message@));
                return MeasuredSegment::Unreadable;
            },
        };
        if size < minimum_segment_size(extension) {
            return MeasuredSegment::Discard;
        }
        let index: u32 = self.next_index;
        self.next_index = index.saturating_add(1);
        let base = safe_file_component(self.streamer_name.as_str());
        let stem = part_title(base.as_str(), &self.segment_started, ended, "：");
        let youtube_title = part_title(base.as_str(), &self.segment_started, ended, ":");
        let source = source_name(self.live_session_id.as_str(), index, extension);
        let mut numbered = stem.clone();
        push_text(&mut numbered, "｜P");
        push_decimal(&mut numbered, index as u64);
        push_text(&mut numbered, ".mp4");
        MeasuredSegment::Keep(
            SegmentPlan {
                index,
                size,
                ended: ended.clone(),
                source_path: join_path(self.output_dir.as_str(), source.as_str()),
                file_name: concat(stem.as_str(), ".mp4"),
                numbered_file_name: numbered,
                youtube_title,
            },
        )
    }

    /// Chooses the name of the finished file, given which of the planned paths are taken. An
    /// existing source container or a finished file under both names is never overwritten: the
    /// conflict is noted and nothing is chosen.
    pub fn place_segment(
        &mut self,
        plan: &SegmentPlan,
        source_taken: bool,
        final_taken: bool,
        numbered_taken: bool,
    ) -> (r: Option<String>)
        ensures
            final(self).same_session(*old(self)),
            final(self).segment_started == old(self).segment_started,
            final(self).segments == old(self).segments,
            final(self).next_index == old(self).next_index,
            if source_taken {
                &&& r is None
                &&& texts(final(self).errors@) == texts(old(self).errors@).push(
                    "发现同 session/P 的恢复源文件，拒绝覆盖: "@ + plan.source_path@,
                )
            } else if final_taken && numbered_taken {
                &&& r is None
                &&& texts(final(self).errors@) == texts(old(self).errors@).push(
                    "最终 MP4 文件名冲突，拒绝覆盖: "@ + path_in(
                        old(self).output_dir@,
                        plan.numbered_file_name@,
                    ),
                )
            } else {
                &&& r matches Some(name)
                &&& name@ == if final_taken {
                    plan.numbered_file_name@
                } else {
                    plan.file_name@
                }
                &&& final(self).errors == old(self).errors
            },
            old(self).wf() ==> final(self).wf(),
            old(self).fresh(plan.index) ==> final(self).fresh(plan.index),
    {
        if source_taken {
            let message = concat(
                "发现同 session/P 的恢复源文件，拒绝覆盖: ",
                plan.source_path.as_str(),
            );
            self.errors.push(message);
            assert(texts(self.errors@) =~= texts(old(self).errors@).push(message@));
            return None;
        }
        if !final_taken {
            return Some(plan.file_name.clone());
        }
        if numbered_taken {
            let path = join_path(self.output_dir.as_str(), plan.numbered_file_name.as_str());
            let message = concat("最终 MP4 文件名冲突，拒绝覆盖: ", path.as_str());
            self.errors.push(message);
            assert(texts(self.errors@) =~= texts(old(self).errors@).push(message@));
            return None;
        }
        Some(plan.numbered_file_name.clone())
    }

    /// The part that a plan becomes under the chosen file name.
    pub open spec fn emitted(self, plan: SegmentPlan, file_name: Seq<char>, bytes: u64) -> SegmentModel {
        SegmentModel {
            live_session_id: self.live_session_id@,
            segment_index: plan.index,
            streamer_name: self.streamer_name@,
            platform: self.platform@,
            room_url: self.room_url@,
            source_path: plan.source_path@,
            final_mp4_path: path_in(self.output_dir@, file_name),
            local_file_name: file_name,
            youtube_title: plan.youtube_title@,
            started_at: self.segment_started.timestamp,
            ended_at: plan.ended.timestamp,
            bytes_written: bytes,
        }
    }

    /// Whether moving a raw file to its place leaves the emitter as `after` and gives the part `r`.
    pub open spec fn commits(
        self,
        raw_path: Seq<char>,
        plan: SegmentPlan,
        file_name: Seq<char>,
        renamed: Result<Option<u64>, String>,
        after: Self,
        r: Option<RecordingSegment>,
    ) -> bool {
        match renamed {
            Err(error) => {
                &&& r is None
                &&& after.segment_started == self.segment_started
                &&& after.segments == self.segments
                &&& texts(after.errors@) == texts(self.errors@).push(
                    "提交切段文件失败 "@ + raw_path + " -> "@ + plan.source_path@ + ": "@ + error@,
                )
            },
            Ok(measured) => {
                &&& r matches Some(segment)
                &&& segment@ == self.emitted(
                    plan,
                    file_name,
                    match measured {
                        Some(bytes) => bytes,
                        None => plan.size,
                    },
                )
                &&& after.segment_started == plan.ended
                &&& after.segments@ == self.segments@.push(segment)
                &&& after.errors == self.errors
            },
        }
    }

    /// Takes note of the move of the raw file to its source container. After a successful move
    /// the part joins the session and is handed out; `Ok` carries the size of the moved file if
    /// it could be read again. A failed move is noted and the raw file keeps its name.
    pub fn commit_segment(
        &mut self,
        raw_path: &str,
        plan: SegmentPlan,
        file_name: String,
        renamed: Result<Option<u64>, String>,
    ) -> (r: Option<RecordingSegment>)
        ensures
            final(self).same_session(*old(self)),
            final(self).next_index == old(self).next_index,
            old(self).commits(raw_path@, plan, file_name@, renamed, *final(self), r),
            old(self).wf() && old(self).fresh(plan.index) ==> final(self).wf(),
    {
        let bytes_written: u64 = match renamed {
            Ok(Some(bytes)) => bytes,
            Ok(None) => plan.size,
            Err(error) => {
                let mut message = "提交切段文件失败 ".to_owned();
                push_text(&mut message, raw_path);
                push_text(&mut message, " -> ");
                push_text(&mut message, plan.source_path.as_str());
                push_text(&mut message, ": ");
                push_text(&mut message, error.as_str());
                self.errors.push(message);
                assert(texts(self.errors@) =~= texts(old(self).errors@).push(message@));
                return None;
            },
        };
        let segment = RecordingSegment {
            live_session_id: self.live_session_id.clone(),
            segment_index: plan.index,
            streamer_name: self.streamer_name.clone(),
            platform: self.platform.clone(),
            room_url: self.room_url.clone(),
            source_path: plan.source_path,
            final_mp4_path: join_path(self.output_dir.as_str(), file_name.as_str()),
            local_file_name: file_name,
            youtube_title: plan.youtube_title,
            started_at: self.segment_started.timestamp,
            ended_at: plan.ended.timestamp,
            bytes_written,
        };
        self.segment_started = plan.ended;
        self.segments.push(segment.clone());
        Some(segment)
    }
}

/// What a session is recorded from, and where to.
pub struct RecordingPlan {
    pub room_url: String,
    pub display_name: String,
    pub credentials: CoreCredentials,
    pub output_dir: String,
    pub live_session_id: Option<String>,
    /// Start of the session. Set when a session is resumed after a restart.
    pub session_started_at: Option<i64>,
    /// Number of the first part that is recorded. A resumed session goes on where it stopped.
    pub next_segment_index: u32,
    /// Start of the part that is being resumed.
    pub segment_started_at: Option<i64>,
    pub segment_target_bytes: u64,
}

impl RecordingPlan {
    /// A plan for a new session with the usual part size.
    pub fn new(
        room_url: String,
        display_name: String,
        credentials: CoreCredentials,
        output_dir: String,
    ) -> (r: Self)
        ensures
            r == (RecordingPlan {
                room_url,
                display_name,
                credentials,
                output_dir,
                live_session_id: None,
                session_started_at: None,
                next_segment_index: 1,
                segment_started_at: None,
                segment_target_bytes: SEGMENT_TARGET_BYTES,
            }),
    {
        RecordingPlan {
            room_url,
            display_name,
            credentials,
            output_dir,
            live_session_id: None,
            session_started_at: None,
            next_segment_index: 1,
            segment_started_at: None,
            segment_target_bytes: SEGMENT_TARGET_BYTES,
        }
    }
}

/// The outcome of recording one session.
#[derive(Debug)]
pub struct RecordingSessionResult {
    pub live_session_id: String,
    pub streamer_name: String,
    pub platform: String,
    pub room_url: String,
    pub started_at: i64,
    pub ended_at: i64,
    pub stopped_by_user: bool,
    pub segments: Vec<RecordingSegment>,
    pub last_error: Option<String>,
}

/// The text of a session identifier.
pub open spec fn session_id_text(display_name: Seq<char>, stamp: Seq<char>, seq: nat) -> Seq<char> {
    safe_component(display_name) + "-"@ + stamp + "-"@ + decimal(seq)
}

/// An identifier for a session: who is recorded, since when, and a sequence number.
pub fn new_session_id(display_name: &str, started: &LocalTime, seq: u64) -> (r: String)
    ensures
        r@ == session_id_text(display_name@, started.stamp@, seq as nat),
{
    let mut out = safe_file_component(display_name);
    push_text(&mut out, "-");
    push_text(&mut out, started.stamp.as_str());
    push_text(&mut out, "-");
    push_decimal(&mut out, seq);
    out
}

/// When a session and its part in progress began, given the local readings of the times that are
/// kept of them: a session without one begins now, a part without one begins with its session.
pub open spec fn start_times(
    session: Option<LocalTime>,
    segment: Option<LocalTime>,
    now: LocalTime,
) -> (LocalTime, LocalTime) {
    let started = match session {
        Some(t) => t,
        None => now,
    };
    (
        started,
        match segment {
            Some(t) => t,
            None => started,
        },
    )
}

/// What is known of the reading of a time that may not be kept.
pub open spec fn reads_kept(reading: Option<LocalTime>, kept: Option<i64>) -> bool {
    match kept {
        Some(timestamp) => reads(reading, timestamp),
        None => reading is None,
    }
}

/// When a session and its part in progress began, given the local readings.
pub fn session_times_from(
    session: Option<LocalTime>,
    segment: Option<LocalTime>,
    now: LocalTime,
) -> (r: (LocalTime, LocalTime))
    ensures
        r == start_times(session, segment, now),
{
    let started = match session {
        Some(t) => t,
        None => now,
    };
    let part = match segment {
        Some(t) => t,
        None => started.clone(),
    };
    (started, part)
}

impl RecordingPlan {
    /// The times are those of the plan: the session reports the start that the plan keeps, and the
    /// part in progress its own, or that of the session.
    pub open spec fn begins_at(self, session_started: LocalTime, segment_started: LocalTime) -> bool {
        &&& session_started.wf() && segment_started.wf()
        &&& match self.session_started_at {
            Some(t) => readable(t) ==> session_started.timestamp == t,
            None => true,
        }
        &&& match self.segment_started_at {
            Some(t) => (segment_started.timestamp == t || segment_started == session_started) && (
            readable(t) ==> segment_started.timestamp == t),
            None => segment_started == session_started,
        }
    }
}

/// When the session of a plan and its part in progress began: as the plan keeps it, or now.
pub fn session_times(plan: &RecordingPlan) -> (r: (LocalTime, LocalTime))
    ensures
        plan.begins_at(r.0, r.1),
        exists|session: Option<LocalTime>, segment: Option<LocalTime>, now: LocalTime|
            r == #[trigger] start_times(session, segment, now) && now.wf() && reads_kept(
                session,
                plan.session_started_at,
            ) && reads_kept(segment, plan.segment_started_at),
{
    let session = match plan.session_started_at {
        Some(timestamp) => local_reading(timestamp),
        None => None,
    };
    let segment = match plan.segment_started_at {
        Some(timestamp) => local_reading(timestamp),
        None => None,
    };
    session_times_from(session, segment, local_now())
}

/// What the loop that records a session does next.
#[derive(Clone, Copy, Debug, PartialEq, Eq, Structural)]
pub enum SessionAction {
    /// Ask the platform whether the room is live.
    Probe,
    /// Connect to the stream that was found and record it.
    Record,
    /// Wait for this many seconds, then look at the stop flag again.
    Wait(u64),
    /// End the session.
    Finish,
}

/// The state of the loop that records a session.
pub struct LiveSession {
    pub plan: RecordingPlan,
    pub live_session_id: String,
    pub session_started: LocalTime,
    pub segment_started: LocalTime,
    pub emitter: Option<SegmentEmitterState>,
    pub platform: String,
    /// Monotonic time in milliseconds since when the room has not been seen live.
    pub offline_since: Option<u64>,
    pub last_error: Option<String>,
}

/// The name under which the parts of a session are filed: that of the stream, or the configured
/// one where the stream has none.
pub open spec fn streamer_title(stream_name: Seq<char>, display_name: Seq<char>) -> Seq<char> {
    if is_blank(stream_name) {
        display_name
    } else {
        stream_name
    }
}

/// The moment since when a room is offline, given that it is offline `now`.
pub open spec fn offline_start(since: Option<u64>, now: u64) -> u64 {
    match since {
        Some(t) => t,
        None => now,
    }
}

/// Whether a room that has been offline since a moment is still within the grace period.
pub open spec fn within_grace(since: u64, now: u64) -> bool {
    now - since < LIVE_OFFLINE_GRACE_SECS * 1000
}

impl LiveSession {
    /// Everything but the outcome of the latest probe or connection is the same.
    pub open spec fn same_recording(self, other: Self) -> bool {
        &&& self.plan == other.plan
        &&& self.live_session_id == other.live_session_id
        &&& self.session_started == other.session_started
        &&& self.segment_started == other.segment_started
    }

    /// The session is the one of its plan: it goes by the identifier that the plan keeps, and began
    /// when the plan says.
    pub open spec fn as_planned(self) -> bool {
        &&& self.plan.begins_at(self.session_started, self.segment_started)
        &&& self.plan.live_session_id matches Some(id) ==> self.live_session_id == id
    }

    /// Begins the recording of a session. A resumed session goes on under its identifier and with
    /// its start; a new one gets an identifier, with a number of the counter.
    pub fn begin(plan: RecordingPlan, counter: &mut IdCounter) -> (r: Self)
        ensures
            r.as_planned(),
            r.plan == (RecordingPlan {
                segment_target_bytes: if plan.segment_target_bytes == 0 {
                    SEGMENT_TARGET_BYTES
                } else {
                    plan.segment_target_bytes
                },
                ..plan
            }),
            match plan.live_session_id {
                Some(_) => *final(counter) == *old(counter),
                None => {
                    &&& r.live_session_id@ == session_id_text(
                        plan.display_name@,
                        r.session_started.stamp@,
                        old(counter).next as nat,
                    )
                    &&& final(counter).next == (old(counter).next + 1) % 0x1_0000_0000_0000_0000
                },
            },
            r.emitter is None,
            r.platform@ == ""@,
            r.offline_since is None,
            r.last_error is None,
    {
        let (session_started, segment_started) = session_times(&plan);
        let fresh_id = match plan.live_session_id {
            Some(_) => "".to_owned(),
            None => new_session_id(plan.display_name.as_str(), &session_started, counter.take()),
        };
        Self::start(plan, session_started, segment_started, fresh_id)
    }

    /// Prepares the recording of a session. A plan without a part size gets the usual one; a plan
    /// without an identifier gets `fresh_id`.
    pub fn start(
        plan: RecordingPlan,
        session_started: LocalTime,
        segment_started: LocalTime,
        fresh_id: String,
    ) -> (r: Self)
        ensures
            r.plan == (RecordingPlan {
                segment_target_bytes: if plan.segment_target_bytes == 0 {
                    SEGMENT_TARGET_BYTES
                } else {
                    plan.segment_target_bytes
                },
                ..plan
            }),
            r.live_session_id == match plan.live_session_id {
                Some(id) => id,
                None => fresh_id,
            },
            r.session_started == session_started,
            r.segment_started == segment_started,
            r.emitter is None,
            r.platform@ == ""@,
            r.offline_since is None,
            r.last_error is None,
    {
        let live_session_id = match &plan.live_session_id {
            Some(id) => id.clone(),
            None => fresh_id,
        };
        let mut plan = plan;
        if plan.segment_target_bytes == 0 {
            plan.segment_target_bytes = SEGMENT_TARGET_BYTES;
        }
        LiveSession {
            plan,
            live_session_id,
            session_started,
            segment_started,
            emitter: None,
            platform: "".to_owned(),
            offline_since: None,
            last_error: None,
        }
    }

    /// The head of the loop: a stop request ends the session, otherwise the room is probed.
    pub fn on_stop_check(&self, stop_requested: bool) -> (r: SessionAction)
        ensures
            r == if stop_requested {
                SessionAction::Finish
            } else {
                SessionAction::Probe
            },
    {
        if stop_requested {
            SessionAction::Finish
        } else {
            SessionAction::Probe
        }
    }

    /// Whether a probe at `now` leaves the session as `after` and leads to `action`.
    pub open spec fn follows_probe(
        self,
        result: Result<ProbeResult, String>,
        now: u64,
        after: Self,
        action: SessionAction,
    ) -> bool {
        &&& after.same_recording(self)
        &&& match result {
            Ok(ProbeResult::Live { stream }) => {
                &&& action == SessionAction::Record
                &&& after.offline_since is None
                &&& after.last_error is None
                &&& after.platform == stream.platform
                &&& match self.emitter {
                    Some(_) => after.emitter == self.emitter,
                    None => after.emitter matches Some(e) && self.first_emitter(stream, e) && e.wf(),
                }
            },
            _ => {
                let since = offline_start(self.offline_since, now);
                &&& action == if within_grace(since, now) {
                    SessionAction::Wait(RECHECK_INTERVAL_SECS)
                } else {
                    SessionAction::Finish
                }
                &&& after.offline_since == Some(since)
                &&& after.platform == self.platform
                &&& after.emitter == self.emitter
                &&& after.last_error == match result {
                    Err(error) => Some(error),
                    _ => self.last_error,
                }
            },
        }
    }

    /// The session after a connection ended at `now`.
    pub open spec fn disconnected(self, result: Result<(), String>, now: u64) -> Self {
        LiveSession {
            offline_since: Some(offline_start(self.offline_since, now)),
            last_error: match result {
                Err(error) => Some(error),
                Ok(_) => self.last_error,
            },
            ..self
        }
    }

    /// Whether `r` is what the session comes to in the end.
    pub open spec fn ends_as(
        self,
        ended_at: i64,
        stopped_by_user: bool,
        r: RecordingSessionResult,
    ) -> bool {
        &&& r.live_session_id == self.live_session_id
        &&& r.streamer_name == self.plan.display_name
        &&& r.platform == self.platform
        &&& r.room_url == self.plan.room_url
        &&& r.started_at == self.session_started.timestamp
        &&& self.as_planned() ==> match self.plan.session_started_at {
            Some(t) => readable(t) ==> r.started_at == t,
            None => true,
        }
        &&& r.ended_at == ended_at
        &&& r.stopped_by_user == stopped_by_user
        &&& match self.emitter {
            Some(e) => {
                &&& r.segments == e.segments
                &&& opt_text(r.last_error) == if e.errors@.len() == 0 {
                    opt_text(self.last_error)
                } else {
                    Some(joined(texts(e.errors@), "; "@))
                }
            },
            None => r.segments@.len() == 0 && r.last_error == self.last_error,
        }
    }

    /// The emitter that the first live stream of a session brings up.
    pub open spec fn first_emitter(self, stream: ResolvedStream, emitter: SegmentEmitterState) -> bool {
        &&& emitter.live_session_id == self.live_session_id
        &&& emitter.streamer_name@ == streamer_title(stream.name@, self.plan.display_name@)
        &&& emitter.platform == stream.platform
        &&& emitter.room_url == self.plan.room_url
        &&& emitter.output_dir == self.plan.output_dir
        &&& emitter.next_index == if self.plan.next_segment_index == 0 {
            1
        } else {
            self.plan.next_segment_index
        }
        &&& emitter.segment_started == self.segment_started
        &&& emitter.segments@.len() == 0
        &&& emitter.errors@.len() == 0
    }

    /// Reacts to a probe at the monotonic time `now`. A live room is recorded and forgets past
    /// failures; the first one also sets up the numbering of parts. A room that is offline, or
    /// cannot be probed, is probed again later, until it has been so for the whole grace period.
    pub fn on_probe(&mut self, result: &Result<ProbeResult, String>, now: u64) -> (r: SessionAction)
        ensures
            old(self).follows_probe(*result, now, *final(self), r),
    {
        match result {
            Ok(ProbeResult::Live { stream }) => {
                self.offline_since = None;
                self.last_error = None;
                self.platform = stream.platform.clone();
                if self.emitter.is_none() {
                    let streamer_name = if blank(stream.name.as_str()) {
                        self.plan.display_name.clone()
                    } else {
                        stream.name.clone()
                    };
                    self.emitter = Some(
                        SegmentEmitterState {
                            live_session_id: self.live_session_id.clone(),
                            streamer_name,
                            platform: stream.platform.clone(),
                            room_url: self.plan.room_url.clone(),
                            output_dir: self.plan.output_dir.clone(),
                            next_index: if self.plan.next_segment_index == 0 {
                                1
                            } else {
                                self.plan.next_segment_index
                            },
                            segment_started: self.segment_started.clone(),
                            segments: Vec::new(),
                            errors: Vec::new(),
                        },
                    );
                }
                SessionAction::Record
            },
            Ok(ProbeResult::Offline) => self.wait_or_finish(now),
            Err(error) => {
                self.last_error = Some(error.clone());
                self.wait_or_finish(now)
            },
        }
    }

    fn wait_or_finish(&mut self, now: u64) -> (r: SessionAction)
        ensures
            *final(self) == (LiveSession {
                offline_since: Some(offline_start(old(self).offline_since, now)),
                ..*old(self)
            }),
            r == if within_grace(offline_start(old(self).offline_since, now), now) {
                SessionAction::Wait(RECHECK_INTERVAL_SECS)
            } else {
                SessionAction::Finish
            },
    {
        let since: u64 = match self.offline_since {
            Some(t) => t,
            None => now,
        };
        self.offline_since = Some(since);
        if now.saturating_sub(since) < LIVE_OFFLINE_GRACE_SECS * 1000 {
            SessionAction::Wait(RECHECK_INTERVAL_SECS)
        } else {
            SessionAction::Finish
        }
    }

    /// Reacts to the end of a connection: even a clean end needs the room to be confirmed offline,
    /// because it may come back at once under another address.
    pub fn on_connection_end(
        &mut self,
        result: Result<(), String>,
        now: u64,
        stop_requested: bool,
    ) -> (r: SessionAction)
        ensures
            *final(self) == old(self).disconnected(result, now),
            r == if stop_requested {
                SessionAction::Finish
            } else {
                SessionAction::Wait(RECONNECT_DELAY_SECS)
            },
    {
        if let Err(error) = result {
            self.last_error = Some(error);
        }
        if self.offline_since.is_none() {
            self.offline_since = Some(now);
        }
        if stop_requested {
            SessionAction::Finish
        } else {
            SessionAction::Wait(RECONNECT_DELAY_SECS)
        }
    }

    /// Ends the session. Failures that were noted while parts were cut take precedence over the
    /// last failure of a probe or a connection.
    pub fn finish(self, ended_at: i64, stopped_by_user: bool) -> (r: RecordingSessionResult)
        ensures
            self.ends_as(ended_at, stopped_by_user, r),
    {
        let (segments, last_error) = match self.emitter {
            Some(emitter) => {
                let last_error = if emitter.errors.len() == 0 {
                    self.last_error
                } else {
                    Some(join(&emitter.errors, "; "))
                };
                (emitter.segments, last_error)
            },
            None => (Vec::new(), self.last_error),
        };
        RecordingSessionResult {
            live_session_id: self.live_session_id,
            streamer_name: self.plan.display_name,
            platform: self.platform,
            room_url: self.plan.room_url,
            started_at: self.session_started.timestamp,
            ended_at,
            stopped_by_user,
            segments,
            last_error,
        }
    }
}

/// A session stays the one of its plan through every probe and every connection, so a resumed
/// session reports the start that its plan keeps.
pub proof fn law_resumed_session_keeps_start(before: LiveSession, after: LiveSession)
    requires
        before.as_planned(),
        after.same_recording(before),
    ensures
        after.as_planned(),
        before.plan.session_started_at matches Some(t) ==> readable(t)
            ==> after.session_started.timestamp == t,
{
}

/// How a stream is recorded.
#[derive(Clone, Copy, Debug, PartialEq, Eq, Structural)]
pub enum ConnectionKind {
    /// Media segments of a playlist, or one transport stream, into a `ts` container.
    Hls,
    /// An HTTP-FLV connection into an `flv` container.
    Flv,
}

/// How a stream with the given extension is recorded, if it can be cut safely at all.
pub fn connection_kind(extension: &str) -> (r: Result<ConnectionKind, String>)
    ensures
        if extension@ == "m3u8"@ || extension@ == "ts"@ {
            r == Ok::<ConnectionKind, String>(ConnectionKind::Hls)
        } else if extension@ == "flv"@ {
            r == Ok::<ConnectionKind, String>(ConnectionKind::Flv)
        } else {
            r matches Err(e) && e@ == "15GB 安全切段当前仅支持 FLV/HLS/TS，直播源返回了 "@
                + extension@ + "。"@
        },
{
    if same(extension, "m3u8") || same(extension, "ts") {
        Ok(ConnectionKind::Hls)
    } else if same(extension, "flv") {
        Ok(ConnectionKind::Flv)
    } else {
        let mut message = "15GB 安全切段当前仅支持 FLV/HLS/TS，直播源返回了 ".to_owned();
        push_text(&mut message, extension);
        push_text(&mut message, "。");
        Err(message)
    }
}

/// The pattern of the names of the raw files of a session; the date and time are filled in when a
/// file is opened.
pub fn working_pattern(output_dir: &str, live_session_id: &str) -> (r: String)
    ensures
        r@ == path_in(output_dir@, raw_prefix_text(live_session_id@) + "%Y%m%d-%H%M%S-%f"@),
{
    let name = concat(raw_prefix(live_session_id).as_str(), "%Y%m%d-%H%M%S-%f");
    join_path(output_dir, name.as_str())
}

/// True for the suffixes that name a container.
pub open spec fn is_media_suffix(s: Seq<char>) -> bool {
    s == "flv"@ || s == "ts"@ || s == "mp4"@ || s == "m4s"@ || s == "m3u8"@
}

/// The suffix of a stream in lower case, without white space and dots in front.
pub open spec fn clean_suffix(suffix: Seq<char>) -> Seq<char> {
    lowered(drop_leading(trimmed(suffix), is_char('.')))
}

/// The container of a stream: its own suffix where that names one, else what its address
/// suggests (`url_extension`), else `flv`.
pub fn normalized_extension(stream: &ResolvedStream, url_extension: Option<String>) -> (r: String)
    ensures
        r@ == if is_media_suffix(clean_suffix(stream.suffix@)) {
            clean_suffix(stream.suffix@)
        } else {
            match url_extension {
                Some(e) => e@,
                None => "flv"@,
            }
        },
{
    let trimmed_suffix = trim(stream.suffix.as_str());
    let suffix = lower(trim_start_of(trimmed_suffix.as_str(), '.').as_str());
    if same(suffix.as_str(), "flv") || same(suffix.as_str(), "ts") || same(suffix.as_str(), "mp4")
        || same(suffix.as_str(), "m4s") || same(suffix.as_str(), "m3u8") {
        return suffix;
    }
    match url_extension {
        Some(e) => e,
        None => "flv".to_owned(),
    }
}

/// The name under which a room is asked for: the given one, or that of the program.
pub fn probe_name(display_name: &str) -> (r: String)
    ensures
        r@ == if is_blank(display_name@) {
            "Live Replay"@
        } else {
            trimmed(display_name@)
        },
{
    let name = trim(display_name);
    if name.as_str().is_empty() {
        "Live Replay".to_owned()
    } else {
        name
    }
}

/// Where the direct recording of a stream goes.
#[derive(Debug)]
pub struct DirectPlan {
    /// The finished file.
    pub final_path: String,
    /// The file while it is written.
    pub part_path: String,
}

/// The name that the files of a stream begin with.
pub open spec fn direct_base(stream: ResolvedStream) -> Seq<char> {
    safe_component(
        if is_blank(stream.name@) {
            stream.platform@
        } else {
            stream.name@
        },
    )
}

/// Plans the direct recording of a stream that begins at `now`; `extension` is that of its
/// container. A playlist cannot be recorded directly.
pub fn plan_direct(
    stream: &ResolvedStream,
    extension: &str,
    output_dir: &str,
    now: &LocalTime,
) -> (r: Result<DirectPlan, String>)
    ensures
        if extension@ == "m3u8"@ {
            r matches Err(m) && m@
                == "当前 Android 内核第一阶段暂不直接写入 HLS/m3u8；请使用 FLV/直链直播源。"@
        } else {
            &&& r matches Ok(plan)
            &&& plan.final_path@ == path_in(
                output_dir@,
                direct_base(*stream) + "_"@ + now.date@ + "_"@ + now.hour@ + "-"@ + now.minute@
                    + "-"@ + now.second@ + "."@ + extension@,
            )
            &&& plan.part_path@ == plan.final_path@ + ".part"@
        },
{
    if same(extension, "m3u8") {
        return Err(
            "当前 Android 内核第一阶段暂不直接写入 HLS/m3u8；请使用 FLV/直链直播源。".to_owned(),
        );
    }
    let mut name = if blank(stream.name.as_str()) {
        safe_file_component(stream.platform.as_str())
    } else {
        safe_file_component(stream.name.as_str())
    };
    push_text(&mut name, "_");
    push_text(&mut name, now.date.as_str());
    push_text(&mut name, "_");
    push_text(&mut name, now.hour.as_str());
    push_text(&mut name, "-");
    push_text(&mut name, now.minute.as_str());
    push_text(&mut name, "-");
    push_text(&mut name, now.second.as_str());
    push_text(&mut name, ".");
    push_text(&mut name, extension);
    let final_path = join_path(output_dir, name.as_str());
    let part_path = concat(final_path.as_str(), ".part");
    Ok(DirectPlan { final_path, part_path })
}

/// What came of reading a stream.
#[derive(Debug)]
pub enum StreamRead {
    /// So many bytes.
    Chunk(usize),
    /// Its end.
    End,
    /// An error.
    Failed(String),
}

/// What follows a read of a stream.
#[derive(Debug)]
pub enum DirectAction {
    /// Write what was read, and read on.
    Write,
    /// The recording is over.
    Close,
    /// The recording failed.
    Fail(String),
}

/// Decides what follows a read of a stream that is recorded directly. A recording that is to stop
/// takes in nothing more.
pub fn after_direct_read(written: &mut u64, stop: &StopFlag, read: StreamRead) -> (r: DirectAction)
    ensures
        match read {
            StreamRead::End => r is Close && *final(written) == *old(written),
            StreamRead::Chunk(n) => if stop.requested {
                r is Close && *final(written) == *old(written)
            } else {
                r is Write && *final(written) == if *old(written) + n > u64::MAX {
                    u64::MAX
                } else {
                    (*old(written) + n) as u64
                }
            },
            StreamRead::Failed(e) => (if stop.requested {
                r is Close
            } else {
                r matches DirectAction::Fail(m) && m@ == "读取直播流失败: "@ + e@
            }) && *final(written) == *old(written),
        },
{
    match read {
        StreamRead::End => DirectAction::Close,
        StreamRead::Chunk(n) => {
            if stop.requested {
                return DirectAction::Close;
            }
            *written = match written.checked_add(n as u64) {
                Some(sum) => sum,
                None => u64::MAX,
            };
            DirectAction::Write
        },
        StreamRead::Failed(error) => {
            if stop.requested {
                return DirectAction::Close;
            }
            DirectAction::Fail(concat("读取直播流失败: ", error.as_str()))
        },
    }
}

/// The result of a direct recording with so many bytes. One without any is an error; its file is
/// removed.
pub fn direct_result(plan: DirectPlan, written: u64, stop: &StopFlag) -> (r: Result<
    RecordingResult,
    String,
>)
    ensures
        if written == 0 {
            r matches Err(m) && m@ == "直播源没有返回任何媒体数据。"@
        } else {
            r == Ok::<RecordingResult, String>(
                RecordingResult {
                    file_path: plan.final_path,
                    bytes_written: written,
                    stopped_by_user: stop.requested,
                },
            )
        },
{
    if written == 0 {
        return Err("直播源没有返回任何媒体数据。".to_owned());
    }
    Ok(
        RecordingResult {
            file_path: plan.final_path,
            bytes_written: written,
            stopped_by_user: stop.requested,
        },
    )
}

/// A part that is emitted belongs to the session that recorded it: it carries its identifier, its
/// streamer, its platform and its room. It begins where the last one ended, and its finished file
/// stands in the directory of the session under the name it was given.
pub proof fn law_part_belongs_to_its_session(
    emitter: SegmentEmitterState,
    plan: SegmentPlan,
    file_name: Seq<char>,
    bytes: u64,
)
    ensures
        ({
            let part = emitter.emitted(plan, file_name, bytes);
            &&& part.live_session_id == emitter.live_session_id@
            &&& part.streamer_name == emitter.streamer_name@
            &&& part.platform == emitter.platform@
            &&& part.room_url == emitter.room_url@
            &&& part.segment_index == plan.index
            &&& part.started_at == emitter.segment_started.timestamp
            &&& part.ended_at == plan.ended.timestamp
            &&& part.bytes_written == bytes
            &&& part.source_path == plan.source_path@
            &&& part.youtube_title == plan.youtube_title@
            &&& part.local_file_name == file_name
            &&& part.final_mp4_path == path_in(emitter.output_dir@, file_name)
        }),
{
}

/// What a session records is kept under the room, the directory and the identifier of its plan, and
/// under the platform that was found; the streamer is the one the platform names, or else the one
/// of the plan. The first part has the number that the plan asks for, one at least.
pub proof fn law_parts_follow_the_plan(
    session: LiveSession,
    stream: ResolvedStream,
    emitter: SegmentEmitterState,
    plan: SegmentPlan,
    file_name: Seq<char>,
    bytes: u64,
)
    requires
        session.first_emitter(stream, emitter),
    ensures
        ({
            let part = emitter.emitted(plan, file_name, bytes);
            &&& part.live_session_id == session.live_session_id@
            &&& part.platform == stream.platform@
            &&& part.room_url == session.plan.room_url@
            &&& part.final_mp4_path == path_in(session.plan.output_dir@, file_name)
            &&& part.started_at == session.segment_started.timestamp
            &&& part.streamer_name == stream.name@ || part.streamer_name
                == session.plan.display_name@
            &&& !is_blank(stream.name@) ==> part.streamer_name == stream.name@
            &&& is_blank(stream.name@) ==> part.streamer_name == session.plan.display_name@
        }),
        emitter.wf(),
        emitter.segments@.len() == 0 && emitter.errors@.len() == 0,
        emitter.next_index >= 1,
        session.plan.next_segment_index >= 1 ==> emitter.next_index
            == session.plan.next_segment_index,
{
}

/// A part is planned under the next number. Its source file carries the session and that number,
/// its finished file is named after the streamer, with another name where the first is taken, and
/// its title tells the same streamer.
pub proof fn law_part_is_planned_under_its_number(
    emitter: SegmentEmitterState,
    extension: Seq<char>,
    size: u64,
    ended: LocalTime,
    plan: SegmentPlan,
)
    requires
        emitter.planned(extension, size, ended, plan),
    ensures
        plan.index == emitter.next_index,
        plan.size == size,
        plan.ended == ended,
        plan.source_path@ == path_in(
            emitter.output_dir@,
            source_name_text(emitter.live_session_id@, plan.index as nat, extension),
        ),
        safe_component(emitter.streamer_name@).is_prefix_of(plan.file_name@),
        safe_component(emitter.streamer_name@).is_prefix_of(plan.numbered_file_name@),
        safe_component(emitter.streamer_name@).is_prefix_of(plan.youtube_title@),
        ".mp4"@.is_suffix_of(plan.file_name@),
        ("｜P"@ + decimal(plan.index as nat) + ".mp4"@).is_suffix_of(plan.numbered_file_name@),
        plan.numbered_file_name@.len() > plan.file_name@.len(),
        ended.clock(":"@).is_suffix_of(plan.youtube_title@),
{
    let base = safe_component(emitter.streamer_name@);
    let stem = part_title_text(base, emitter.segment_started, ended, "："@);
    let number = "｜P"@ + decimal(plan.index as nat) + ".mp4"@;
    let name = plan.file_name@;
    let numbered = plan.numbered_file_name@;
    let title = plan.youtube_title@;
    assert(name.take(base.len() as int) =~= base);
    assert(numbered.take(base.len() as int) =~= base);
    assert(title.take(base.len() as int) =~= base);
    assert(name.skip(name.len() - ".mp4"@.len()) =~= ".mp4"@);
    assert(numbered.skip(numbered.len() - number.len()) =~= number);
    let clock = ended.clock(":"@);
    assert(title.skip(title.len() - clock.len()) =~= clock);
    reveal_strlit("｜P");
}

/// The title of a part begins with its name, then tells the day and when it began, and ends with
/// when it ended.
pub proof fn law_part_title(base: Seq<char>, start: LocalTime, end: LocalTime, colon: Seq<char>)
    ensures
        (base + "｜"@ + start.date@ + "｜"@ + start.hour@ + colon + start.minute@).is_prefix_of(
            part_title_text(base, start, end, colon),
        ),
        (end.hour@ + colon + end.minute@).is_suffix_of(part_title_text(base, start, end, colon)),
{
    let t = part_title_text(base, start, end, colon);
    let head = base + "｜"@ + start.date@ + "｜"@ + start.hour@ + colon + start.minute@;
    let tail = end.hour@ + colon + end.minute@;
    assert(t.take(head.len() as int) =~= head);
    assert(t.skip(t.len() - tail.len()) =~= tail);
}

/// A stream that stays away is waited for ten minutes, counted from when it was first missed.
pub proof fn law_offline_grace(since: u64, now: u64, later: u64)
    requires
        since <= now <= later,
    ensures
        offline_start(None, now) == now,
        offline_start(Some(offline_start(None, now)), later) == now,
        within_grace(since, now) <==> now < since + 600_000,
        within_grace(since, later) ==> within_grace(since, now),
{
}

/// The times of a session are the ones that were kept, and the time of its start where none was.
pub proof fn law_kept_times_win(
    session: Option<LocalTime>,
    segment: Option<LocalTime>,
    now: LocalTime,
)
    ensures
        session matches Some(t) ==> start_times(session, segment, now).0 == t,
        segment matches Some(t) ==> start_times(session, segment, now).1 == t,
        session is None ==> start_times(session, segment, now).0 == now,
        segment is None ==> start_times(session, segment, now).1 == start_times(
            session,
            segment,
            now,
        ).0,
{
}

/// The identifier of a session is made of the streamer, the time and a number that differs from
/// session to session.
pub proof fn law_session_ids(display_name: Seq<char>, stamp: Seq<char>, seq: nat, other: nat)
    ensures
        safe_component(display_name).is_prefix_of(session_id_text(display_name, stamp, seq)),
        (stamp + "-"@ + decimal(seq)).is_suffix_of(session_id_text(display_name, stamp, seq)),
        seq != other ==> session_id_text(display_name, stamp, seq) != session_id_text(
            display_name,
            stamp,
            other,
        ),
{
    let id = session_id_text(display_name, stamp, seq);
    let base = safe_component(display_name);
    let tail = stamp + "-"@ + decimal(seq);
    assert(id.take(base.len() as int) =~= base);
    assert(id.skip(id.len() - tail.len()) =~= tail);
    let head = base + "-"@ + stamp + "-"@;
    let second = session_id_text(display_name, stamp, other);
    lemma_decimal_denotes(seq);
    lemma_decimal_denotes(other);
    assert(id.skip(head.len() as int) =~= decimal(seq));
    assert(second.skip(head.len() as int) =~= decimal(other));
}

/// A file with nothing but the head of a recording in it is no recording.
pub proof fn law_useful_size(extension: Seq<char>)
    ensures
        minimum_useful_size(extension) >= 1,
        minimum_useful_size("flv"@) == 14,
        extension != "flv"@ ==> minimum_useful_size(extension) == 1,
{
}

/// Numbers of parts go up by one and never wrap around.
pub proof fn law_numbers_go_up(n: u32)
    ensures
        next_after(n) >= n,
        n < u32::MAX ==> next_after(n) == n + 1,
{
}

/// Emitters of one session agree on what it is and where it is kept.
pub proof fn law_same_session(a: SegmentEmitterState, b: SegmentEmitterState)
    ensures
        a.same_session(b) ==> a.live_session_id == b.live_session_id && a.streamer_name
            == b.streamer_name && a.platform == b.platform && a.room_url == b.room_url
            && a.output_dir == b.output_dir,
        a.same_session(a),
{
}

/// A recording keeps its plan, its session and its times as long as it goes on.
pub proof fn law_same_recording(a: LiveSession, b: LiveSession)
    ensures
        a.same_recording(b) ==> a.plan == b.plan && a.live_session_id == b.live_session_id
            && a.session_started == b.session_started && a.segment_started == b.segment_started,
        a.same_recording(a),
{
}

/// The times that a recording begins with are readings of the clock, and those of the plan where it
/// has any.
pub proof fn law_plan_sets_the_times(
    plan: RecordingPlan,
    session_started: LocalTime,
    segment_started: LocalTime,
)
    requires
        plan.begins_at(session_started, segment_started),
    ensures
        session_started.wf() && segment_started.wf(),
        plan.session_started_at matches Some(t) ==> readable(t) ==> session_started.timestamp == t,
        plan.segment_started_at matches Some(t) ==> readable(t) ==> segment_started.timestamp == t,
        plan.segment_started_at is None ==> segment_started == session_started,
{
}

/// A number is fresh where it was drawn and no part has it or a higher one.
pub proof fn law_fresh_numbers(emitter: SegmentEmitterState, index: u32, i: int)
    requires
        emitter.fresh(index),
        0 <= i < emitter.segments@.len(),
    ensures
        index < emitter.next_index,
        emitter.segments@[i].segment_index < index,
{
}

/// What is recorded directly is named after the stream, or else after the platform; its kind is one
/// of the five that are known, told without regard to case and to dots before it.
pub proof fn law_direct_recordings(stream: ResolvedStream, suffix: Seq<char>, other: Seq<char>)
    ensures
        !is_blank(stream.name@) ==> direct_base(stream) == safe_component(stream.name@),
        is_blank(stream.name@) ==> direct_base(stream) == safe_component(stream.platform@),
        lowered(trimmed(suffix)) == lowered(trimmed(other)) && trimmed(suffix).len() > 0 && trimmed(
            suffix,
        )[0] != '.' && trimmed(other)[0] != '.' ==> clean_suffix(suffix) == clean_suffix(other),
        is_media_suffix("flv"@) && is_media_suffix("ts"@) && is_media_suffix("mp4"@)
            && is_media_suffix("m4s"@) && is_media_suffix("m3u8"@),
        is_media_suffix(suffix) ==> suffix == "flv"@ || suffix == "ts"@ || suffix == "mp4"@
            || suffix == "m4s"@ || suffix == "m3u8"@,
{
    if lowered(trimmed(suffix)) == lowered(trimmed(other)) {
        assert(lowered(trimmed(suffix)).len() == trimmed(suffix).len());
        assert(lowered(trimmed(other)).len() == trimmed(other).len());
    }
}

/// A room that is live is recorded, whatever went wrong before; one that is not, or cannot be
/// probed, is waited for and looked at every twenty seconds until it has been away for ten minutes,
/// and then the recording ends. What was recorded so far is kept.
pub proof fn law_probes_decide(
    session: LiveSession,
    result: Result<ProbeResult, String>,
    now: u64,
    after: LiveSession,
    action: SessionAction,
)
    requires
        session.follows_probe(result, now, after, action),
    ensures
        after.plan == session.plan && after.live_session_id == session.live_session_id,
        after.session_started == session.session_started,
        action == SessionAction::Record <==> (result matches Ok(probe) && probe is Live),
        result matches Ok(ProbeResult::Live { stream }) ==> after.platform == stream.platform
            && after.offline_since is None && after.last_error is None && after.emitter is Some,
        session.emitter is Some ==> after.emitter == session.emitter,
        !(action == SessionAction::Record) ==> after.emitter == session.emitter && after.platform
            == session.platform,
        !(result matches Ok(probe) && probe is Live) && session.offline_since is None ==> action
            == SessionAction::Wait(20) && after.offline_since == Some(now),
        !(result matches Ok(probe) && probe is Live) ==> (session.offline_since matches Some(since)
            ==> after.offline_since == Some(since) && (action == SessionAction::Finish <==> now
            >= since + 600_000) && (now < since + 600_000 ==> action == SessionAction::Wait(20))),
        result matches Err(e) ==> after.last_error == Some(e),
        result matches Ok(probe) ==> !(probe is Live) ==> after.last_error == session.last_error,
{
}

/// A connection that ended leaves the recording as it was, but for when the stream was first missed
/// and what went wrong.
pub proof fn law_connection_ends(session: LiveSession, result: Result<(), String>, now: u64)
    ensures
        ({
            let after = session.disconnected(result, now);
            &&& after == (LiveSession {
                offline_since: after.offline_since,
                last_error: after.last_error,
                ..session
            })
            &&& session.offline_since is Some ==> after.offline_since == session.offline_since
            &&& session.offline_since is None ==> after.offline_since == Some(now)
            &&& result matches Err(e) ==> after.last_error == Some(e)
            &&& result is Ok ==> after.last_error == session.last_error
        }),
{
}

/// In the end a recording is told as what it was: its session, its room, its times and all its parts.
pub proof fn law_recording_is_told(
    session: LiveSession,
    ended_at: i64,
    stopped_by_user: bool,
    r: RecordingSessionResult,
)
    requires
        session.ends_as(ended_at, stopped_by_user, r),
    ensures
        r.live_session_id == session.live_session_id,
        r.room_url == session.plan.room_url,
        r.streamer_name == session.plan.display_name,
        r.platform == session.platform,
        r.started_at == session.session_started.timestamp,
        r.ended_at == ended_at,
        r.stopped_by_user == stopped_by_user,
        session.emitter matches Some(e) ==> r.segments == e.segments,
        session.emitter is None ==> r.segments@.len() == 0,
        (session.emitter matches Some(e) && e.errors@.len() > 0) ==> r.last_error is Some,
        session.last_error is Some ==> r.last_error is Some,
{
    if session.emitter is Some && session.emitter->0.errors@.len() == 0 {
        assert(opt_text(r.last_error) == opt_text(session.last_error));
    }
}

/// A part that was moved to its place is kept behind the earlier ones, and the next one begins where
/// it ended; where the move failed, nothing is emitted and the failure is kept.
pub proof fn law_parts_are_committed(
    emitter: SegmentEmitterState,
    raw_path: Seq<char>,
    plan: SegmentPlan,
    file_name: Seq<char>,
    renamed: Result<Option<u64>, String>,
    after: SegmentEmitterState,
    r: Option<RecordingSegment>,
)
    requires
        emitter.commits(raw_path, plan, file_name, renamed, after, r),
    ensures
        r is Some <==> renamed is Ok,
        r matches Some(segment) ==> {
            &&& after.segments@ == emitter.segments@.push(segment)
            &&& segment@.live_session_id == emitter.live_session_id@
            &&& segment@.streamer_name == emitter.streamer_name@
            &&& segment@.platform == emitter.platform@
            &&& segment@.room_url == emitter.room_url@
            &&& segment@.started_at == emitter.segment_started.timestamp
            &&& segment@.ended_at == after.segment_started.timestamp
            &&& after.errors == emitter.errors
        },
        renamed is Err ==> after.segments == emitter.segments && after.errors@.len()
            == emitter.errors@.len() + 1 && after.segment_started == emitter.segment_started,
        renamed matches Ok(Some(bytes)) ==> (r matches Some(segment) && segment@.bytes_written
            == bytes),
        renamed matches Ok(None) ==> (r matches Some(segment) && segment@.bytes_written
            == plan.size),
{
    if renamed is Err {
        assert(texts(after.errors@).len() == after.errors@.len());
        assert(texts(emitter.errors@).len() == emitter.errors@.len());
    }
}

} // verus!
