//! Recordings that run side by side: which rooms are being recorded, whether another one may
//! start, and how a finished part is handed over to the upload queue.

use crate::lists::{
    first_index, law_ordered, lemma_first_index, lemma_first_index_found, ordered, stable_sort, Ranked,
};
use crate::paths::{is_same_path, same_path};
use crate::recording::{new_stop_flag, request_stop, ProbeResult, ResolvedStream, StopFlag};
use crate::text::{
    concat, decimal, decimal_int, decimal_i64, opt_text, push_decimal, push_text, same, trim,
    trimmed,
};
use vstd::prelude::*;

verus! {

/// Free space below which no new recording starts: 10 GiB.
pub const MIN_START_FREE_BYTES: u64 = 10_737_418_240;

/// Free space below which the user is warned: 30 GiB.
pub const WARN_FREE_BYTES: u64 = 32_212_254_720;

/// Pause between two signs of life that a recording writes to the journal.
pub const JOURNAL_HEARTBEAT_INTERVAL_SECS: u64 = 20;

/// A recording that is running.
pub struct ActiveRecording {
    pub room_url: String,
    pub display_name: String,
    pub current_file: String,
    pub started_at: i64,
    pub stop_flag: StopFlag,
}

/// Model of a running recording.
pub struct ActiveModel {
    pub room_url: Seq<char>,
    pub display_name: Seq<char>,
    pub current_file: Seq<char>,
    pub started_at: i64,
    pub stop_requested: bool,
}

impl View for ActiveRecording {
    type V = ActiveModel;

    open spec fn view(&self) -> ActiveModel {
        ActiveModel {
            room_url: self.room_url@,
            display_name: self.display_name@,
            current_file: self.current_file@,
            started_at: self.started_at,
            stop_requested: self.stop_flag.requested,
        }
    }
}

/// The running recordings, by their models.
pub open spec fn active_models(v: Seq<ActiveRecording>) -> Seq<ActiveModel> {
    v.map_values(|r: ActiveRecording| r@)
}

/// The predicate of being the recording of a room.
pub open spec fn records_room(room_url: Seq<char>) -> spec_fn(ActiveModel) -> bool {
    |r: ActiveModel| r.room_url == room_url
}

/// The recordings after one of a room was begun: in place of an earlier one of that room, or behind
/// all others.
pub open spec fn rooms_with(
    before: Seq<ActiveModel>,
    room_url: Seq<char>,
    display_name: Seq<char>,
    output_dir: Seq<char>,
    started_at: i64,
) -> Seq<ActiveModel> {
    let k = first_index(before, records_room(room_url));
    let entered = ActiveModel {
        room_url,
        display_name,
        current_file: output_dir,
        started_at,
        stop_requested: false,
    };
    if k == before.len() {
        before.push(entered)
    } else {
        before.update(k, entered)
    }
}

/// The recordings after the one of a room has ended.
pub open spec fn rooms_without(before: Seq<ActiveModel>, room_url: Seq<char>) -> Seq<ActiveModel> {
    let k = first_index(before, records_room(room_url));
    if k == before.len() {
        before
    } else {
        before.remove(k)
    }
}

/// The recordings after one of them, or all, were asked to stop.
pub open spec fn rooms_stopped(
    before: Seq<ActiveModel>,
    room_url: Option<Seq<char>>,
) -> Seq<ActiveModel> {
    match room_url {
        Some(url) => {
            let k = first_index(before, records_room(url));
            if k == before.len() {
                before
            } else {
                before.update(k, ActiveModel { stop_requested: true, ..before[k] })
            }
        },
        None => before.map_values(|m: ActiveModel| ActiveModel { stop_requested: true, ..m }),
    }
}

/// Whether `rooms` are the rooms whose recordings were asked to stop.
pub open spec fn are_stopped(
    before: Seq<ActiveModel>,
    room_url: Option<Seq<char>>,
    rooms: Seq<String>,
) -> bool {
    match room_url {
        Some(url) => if first_index(before, records_room(url)) == before.len() {
            rooms.len() == 0
        } else {
            rooms.len() == 1 && rooms[0]@ == url
        },
        None => rooms.len() == before.len() && forall|i: int|
            0 <= i < before.len() ==> (#[trigger] rooms[i])@ == before[i].room_url,
    }
}

/// All recordings of the process, with the latest outcome.
pub struct MultiRecordingRuntime {
    pub recordings: Vec<ActiveRecording>,
    pub last_file: Option<String>,
    pub last_error: Option<String>,
}

impl Default for MultiRecordingRuntime {
    fn default() -> (r: Self)
        ensures
            r.recordings@.len() == 0,
            r.last_file is None,
            r.last_error is None,
            r.wf(),
    {
        MultiRecordingRuntime { recordings: Vec::new(), last_file: None, last_error: None }
    }
}

/// One running recording, as it is shown.
#[derive(Debug)]
pub struct RecordingStatusItem {
    pub room_url: String,
    pub display_name: String,
    pub current_file: String,
    pub started_at: i64,
}

impl Ranked for RecordingStatusItem {
    open spec fn ranks_before(self, other: Self) -> bool {
        self.started_at <= other.started_at
    }

    fn not_after(&self, other: &Self) -> (r: bool) {
        self.started_at <= other.started_at
    }

    proof fn total(a: Self, b: Self) {
    }

    proof fn transitive(a: Self, b: Self, c: Self) {
    }
}

/// All running recordings, as they are shown.
#[derive(Debug)]
pub struct MultiRecordingStatus {
    pub active: bool,
    pub active_count: usize,
    pub recordings: Vec<RecordingStatusItem>,
    pub last_file: Option<String>,
    pub last_error: Option<String>,
    pub available_bytes: Option<u64>,
    pub low_space_warning: bool,
}

/// The item that shows a running recording.
pub open spec fn shown(r: ActiveRecording) -> RecordingStatusItem {
    RecordingStatusItem {
        room_url: r.room_url,
        display_name: r.display_name,
        current_file: r.current_file,
        started_at: r.started_at,
    }
}

/// The items that show the running recordings.
pub open spec fn all_shown(v: Seq<ActiveRecording>) -> Seq<RecordingStatusItem> {
    v.map_values(|r: ActiveRecording| shown(r))
}

/// What becomes of the wish to record a room.
#[derive(Debug)]
pub enum Admission {
    /// The wish is refused, with the reason.
    Refused(String),
    /// The room is already being recorded.
    AlreadyRecording,
    /// The room may be recorded; this is its address without white space around it.
    Proceed(String),
}

impl MultiRecordingRuntime {
    /// No room is recorded twice.
    pub open spec fn wf(self) -> bool {
        forall|i: int, j: int|
            0 <= i < j < self.recordings@.len() ==> (#[trigger] self.recordings@[i]).room_url@ != (
            #[trigger] self.recordings@[j]).room_url@
    }

    /// True when a room is being recorded.
    pub open spec fn recording(self, room_url: Seq<char>) -> bool {
        exists|i: int|
            0 <= i < self.recordings@.len() && (#[trigger] self.recordings@[i]).room_url@
                == room_url
    }

    fn find(&self, room_url: &str) -> (r: usize)
        ensures
            r <= self.recordings.len(),
            r == first_index(active_models(self.recordings@), records_room(room_url@)),
            (r < self.recordings.len()) == self.recording(room_url@),
            r < self.recordings.len() ==> self.recordings@[r as int].room_url@ == room_url@,
            forall|i: int| 0 <= i < r ==> (#[trigger] self.recordings@[i]).room_url@ != room_url@,
    {
        let n: usize = self.recordings.len();
        let ghost models = active_models(self.recordings@);
        let mut i: usize = 0;
        while i < n
            invariant
                i <= n,
                n == self.recordings.len(),
                models == active_models(self.recordings@),
                forall|j: int| 0 <= j < i ==> !records_room(room_url@)(#[trigger] models[j]),
                forall|j: int|
                    0 <= j < i ==> (#[trigger] self.recordings@[j]).room_url@ != room_url@,
            decreases n - i,
        {
            assert(models[i as int] == self.recordings@[i as int]@);
            if same(self.recordings[i].room_url.as_str(), room_url) {
                proof {
                    lemma_first_index(models, records_room(room_url@), i as int);
                }
                return i;
            }
            i = i + 1;
        }
        proof {
            lemma_first_index(models, records_room(room_url@), n as int);
        }
        n
    }

    /// Whether a room is being recorded.
    pub fn is_recording(&self, room_url: &str) -> (r: bool)
        ensures
            r == self.recording(room_url@),
    {
        self.find(room_url) < self.recordings.len()
    }

    /// Decides whether the recording of a room may be prepared.
    pub fn consider(&self, url: &str) -> (r: Admission)
        ensures
            if trimmed(url@).len() == 0 {
                r matches Admission::Refused(reason) && reason@ == "直播间地址为空。"@
            } else if self.recording(trimmed(url@)) {
                r is AlreadyRecording
            } else {
                r matches Admission::Proceed(address) && address@ == trimmed(url@)
            },
    {
        let address = trim(url);
        if address.as_str().is_empty() {
            return Admission::Refused("直播间地址为空。".to_owned());
        }
        if self.is_recording(address.as_str()) {
            return Admission::AlreadyRecording;
        }
        Admission::Proceed(address)
    }

    /// Enters the recording of a room that starts now, and forgets the last error.
    pub fn begin(
        &mut self,
        room_url: &str,
        display_name: &str,
        output_dir: &str,
        started_at: i64,
    )
        ensures
            active_models(final(self).recordings@) == rooms_with(
                active_models(old(self).recordings@),
                room_url@,
                display_name@,
                output_dir@,
                started_at,
            ),
            final(self).last_file == old(self).last_file,
            final(self).last_error is None,
            final(self).recording(room_url@),
            old(self).wf() ==> final(self).wf(),
    {
        let ghost before = active_models(self.recordings@);
        let entered = ActiveRecording {
            room_url: room_url.to_owned(),
            display_name: display_name.to_owned(),
            current_file: output_dir.to_owned(),
            started_at,
            stop_flag: new_stop_flag(),
        };
        let ghost model = entered@;
        let position: usize = self.find(room_url);
        if position < self.recordings.len() {
            self.recordings.set(position, entered);
            assert(active_models(self.recordings@) =~= before.update(position as int, model));
        } else {
            self.recordings.push(entered);
            assert(active_models(self.recordings@) =~= before.push(model));
        }
        self.last_error = None;
        assert(self.recordings@[position as int].room_url@ == room_url@);
        assert(self.recording(room_url@));
    }

    /// Takes the recording of a room off the list.
    pub fn end(&mut self, room_url: &str)
        ensures
            final(self).last_file == old(self).last_file,
            final(self).last_error == old(self).last_error,
            active_models(final(self).recordings@) == rooms_without(
                active_models(old(self).recordings@),
                room_url@,
            ),
            old(self).wf() ==> final(self).wf() && !final(self).recording(room_url@),
    {
        let ghost before = active_models(self.recordings@);
        let ghost olds = self.recordings@;
        let position: usize = self.find(room_url);
        if position < self.recordings.len() {
            self.recordings.remove(position);
            assert(active_models(self.recordings@) =~= before.remove(position as int));
            assert forall|i: int| 0 <= i < self.recordings@.len() implies (
            #[trigger] self.recordings@[i]) == olds[if i < position {
                i
            } else {
                i + 1
            }] by {}
        }
    }

    /// Notes a finished file; the last error no longer matters.
    pub fn set_last_file(&mut self, path: String)
        ensures
            *final(self) == (MultiRecordingRuntime {
                last_file: Some(path),
                last_error: None,
                ..*old(self)
            }),
    {
        self.last_file = Some(path);
        self.last_error = None;
    }

    /// Notes an error.
    pub fn set_last_error(&mut self, error: String)
        ensures
            *final(self) == (MultiRecordingRuntime { last_error: Some(error), ..*old(self) }),
    {
        self.last_error = Some(error);
    }

    /// The recordings as they are shown, oldest first, with the free space that was measured.
    pub fn status(&self, available_bytes: Option<u64>) -> (r: MultiRecordingStatus)
        ensures
            r.active == (self.recordings@.len() > 0),
            r.active_count == self.recordings@.len(),
            r.recordings@ == ordered(all_shown(self.recordings@)),
            r.last_file == self.last_file,
            r.last_error == self.last_error,
            r.available_bytes == available_bytes,
            r.low_space_warning == (available_bytes matches Some(n) && n < WARN_FREE_BYTES),
    {
        let n: usize = self.recordings.len();
        let mut items: Vec<RecordingStatusItem> = Vec::new();
        let mut i: usize = 0;
        while i < n
            invariant
                i <= n,
                n == self.recordings.len(),
                items@ == all_shown(self.recordings@.take(i as int)),
            decreases n - i,
        {
            let recording = &self.recordings[i];
            items.push(
                RecordingStatusItem {
                    room_url: recording.room_url.clone(),
                    display_name: recording.display_name.clone(),
                    current_file: recording.current_file.clone(),
                    started_at: recording.started_at,
                },
            );
            i = i + 1;
            assert(items@ =~= all_shown(self.recordings@.take(i as int)));
        }
        assert(self.recordings@.take(n as int) =~= self.recordings@);
        let low_space_warning = match available_bytes {
            Some(bytes) => bytes < WARN_FREE_BYTES,
            None => false,
        };
        MultiRecordingStatus {
            active: n > 0,
            active_count: n,
            recordings: stable_sort(items),
            last_file: self.last_file.clone(),
            last_error: self.last_error.clone(),
            available_bytes,
            low_space_warning,
        }
    }

    /// Asks the recording of one room to stop, or all of them, and tells which rooms that are.
    pub fn stop_rooms(&mut self, room_url: Option<&str>) -> (r: Vec<String>)
        ensures
            final(self).last_file == old(self).last_file,
            final(self).last_error == old(self).last_error,
            active_models(final(self).recordings@) == rooms_stopped(
                active_models(old(self).recordings@),
                match room_url {
                    Some(url) => Some(url@),
                    None => None,
                },
            ),
            are_stopped(
                active_models(old(self).recordings@),
                match room_url {
                    Some(url) => Some(url@),
                    None => None,
                },
                r@,
            ),
    {
        let ghost before = active_models(self.recordings@);
        let mut rooms: Vec<String> = Vec::new();
        match room_url {
            Some(url) => {
                let position: usize = self.find(url);
                if position < self.recordings.len() {
                    rooms.push(self.recordings[position].room_url.clone());
                    self.request_stop_of(position);
                }
            },
            None => {
                let n: usize = self.recordings.len();
                let mut i: usize = 0;
                while i < n
                    invariant
                        i <= n,
                        n == self.recordings.len(),
                        n == before.len(),
                        rooms@.len() == i,
                        self.last_file == old(self).last_file,
                        self.last_error == old(self).last_error,
                        forall|j: int| 0 <= j < i ==> (#[trigger] rooms@[j])@ == before[j].room_url,
                        forall|j: int|
                            0 <= j < i ==> (#[trigger] active_models(self.recordings@)[j])
                                == (ActiveModel { stop_requested: true, ..before[j] }),
                        forall|j: int|
                            i <= j < n ==> (#[trigger] active_models(self.recordings@)[j])
                                == before[j],
                    decreases n - i,
                {
                    assert(active_models(self.recordings@)[i as int] == before[i as int]);
                    rooms.push(self.recordings[i].room_url.clone());
                    self.request_stop_of(i);
                    i = i + 1;
                }
                assert(active_models(self.recordings@) =~= before.map_values(
                    |m: ActiveModel| ActiveModel { stop_requested: true, ..m },
                ));
            },
        }
        rooms
    }

    fn request_stop_of(&mut self, position: usize)
        requires
            position < old(self).recordings.len(),
        ensures
            final(self).recordings.len() == old(self).recordings.len(),
            final(self).last_file == old(self).last_file,
            final(self).last_error == old(self).last_error,
            active_models(final(self).recordings@) == active_models(old(self).recordings@).update(
                position as int,
                ActiveModel {
                    stop_requested: true,
                    ..active_models(old(self).recordings@)[position as int]
                },
            ),
    {
        let ghost before = active_models(self.recordings@);
        request_stop(&mut self.recordings[position].stop_flag);
        assert(active_models(self.recordings@) =~= before.update(
            position as int,
            ActiveModel { stop_requested: true, ..before[position as int] },
        ));
    }

    /// Asks all recordings to stop.
    pub fn request_stop_all(&mut self)
        ensures
            final(self).last_file == old(self).last_file,
            final(self).last_error == old(self).last_error,
            active_models(final(self).recordings@) == active_models(
                old(self).recordings@,
            ).map_values(|m: ActiveModel| ActiveModel { stop_requested: true, ..m }),
    {
        self.stop_rooms(None);
    }
}

/// The number of tenths of a GiB nearest to `bytes`; halfway cases go to the even number.
pub open spec fn nearest_tenth_gib(bytes: nat) -> nat {
    let scaled = bytes * 10;
    let whole = scaled / 1_073_741_824;
    let rest = scaled % 1_073_741_824;
    if rest > 536_870_912 || (rest == 536_870_912 && whole % 2 == 1) {
        whole + 1
    } else {
        whole
    }
}

/// A number of bytes in GiB, with one digit behind the point.
pub open spec fn gib_text(bytes: nat) -> Seq<char> {
    let tenths = nearest_tenth_gib(bytes);
    decimal(tenths / 10) + "."@ + decimal(tenths % 10)
}

/// A number of bytes in GiB, with one digit behind the point.
pub fn format_gib(bytes: u64) -> (r: String)
    ensures
        r@ == gib_text(bytes as nat),
{
    let scaled: u128 = bytes as u128 * 10;
    let whole: u64 = (scaled / 1_073_741_824) as u64;
    let rest: u64 = (scaled % 1_073_741_824) as u64;
    let tenths: u64 = if rest > 536_870_912 || (rest == 536_870_912 && whole % 2 == 1) {
        whole + 1
    } else {
        whole
    };
    let mut out = String::new();
    push_decimal(&mut out, tenths / 10);
    push_text(&mut out, ".");
    push_decimal(&mut out, tenths % 10);
    assert(out@ =~= gib_text(bytes as nat));
    out
}

/// Refuses to start a recording when less than 10 GiB are free. Recordings that run already go on.
pub fn check_start_space(free: u64) -> (r: Result<(), String>)
    ensures
        r is Ok <==> free >= MIN_START_FREE_BYTES,
        r matches Err(message) ==> message@ == "可用存储空间不足 10GB（当前约 "@ + gib_text(
            free as nat,
        ) + "GB），拒绝启动新的录像；已有录像不会被强制中断。"@,
{
    if free < MIN_START_FREE_BYTES {
        let mut message = "可用存储空间不足 10GB（当前约 ".to_owned();
        push_text(&mut message, format_gib(free).as_str());
        push_text(&mut message, "GB），拒绝启动新的录像；已有录像不会被强制中断。");
        return Err(message);
    }
    Ok(())
}

/// What is done with a finished part, step by step.
#[derive(Clone, Copy, Debug, PartialEq, Eq, Structural)]
pub enum HandoffStep {
    /// Enter the part into the journal.
    Register,
    /// Turn the source container into the finished file.
    Finalize,
    /// Hand the part to the upload queue.
    Enqueue,
    /// Take the part off the journal.
    Complete,
}

/// Where the work on a finished part stands after a step.
#[derive(Debug)]
pub enum HandoffOutcome {
    /// The next step is due.
    Next(HandoffStep),
    /// The work stops here; nothing that a restart needs has been removed.
    Stopped(String),
    /// The part is in the upload queue and off the journal.
    Done,
}

/// The message for a step on part `index` that failed with `error`.
pub open spec fn handoff_failure(step: HandoffStep, index: nat, error: Seq<char>) -> Seq<char> {
    "P"@ + decimal(index) + match step {
        HandoffStep::Register => " 已安全切出但 journal 持久化失败，停止后处理且保留源文件: "@,
        HandoffStep::Finalize => " MP4 收尾失败，源录像和 journal 均保留: "@,
        HandoffStep::Enqueue => " 已生成但加入 B站队列失败，本地文件及 journal 均保留: "@,
        HandoffStep::Complete => " 已进入 B站队列，但清理 journal 标记失败，将在重启后安全复核: "@,
    } + error
}

/// The step that follows a successful one.
pub open spec fn following_step(step: HandoffStep) -> Option<HandoffStep> {
    match step {
        HandoffStep::Register => Some(HandoffStep::Finalize),
        HandoffStep::Finalize => Some(HandoffStep::Enqueue),
        HandoffStep::Enqueue => Some(HandoffStep::Complete),
        HandoffStep::Complete => None,
    }
}

/// What follows a step on a finished part. The first failure stops the work.
pub fn handoff_outcome(
    step: HandoffStep,
    segment_index: u32,
    result: &Result<(), String>,
) -> (r: HandoffOutcome)
    ensures
        match *result {
            Err(error) => r matches HandoffOutcome::Stopped(message) && message@
                == handoff_failure(step, segment_index as nat, error@),
            Ok(_) => match following_step(step) {
                Some(next) => r == HandoffOutcome::Next(next),
                None => r == HandoffOutcome::Done,
            },
        },
{
    match result {
        Err(error) => {
            let mut message = "P".to_owned();
            push_decimal(&mut message, segment_index as u64);
            push_text(
                &mut message,
                match step {
                    HandoffStep::Register =>
                        " 已安全切出但 journal 持久化失败，停止后处理且保留源文件: ",
                    HandoffStep::Finalize => " MP4 收尾失败，源录像和 journal 均保留: ",
                    HandoffStep::Enqueue =>
                        " 已生成但加入 B站队列失败，本地文件及 journal 均保留: ",
                    HandoffStep::Complete =>
                        " 已进入 B站队列，但清理 journal 标记失败，将在重启后安全复核: ",
                },
            );
            push_text(&mut message, error.as_str());
            HandoffOutcome::Stopped(message)
        },
        Ok(_) => match step {
            HandoffStep::Register => HandoffOutcome::Next(HandoffStep::Finalize),
            HandoffStep::Finalize => HandoffOutcome::Next(HandoffStep::Enqueue),
            HandoffStep::Enqueue => HandoffOutcome::Next(HandoffStep::Complete),
            HandoffStep::Complete => HandoffOutcome::Done,
        },
    }
}

/// The steps that are carried out on a part, given which of them succeed when they are tried.
pub open spec fn steps_taken(step: HandoffStep, succeeds: spec_fn(HandoffStep) -> bool) -> Seq<
    HandoffStep,
>
    decreases
            match step {
                HandoffStep::Register => 3int,
                HandoffStep::Finalize => 2int,
                HandoffStep::Enqueue => 1int,
                HandoffStep::Complete => 0int,
            },
{
    seq![step] + if !succeeds(step) {
        Seq::empty()
    } else {
        match following_step(step) {
            Some(next) => steps_taken(next, succeeds),
            None => Seq::empty(),
        }
    }
}

/// A part is taken off the journal only after it was entered into it, its finished file was made
/// and the upload queue took it.
pub proof fn law_journal_cleared_last(succeeds: spec_fn(HandoffStep) -> bool)
    ensures
        steps_taken(HandoffStep::Register, succeeds).contains(HandoffStep::Complete) ==> {
            &&& succeeds(HandoffStep::Register)
            &&& succeeds(HandoffStep::Finalize)
            &&& succeeds(HandoffStep::Enqueue)
        },
{
    reveal_with_fuel(steps_taken, 5);
}

/// Steps that close a session once its recording has ended.
#[derive(Clone, Copy, Debug, PartialEq, Eq, Structural)]
pub enum ClosingStep {
    /// Tell the upload queue that no more parts will come.
    MarkComplete,
    /// Take the session off the journal.
    FinishJournal,
}

/// The message for a closing step that failed with `error`.
pub open spec fn closing_failure(step: ClosingStep, error: Seq<char>) -> Seq<char> {
    (match step {
        ClosingStep::MarkComplete =>
            "保存 B站 session 完成状态失败，recording journal 保留: "@,
        ClosingStep::FinishJournal =>
            "B站 session 已标记结束，但清理 recording journal 失败: "@,
    }) + error
}

/// What follows a closing step: the next step, or the message of the failure. The session leaves
/// the journal only after the upload queue knows that it is over.
pub fn closing_outcome(step: ClosingStep, result: &Result<(), String>) -> (r: Result<
    Option<ClosingStep>,
    String,
>)
    ensures
        match *result {
            Err(error) => r matches Err(message) && message@ == closing_failure(step, error@),
            Ok(_) => r == Ok::<Option<ClosingStep>, String>(
                match step {
                    ClosingStep::MarkComplete => Some(ClosingStep::FinishJournal),
                    ClosingStep::FinishJournal => None,
                },
            ),
        },
{
    match result {
        Err(error) => Err(
            concat(
                match step {
                    ClosingStep::MarkComplete =>
                        "保存 B站 session 完成状态失败，recording journal 保留: ",
                    ClosingStep::FinishJournal =>
                        "B站 session 已标记结束，但清理 recording journal 失败: ",
                },
                error.as_str(),
            ),
        ),
        Ok(_) => match step {
            ClosingStep::MarkComplete => Ok(Some(ClosingStep::FinishJournal)),
            ClosingStep::FinishJournal => Ok(None),
        },
    }
}

/// How the finished file of a part comes about.
#[derive(Debug)]
pub enum Mp4Plan {
    /// The source is the finished file.
    UseSource,
    /// The finished file is in place and the source is gone.
    UseFinal,
    /// The source is remuxed into `temp`, which then takes the final name. A file that already
    /// has that name is moved to `quarantine` first.
    Remux { quarantine: Option<String>, temp: String },
}

/// Whether `plan` is how the finished file is come by.
pub open spec fn is_mp4_plan(
    source_path: Seq<char>,
    final_path: Seq<char>,
    source_exists: bool,
    final_exists: bool,
    now_millis: i64,
    plan: Mp4Plan,
) -> bool {
    if same_path(source_path, final_path) {
        plan is UseSource
    } else if final_exists && !source_exists {
        plan is UseFinal
    } else {
        &&& plan matches Mp4Plan::Remux { quarantine, temp }
        &&& temp@ == final_path + ".remuxing"@
        &&& opt_text(quarantine) == if final_exists {
            Some(final_path + ".unverified-"@ + decimal_int(now_millis as int))
        } else {
            None
        }
    }
}

/// Decides how the finished file of a part comes about, given which files exist at `now_millis`.
/// A file under the final name beside the source cannot be trusted: it is set aside, and the file
/// is made again.
pub fn plan_mp4(
    source_path: &str,
    final_path: &str,
    source_exists: bool,
    final_exists: bool,
    now_millis: i64,
) -> (r: Mp4Plan)
    ensures
        is_mp4_plan(source_path@, final_path@, source_exists, final_exists, now_millis, r),
{
    if is_same_path(source_path, final_path) {
        return Mp4Plan::UseSource;
    }
    let mut quarantine: Option<String> = None;
    if final_exists {
        if !source_exists {
            return Mp4Plan::UseFinal;
        }
        let mut path = concat(final_path, ".unverified-");
        push_text(&mut path, decimal_i64(now_millis).as_str());
        quarantine = Some(path);
    }
    Mp4Plan::Remux { quarantine, temp: concat(final_path, ".remuxing") }
}

/// Accepts the output of a remux only under the name that was asked for.
pub fn check_remux_output(produced: &str, temp: &str) -> (r: Result<(), String>)
    ensures
        r is Ok <==> same_path(produced@, temp@),
        r matches Err(message) ==> message@ == "Android MP4 finalize 返回了意外路径: "@ + produced@,
{
    if is_same_path(produced, temp) {
        Ok(())
    } else {
        Err(concat("Android MP4 finalize 返回了意外路径: ", produced))
    }
}

/// What is known of a file: whether it is a regular one, and its size.
#[derive(Clone, Copy, Debug, PartialEq, Eq, Structural)]
pub struct FileFacts {
    pub is_file: bool,
    pub len: u64,
}

/// Accepts a recording that is a regular file and not empty.
pub fn verify_nonempty_file(path: &str, facts: &Result<FileFacts, String>) -> (r: Result<
    (),
    String,
>)
    ensures
        r is Ok <==> (*facts matches Ok(f) && f.is_file && f.len > 0),
        r matches Err(message) ==> message@ == match *facts {
            Err(error) => "录像文件不存在 "@ + path@ + ": "@ + error@,
            Ok(_) => "录像文件为空: "@ + path@,
        },
{
    match facts {
        Err(error) => {
            let mut message = "录像文件不存在 ".to_owned();
            push_text(&mut message, path);
            push_text(&mut message, ": ");
            push_text(&mut message, error.as_str());
            Err(message)
        },
        Ok(f) => {
            if !f.is_file || f.len == 0 {
                Err(concat("录像文件为空: ", path))
            } else {
                Ok(())
            }
        },
    }
}

/// The stream that a recording asked for by the user starts with. A room that is not live is
/// refused.
pub fn stream_to_record(probe: Result<ProbeResult, String>) -> (r: Result<ResolvedStream, String>)
    ensures
        match probe {
            Ok(ProbeResult::Live { stream }) => r == Ok::<ResolvedStream, String>(stream),
            Ok(ProbeResult::Offline) => r matches Err(m) && m@ == "主播当前未开播。"@,
            Err(e) => r == Err::<ResolvedStream, String>(e),
        },
{
    match probe {
        Ok(ProbeResult::Live { stream }) => Ok(stream),
        Ok(ProbeResult::Offline) => Err("主播当前未开播。".to_owned()),
        Err(error) => Err(error),
    }
}

/// What happened while the start of a recording was being prepared.
#[derive(Debug)]
pub enum StartEvent {
    /// The recording directory was created, or already there.
    DirectoryReady(Result<(), String>),
    /// The free space was measured.
    SpaceMeasured(Result<u64, String>),
    /// The journal was asked for the session; it may have reported a stale one.
    SessionPrepared(Result<bool, String>),
    /// The upload queue was told that the stale session is over.
    StaleClosed(Result<(), String>),
}

/// What is done next to start a recording.
#[derive(Debug)]
pub enum StartDecision {
    MeasureSpace,
    PrepareSession,
    CloseStale,
    /// Start to record.
    Begin,
    /// Give up, with the reason.
    Refuse(String),
}

/// Whether `decision` is what follows an event on the way to a recording.
pub open spec fn follows_start(event: StartEvent, decision: StartDecision) -> bool {
    match event {
        StartEvent::DirectoryReady(result) => match result {
            Ok(_) => decision is MeasureSpace,
            Err(e) => decision matches StartDecision::Refuse(m) && m@ == "创建录制目录失败: "@ + e@,
        },
        StartEvent::SpaceMeasured(result) => match result {
            Ok(free) => if free >= MIN_START_FREE_BYTES {
                decision is PrepareSession
            } else {
                decision matches StartDecision::Refuse(m) && m@ == "可用存储空间不足 10GB（当前约 "@
                    + gib_text(free as nat)
                    + "GB），拒绝启动新的录像；已有录像不会被强制中断。"@
            },
            Err(e) => decision matches StartDecision::Refuse(m) && m@ == "检查可用磁盘空间失败: "@
                + e@,
        },
        StartEvent::SessionPrepared(result) => match result {
            Ok(stale) => if stale {
                decision is CloseStale
            } else {
                decision is Begin
            },
            Err(e) => decision == StartDecision::Refuse(e),
        },
        StartEvent::StaleClosed(result) => match result {
            Ok(_) => decision is Begin,
            Err(e) => decision matches StartDecision::Refuse(m) && m@
                == "关闭旧 liveSession 失败，为避免拆稿已停止新录制: "@ + e@,
        },
    }
}

/// Decides what follows an event on the way to a recording. A recording begins only with enough
/// free space, with a session of its own in the journal, and after a stale session of the same
/// room has been closed.
pub fn on_start_event(event: StartEvent) -> (r: StartDecision)
    ensures
        follows_start(event, r),
{
    match event {
        StartEvent::DirectoryReady(result) => match result {
            Ok(_) => StartDecision::MeasureSpace,
            Err(e) => StartDecision::Refuse(concat("创建录制目录失败: ", e.as_str())),
        },
        StartEvent::SpaceMeasured(result) => match result {
            Ok(free) => match check_start_space(free) {
                Ok(_) => StartDecision::PrepareSession,
                Err(message) => StartDecision::Refuse(message),
            },
            Err(e) => StartDecision::Refuse(concat("检查可用磁盘空间失败: ", e.as_str())),
        },
        StartEvent::SessionPrepared(result) => match result {
            Ok(stale) => if stale {
                StartDecision::CloseStale
            } else {
                StartDecision::Begin
            },
            Err(e) => StartDecision::Refuse(e),
        },
        StartEvent::StaleClosed(result) => match result {
            Ok(_) => StartDecision::Begin,
            Err(e) => StartDecision::Refuse(
                concat("关闭旧 liveSession 失败，为避免拆稿已停止新录制: ", e.as_str()),
            ),
        },
    }
}

/// The message when a recording runs, but the system was not told to keep the program awake.
pub fn background_failed(error: &str) -> (r: String)
    ensures
        r@ == "录像已启动，但更新 Android 后台保活状态失败: "@ + error@,
{
    concat("录像已启动，但更新 Android 后台保活状态失败: ", error)
}

/// The error that is shown when a recording is over. `ended` is how it ended: with the last error
/// of its session, or without a session at all; `closing` is what went wrong when the session was
/// closed. The last error of the session is the one that stays.
pub fn shown_error(ended: Result<Option<String>, String>, closing: Option<String>) -> (r: Option<
    String,
>)
    ensures
        r == match ended {
            Ok(Some(e)) => Some(e),
            Ok(None) => closing,
            Err(e) => Some(e),
        },
{
    match ended {
        Ok(last_error) => match last_error {
            Some(error) => Some(error),
            None => closing,
        },
        Err(error) => Some(error),
    }
}

/// Every recording is shown as it is: with its room, name, file and start, the earliest first.
pub proof fn law_recordings_are_shown(recordings: Seq<ActiveRecording>, i: int)
    requires
        0 <= i < recordings.len(),
    ensures
        shown(recordings[i]).room_url == recordings[i].room_url,
        shown(recordings[i]).display_name == recordings[i].display_name,
        shown(recordings[i]).current_file == recordings[i].current_file,
        shown(recordings[i]).started_at == recordings[i].started_at,
        ordered(all_shown(recordings)).contains(shown(recordings[i])),
        ordered(all_shown(recordings)).len() == recordings.len(),
        forall|a: int, b: int|
            0 <= a < b < recordings.len() ==> (#[trigger] ordered(
                all_shown(recordings),
            )[a]).started_at <= (#[trigger] ordered(all_shown(recordings))[b]).started_at,
{
    let all = all_shown(recordings);
    law_ordered(all);
    all.to_multiset_ensures();
    ordered(all).to_multiset_ensures();
    assert(all[i] == shown(recordings[i]));
    assert(all.contains(shown(recordings[i])));
    assert(ordered(all).to_multiset().count(shown(recordings[i])) > 0);
    assert forall|a: int, b: int| 0 <= a < b < recordings.len() implies (#[trigger] ordered(
        all,
    )[a]).started_at <= (#[trigger] ordered(all)[b]).started_at by {
        assert(ordered(all)[a].ranks_before(ordered(all)[b]));
    }
}

/// A recording that is begun is there afterwards, as it was asked for and not stopped; the
/// recordings of other rooms stay as they are. Once it ends nothing of it is left.
pub proof fn law_rooms_come_and_go(
    before: Seq<ActiveModel>,
    room_url: Seq<char>,
    display_name: Seq<char>,
    output_dir: Seq<char>,
    started_at: i64,
    other: ActiveModel,
)
    requires
        forall|i: int, j: int|
            0 <= i < j < before.len() ==> (#[trigger] before[i]).room_url != (
            #[trigger] before[j]).room_url,
    ensures
        ({
            let after = rooms_with(before, room_url, display_name, output_dir, started_at);
            &&& after.contains(
                ActiveModel {
                    room_url,
                    display_name,
                    current_file: output_dir,
                    started_at,
                    stop_requested: false,
                },
            )
            &&& other.room_url != room_url ==> (before.contains(other) <==> after.contains(other))
        }),
        ({
            let after = rooms_without(before, room_url);
            &&& forall|i: int|
                0 <= i < after.len() ==> (#[trigger] after[i]).room_url != room_url
            &&& other.room_url != room_url ==> (before.contains(other) <==> after.contains(other))
        }),
{
    let k = first_index(before, records_room(room_url));
    lemma_first_index_found(before, records_room(room_url));
    let entered = ActiveModel {
        room_url,
        display_name,
        current_file: output_dir,
        started_at,
        stop_requested: false,
    };
    let after = rooms_with(before, room_url, display_name, output_dir, started_at);
    assert(after[k] == entered);
    if other.room_url != room_url {
        if before.contains(other) {
            assert(after[before.index_of(other)] == other);
        }
        if after.contains(other) {
            assert(before[after.index_of(other)] == other);
        }
    }
    let left = rooms_without(before, room_url);
    assert forall|i: int| 0 <= i < left.len() implies (#[trigger] left[i]).room_url != room_url by {
        if i < k {
            assert(left[i] == before[i]);
        } else {
            assert(left[i] == before[i + 1]);
            assert(before[k].room_url != before[i + 1].room_url);
        }
    }
    if other.room_url != room_url {
        if before.contains(other) {
            let i = before.index_of(other);
            assert(left[if i < k { i } else { i - 1 }] == other);
        }
        if left.contains(other) {
            let i = left.index_of(other);
            assert(before[if i < k { i } else { i + 1 }] == other);
        }
    }
}

/// A part is handed over in four steps: it is noted in the journal, finished, queued for upload and
/// then struck from the journal. Where all of them succeed, all are taken, in this order.
pub proof fn law_handoff_order(succeeds: spec_fn(HandoffStep) -> bool)
    ensures
        (forall|step: HandoffStep| #[trigger] succeeds(step)) ==> steps_taken(
            HandoffStep::Register,
            succeeds,
        ) == seq![
            HandoffStep::Register,
            HandoffStep::Finalize,
            HandoffStep::Enqueue,
            HandoffStep::Complete,
        ],
        !succeeds(HandoffStep::Register) ==> steps_taken(HandoffStep::Register, succeeds) == seq![
            HandoffStep::Register,
        ],
{
    reveal_with_fuel(steps_taken, 5);
    if forall|step: HandoffStep| #[trigger] succeeds(step) {
        assert(succeeds(HandoffStep::Register) && succeeds(HandoffStep::Finalize) && succeeds(
            HandoffStep::Enqueue,
        ) && succeeds(HandoffStep::Complete));
        assert(steps_taken(HandoffStep::Register, succeeds) =~= seq![
            HandoffStep::Register,
            HandoffStep::Finalize,
            HandoffStep::Enqueue,
            HandoffStep::Complete,
        ]);
    }
}

/// A failure of a hand-over tells the number of the part and what went wrong.
pub proof fn law_failures_are_told(
    step: HandoffStep,
    index: nat,
    error: Seq<char>,
    closing: ClosingStep,
)
    ensures
        ("P"@ + decimal(index)).is_prefix_of(handoff_failure(step, index, error)),
        error.is_suffix_of(handoff_failure(step, index, error)),
        error.is_suffix_of(closing_failure(closing, error)),
{
    let head = "P"@ + decimal(index);
    let t = handoff_failure(step, index, error);
    assert(t.take(head.len() as int) =~= head);
    assert(t.skip(t.len() - error.len()) =~= error);
    let c = closing_failure(closing, error);
    assert(c.skip(c.len() - error.len()) =~= error);
}

/// A size in tenths of gibibytes is off by at most half a tenth, and larger sizes read no smaller.
pub proof fn law_sizes_are_rounded(bytes: nat, more: nat)
    requires
        bytes <= more,
    ensures
        2 * (nearest_tenth_gib(bytes) * 1_073_741_824 - bytes * 10) <= 1_073_741_824,
        2 * (bytes * 10 - nearest_tenth_gib(bytes) * 1_073_741_824) <= 1_073_741_824,
        nearest_tenth_gib(bytes) <= nearest_tenth_gib(more),
{
}

/// A finished file that was never checked is set aside before it is made anew, and never taken for
/// the result while its source is still there. The result is made beside its place.
pub proof fn law_unchecked_file_is_set_aside(
    source_path: Seq<char>,
    final_path: Seq<char>,
    source_exists: bool,
    final_exists: bool,
    now_millis: i64,
    plan: Mp4Plan,
)
    requires
        is_mp4_plan(source_path, final_path, source_exists, final_exists, now_millis, plan),
    ensures
        plan is UseSource <==> same_path(source_path, final_path),
        plan is UseFinal <==> !same_path(source_path, final_path) && final_exists && !source_exists,
        plan matches Mp4Plan::Remux { quarantine, temp } ==> {
            &&& final_path.is_prefix_of(temp@) && temp@ != final_path
            &&& quarantine is Some <==> final_exists
            &&& quarantine matches Some(q) ==> final_path.is_prefix_of(q@) && q@ != final_path
                && decimal_int(now_millis as int).is_suffix_of(q@)
        },
{
    reveal_strlit(".remuxing");
    reveal_strlit(".unverified-");
    let temp = final_path + ".remuxing"@;
    assert(temp.take(final_path.len() as int) =~= final_path);
    let number = decimal_int(now_millis as int);
    let aside = final_path + ".unverified-"@ + number;
    assert(aside.take(final_path.len() as int) =~= final_path);
    assert(aside.skip(aside.len() - number.len()) =~= number);
}

/// A recording begins only once its directory is there, ten gibibytes are free, its session is in
/// the journal and an older session of its room was closed; any failure on the way refuses it.
pub proof fn law_start_goes_step_by_step(event: StartEvent, decision: StartDecision)
    requires
        follows_start(event, decision),
    ensures
        match event {
            StartEvent::DirectoryReady(result) => decision is MeasureSpace <==> result is Ok,
            StartEvent::SpaceMeasured(result) => decision is PrepareSession <==> (
            result matches Ok(free) && free >= 10_737_418_240),
            StartEvent::SessionPrepared(result) => (decision is Begin <==> (
            result matches Ok(stale) && !stale)) && (decision is CloseStale <==> (
            result matches Ok(stale) && stale)),
            StartEvent::StaleClosed(result) => decision is Begin <==> result is Ok,
        },
        decision is Begin ==> event is SessionPrepared || event is StaleClosed,
        decision is Refuse || decision is Begin || decision is MeasureSpace
            || decision is PrepareSession || decision is CloseStale,
{
}

/// A refusal tells what failed.
pub proof fn law_refusals_tell_why(event: StartEvent, decision: StartDecision)
    requires
        follows_start(event, decision),
    ensures
        event matches StartEvent::DirectoryReady(Err(e)) ==> (
        decision matches StartDecision::Refuse(m) && e@.is_suffix_of(m@)),
        event matches StartEvent::SpaceMeasured(Err(e)) ==> (
        decision matches StartDecision::Refuse(m) && e@.is_suffix_of(m@)),
        event matches StartEvent::SessionPrepared(Err(e)) ==> decision == StartDecision::Refuse(e),
        event matches StartEvent::StaleClosed(Err(e)) ==> (
        decision matches StartDecision::Refuse(m) && e@.is_suffix_of(m@)),
{
    if let StartDecision::Refuse(m) = decision {
        let tail = match event {
            StartEvent::DirectoryReady(Err(e)) => e@,
            StartEvent::SpaceMeasured(Err(e)) => e@,
            StartEvent::StaleClosed(Err(e)) => e@,
            _ => m@,
        };
        assert(m@.skip(m@.len() - tail.len()) =~= tail);
    }
}

/// Asking a room to stop stops its recording and no other; asking all to stop stops all. No
/// recording is lost by it.
pub proof fn law_stopping_rooms(
    before: Seq<ActiveModel>,
    room_url: Option<Seq<char>>,
    rooms: Seq<String>,
    i: int,
)
    requires
        are_stopped(before, room_url, rooms),
        0 <= i < before.len(),
        forall|a: int, b: int|
            0 <= a < b < before.len() ==> (#[trigger] before[a]).room_url != (
            #[trigger] before[b]).room_url,
    ensures
        ({
            let after = rooms_stopped(before, room_url);
            let asked = room_url is None || room_url == Some(before[i].room_url);
            &&& after.len() == before.len()
            &&& asked ==> after[i] == (ActiveModel { stop_requested: true, ..before[i] }) && (
            exists|k: int|
                0 <= k < rooms.len() && (#[trigger] rooms[k])@ == before[i].room_url)
            &&& !asked ==> after[i] == before[i]
            &&& rooms.len() <= before.len()
        }),
{
    match room_url {
        Some(url) => {
            let p = records_room(url);
            lemma_first_index_found(before, p);
            if before[i].room_url == url {
                assert forall|k: int| 0 <= k < i implies !p(#[trigger] before[k]) by {
                    assert(before[k].room_url != before[i].room_url);
                }
                lemma_first_index(before, p, i);
                assert(rooms[0]@ == before[i].room_url);
            }
        },
        None => {
            assert(rooms[i]@ == before[i].room_url);
        },
    }
}

} // verus!
