//! The workers that record streamers, and the checks that come before a recording.

use crate::lists::{first_index, lemma_first_index};
use crate::recordings::{format_gib, gib_text};
use crate::replay_sessions::{env_u64, number_or};
use crate::text::{
    blank, char_is_space, decimal, from_chars, is_blank, is_space, lemma_parse_decimal, opt_text,
    parse_unsigned, parsed_unsigned, piece, push_decimal, push_text, to_chars, trim, trimmed,
};
use vstd::prelude::*;

verus! {

/// Free space below which a warning is given, in GiB, unless the environment says otherwise.
pub const DEFAULT_DISK_WARNING_GB: u64 = 100;

/// Free space below which no recording is started, in GiB, unless the environment says otherwise.
pub const DEFAULT_DISK_STOP_GB: u64 = 30;

/// Number of bytes in a GiB.
pub const GIB: u64 = 1_073_741_824;

/// What a worker does.
#[derive(Clone, Copy, Debug, PartialEq, Eq, Structural)]
pub enum Stage {
    Download,
    Upload,
}

/// The state of a worker in one of its stages.
#[derive(Clone, Copy, Debug, PartialEq, Eq, Structural)]
pub enum WorkerStatus {
    /// It works on the task with this number.
    Working(u64),
    /// It asks whether the streamer is live.
    Pending,
    /// It waits.
    Idle,
    /// It is switched off.
    Pause,
}

impl Default for WorkerStatus {
    fn default() -> (r: Self)
        ensures
            r == WorkerStatus::Idle,
    {
        WorkerStatus::Idle
    }
}

impl WorkerStatus {
    /// The name of a state.
    pub open spec fn word(self) -> Seq<char> {
        match self {
            WorkerStatus::Working(_) => "Working"@,
            WorkerStatus::Pending => "Pending"@,
            WorkerStatus::Idle => "Idle"@,
            WorkerStatus::Pause => "Pause"@,
        }
    }

    /// The name of a state.
    pub fn name(self) -> (r: &'static str)
        ensures
            r@ == self.word(),
    {
        match self {
            WorkerStatus::Working(_) => "Working",
            WorkerStatus::Pending => "Pending",
            WorkerStatus::Idle => "Idle",
            WorkerStatus::Pause => "Pause",
        }
    }
}

/// The worker of a streamer.
#[derive(Clone, Copy, Debug)]
pub struct Worker {
    pub live_streamer_id: i64,
    pub downloader_status: WorkerStatus,
    pub uploader_status: WorkerStatus,
}

impl PartialEq for Worker {
    fn eq(&self, other: &Self) -> (r: bool) {
        self.live_streamer_id == other.live_streamer_id
    }
}

impl vstd::std_specs::cmp::PartialEqSpecImpl for Worker {
    open spec fn obeys_eq_spec() -> bool {
        true
    }

    open spec fn eq_spec(&self, other: &Self) -> bool {
        self.live_streamer_id == other.live_streamer_id
    }
}

impl Worker {
    /// A worker that waits.
    pub fn new(live_streamer_id: i64) -> (r: Self)
        ensures
            r.live_streamer_id == live_streamer_id,
            r.downloader_status == WorkerStatus::Idle,
            r.uploader_status == WorkerStatus::Idle,
    {
        Worker {
            live_streamer_id,
            downloader_status: WorkerStatus::Idle,
            uploader_status: WorkerStatus::Idle,
        }
    }

    /// The streamer of the worker.
    pub fn id(&self) -> (r: i64)
        ensures
            r == self.live_streamer_id,
    {
        self.live_streamer_id
    }

    /// The state of the worker in a stage.
    pub open spec fn status_in(self, stage: Stage) -> WorkerStatus {
        match stage {
            Stage::Download => self.downloader_status,
            Stage::Upload => self.uploader_status,
        }
    }

    /// The state of the worker in a stage.
    pub fn status(&self, stage: Stage) -> (r: WorkerStatus)
        ensures
            r == self.status_in(stage),
    {
        match stage {
            Stage::Download => self.downloader_status,
            Stage::Upload => self.uploader_status,
        }
    }

    /// The task that has to be stopped when a worker changes its state: the one that it records
    /// with, unless it goes on recording.
    pub open spec fn task_to_stop(self, stage: Stage, status: WorkerStatus) -> Option<u64> {
        if stage == Stage::Download && !(status is Working) {
            match self.downloader_status {
                WorkerStatus::Working(task) => Some(task),
                _ => None,
            }
        } else {
            None
        }
    }

    /// Changes the state of the worker. Returns the task that has to be stopped, if there is one.
    pub fn change_status(&mut self, stage: Stage, status: WorkerStatus) -> (r: Option<u64>)
        ensures
            r == old(self).task_to_stop(stage, status),
            final(self).live_streamer_id == old(self).live_streamer_id,
            final(self).status_in(stage) == status,
            stage == Stage::Download ==> final(self).uploader_status == old(self).uploader_status,
            stage == Stage::Upload ==> final(self).downloader_status
                == old(self).downloader_status,
    {
        match stage {
            Stage::Download => {
                let task = match self.downloader_status {
                    WorkerStatus::Working(task) => match status {
                        WorkerStatus::Working(_) => None,
                        _ => Some(task),
                    },
                    _ => None,
                };
                self.downloader_status = status;
                task
            },
            Stage::Upload => {
                self.uploader_status = status;
                None
            },
        }
    }
}

/// The predicate of being the worker of a streamer.
pub open spec fn is_worker_of(id: i64) -> spec_fn(Worker) -> bool {
    |w: Worker| w.live_streamer_id == id
}

/// Finds the worker of a streamer.
pub fn find_worker(workers: &Vec<Worker>, id: i64) -> (r: Option<&Worker>)
    ensures
        ({
            let k = first_index(workers@, is_worker_of(id));
            if k < workers@.len() {
                r == Some(&workers@[k])
            } else {
                r is None
            }
        }),
{
    let mut i: usize = 0;
    while i < workers.len()
        invariant
            i <= workers.len(),
            forall|k: int| 0 <= k < i ==> !is_worker_of(id)(#[trigger] workers@[k]),
        decreases workers.len() - i,
    {
        if workers[i].live_streamer_id == id {
            proof {
                lemma_first_index(workers@, is_worker_of(id), i as int);
            }
            return Some(&workers[i]);
        }
        i = i + 1;
    }
    proof {
        lemma_first_index(workers@, is_worker_of(id), i as int);
    }
    None
}

/// The tasks of the workers that record.
pub open spec fn running_tasks(workers: Seq<Worker>) -> Seq<u64>
    decreases workers.len(),
{
    if workers.len() == 0 {
        Seq::empty()
    } else {
        match workers.last().downloader_status {
            WorkerStatus::Working(task) => running_tasks(workers.drop_last()).push(task),
            _ => running_tasks(workers.drop_last()),
        }
    }
}

/// Lets all workers wait. Returns the tasks that have to be stopped.
pub fn cleanup(workers: &mut Vec<Worker>) -> (r: Vec<u64>)
    ensures
        r@ == running_tasks(old(workers)@),
        final(workers)@ == old(workers)@.map_values(
            |w: Worker| Worker { downloader_status: WorkerStatus::Idle, ..w },
        ),
{
    let ghost before = workers@;
    let mut tasks: Vec<u64> = Vec::new();
    let mut i: usize = 0;
    while i < workers.len()
        invariant
            i <= before.len(),
            workers@.len() == before.len(),
            tasks@ == running_tasks(before.take(i as int)),
            forall|k: int|
                0 <= k < i ==> (#[trigger] workers@[k]) == (Worker {
                    downloader_status: WorkerStatus::Idle,
                    ..before[k]
                }),
            forall|k: int| i <= k < before.len() ==> (#[trigger] workers@[k]) == before[k],
        decreases before.len() - i,
    {
        proof {
            assert(before.take(i + 1).drop_last() =~= before.take(i as int));
        }
        let mut worker = workers[i];
        if let Some(task) = worker.change_status(Stage::Download, WorkerStatus::Idle) {
            tasks.push(task);
        }
        workers.set(i, worker);
        i = i + 1;
    }
    assert(before.take(i as int) =~= before);
    assert(workers@ =~= before.map_values(
        |w: Worker| Worker { downloader_status: WorkerStatus::Idle, ..w },
    ));
    tasks
}

/// The directory that recordings go to: what the environment says, or a directory on the second
/// drive where there is one, or a directory beside the program.
pub fn recording_output_dir(configured: Option<&str>, second_drive: bool) -> (r: String)
    ensures
        r@ == match configured {
            Some(v) if !is_blank(v@) => v@,
            _ => if second_drive {
                "D:\\LiveReplay\\Recordings"@
            } else {
                "recordings"@
            },
        },
{
    if let Some(value) = configured {
        if !blank(value) {
            return value.to_owned();
        }
    }
    if second_drive {
        "D:\\LiveReplay\\Recordings".to_owned()
    } else {
        "recordings".to_owned()
    }
}

/// The directory that is used: the wanted one, unless it could not be made.
pub fn usable_directory(path: String, made: bool) -> (r: String)
    ensures
        r@ == if made {
            path@
        } else {
            "."@
        },
{
    if made {
        path
    } else {
        ".".to_owned()
    }
}

/// How much space there is for a recording.
#[derive(Clone, Copy, Debug, PartialEq, Eq, Structural)]
pub enum RecordingSpace {
    /// It is not known.
    Unknown,
    /// Enough.
    Enough,
    /// Less than the threshold of the warning.
    Low,
}

/// A number of GiB in bytes, within the range of the type.
pub open spec fn gib_bytes(gib: u64) -> nat {
    if gib * GIB > u64::MAX {
        u64::MAX as nat
    } else {
        (gib * GIB) as nat
    }
}

fn bytes_of_gib(gib: u64) -> (r: u64)
    ensures
        r == gib_bytes(gib),
{
    match gib.checked_mul(GIB) {
        Some(bytes) => bytes,
        None => u64::MAX,
    }
}

/// The value of an environment variable as text.
pub open spec fn given(value: Option<&str>) -> Option<Seq<char>> {
    match value {
        Some(v) => Some(v@),
        None => None,
    }
}

/// Whether `answer` says if a recording may start with this much free space.
pub open spec fn is_space_answer(
    directory: Seq<char>,
    free: Option<u64>,
    warning: Option<Seq<char>>,
    stop: Option<Seq<char>>,
    answer: Result<RecordingSpace, String>,
) -> bool {
    let stop_gb = number_or(stop, DEFAULT_DISK_STOP_GB);
    let warning_gb = number_or(warning, DEFAULT_DISK_WARNING_GB);
    match free {
        None => answer == Ok::<RecordingSpace, String>(RecordingSpace::Unknown),
        Some(bytes) => if bytes < gib_bytes(stop_gb) {
            answer matches Err(m) && m@ == "录像目录 "@ + directory + " 仅剩 "@ + gib_text(
                bytes as nat,
            ) + " GB，低于停止阈值 "@ + decimal(stop_gb as nat) + " GB；不会开始新的录像"@
        } else if bytes < gib_bytes(warning_gb) {
            answer == Ok::<RecordingSpace, String>(RecordingSpace::Low)
        } else {
            answer == Ok::<RecordingSpace, String>(RecordingSpace::Enough)
        },
    }
}

/// Checks that there is enough space in `directory` for a recording. `warning` and `stop` are the
/// thresholds in the environment.
pub fn ensure_recording_space(
    directory: &str,
    free: Option<u64>,
    warning: Option<&str>,
    stop: Option<&str>,
) -> (r: Result<RecordingSpace, String>)
    ensures
        is_space_answer(directory@, free, given(warning), given(stop), r),
{
    let bytes: u64 = match free {
        Some(bytes) => bytes,
        None => {
            return Ok(RecordingSpace::Unknown);
        },
    };
    let warning_gb: u64 = env_u64(warning, DEFAULT_DISK_WARNING_GB);
    let stop_gb: u64 = env_u64(stop, DEFAULT_DISK_STOP_GB);
    if bytes < bytes_of_gib(stop_gb) {
        let mut message = "录像目录 ".to_owned();
        push_text(&mut message, directory);
        push_text(&mut message, " 仅剩 ");
        push_text(&mut message, format_gib(bytes).as_str());
        push_text(&mut message, " GB，低于停止阈值 ");
        push_decimal(&mut message, stop_gb);
        push_text(&mut message, " GB；不会开始新的录像");
        return Err(message);
    }
    if bytes < bytes_of_gib(warning_gb) {
        return Ok(RecordingSpace::Low);
    }
    Ok(RecordingSpace::Enough)
}

/// Where the line begins that contains the place `end`.
pub open spec fn line_start(s: Seq<char>, end: int) -> int
    decreases end,
{
    if end <= 0 || s[end - 1] == '\n' {
        end
    } else {
        line_start(s, end - 1)
    }
}

/// Where the last line of a text ends, its line break left out.
pub open spec fn last_line_end(s: Seq<char>) -> int {
    if s.len() > 0 && s.last() == '\n' {
        s.len() - 1
    } else {
        s.len() as int
    }
}

/// The last line of a text, unless the text is empty.
pub open spec fn last_line(s: Seq<char>) -> Option<Seq<char>> {
    if s.len() == 0 {
        None
    } else {
        let end = last_line_end(s);
        Some(s.subrange(line_start(s, end), end))
    }
}

/// The first place at or behind `from` that holds a space, or the end.
pub open spec fn word_end(s: Seq<char>, from: int) -> int
    decreases s.len() - from,
{
    if from < 0 || from >= s.len() || is_space(s[from]) {
        from
    } else {
        word_end(s, from + 1)
    }
}

/// The first place at or behind `from` that holds no space, or the end.
pub open spec fn word_start(s: Seq<char>, from: int) -> int
    decreases s.len() - from,
{
    if from < 0 || from >= s.len() || !is_space(s[from]) {
        from
    } else {
        word_start(s, from + 1)
    }
}

/// The word with the number `n`, counted from zero, among those at or behind `from`.
pub open spec fn word_at(s: Seq<char>, from: int, n: nat) -> Option<Seq<char>>
    decreases n,
{
    let start = word_start(s, from);
    let end = word_end(s, start);
    if start >= s.len() {
        None
    } else if n == 0 {
        Some(s.subrange(start, end))
    } else {
        word_at(s, end, (n - 1) as nat)
    }
}

fn find_word_start(v: &Vec<char>, from: usize) -> (r: usize)
    requires
        from <= v.len(),
    ensures
        from <= r <= v.len(),
        r == word_start(v@, from as int),
{
    let mut i: usize = from;
    while i < v.len() && char_is_space(v[i])
        invariant
            from <= i <= v.len(),
            word_start(v@, from as int) == word_start(v@, i as int),
        decreases v.len() - i,
    {
        i = i + 1;
    }
    i
}

fn find_word_end(v: &Vec<char>, from: usize) -> (r: usize)
    requires
        from <= v.len(),
    ensures
        from <= r <= v.len(),
        r == word_end(v@, from as int),
{
    let mut i: usize = from;
    while i < v.len() && !char_is_space(v[i])
        invariant
            from <= i <= v.len(),
            word_end(v@, from as int) == word_end(v@, i as int),
        decreases v.len() - i,
    {
        i = i + 1;
    }
    i
}

fn nth_word(v: &Vec<char>, n: usize) -> (r: Option<String>)
    ensures
        opt_text(r) == word_at(v@, 0, n as nat),
{
    let mut from: usize = 0;
    let mut left: usize = n;
    loop
        invariant
            from <= v.len(),
            word_at(v@, 0, n as nat) == word_at(v@, from as int, left as nat),
        decreases left,
    {
        let start: usize = find_word_start(v, from);
        let end: usize = find_word_end(v, start);
        if start >= v.len() {
            return None;
        }
        if left == 0 {
            return Some(from_chars(piece(v, start, end).as_slice()));
        }
        from = end;
        left = left - 1;
    }
}

/// The free space that the last line of a report by `df -Pk` tells, in bytes: its fourth word, a
/// number of KiB.
pub open spec fn reported_space(report: Seq<char>) -> Option<nat> {
    match last_line(report) {
        Some(line) => match word_at(line, 0, 3) {
            Some(word) => match parsed_unsigned(word, u64::MAX as nat) {
                Some(kib) => Some(
                    if kib * 1024 > u64::MAX {
                        u64::MAX as nat
                    } else {
                        (kib * 1024) as nat
                    },
                ),
                None => None,
            },
            None => None,
        },
        None => None,
    }
}

/// Reads the free space from a report by `df -Pk`.
pub fn free_space_bytes(report: &str) -> (r: Option<u64>)
    ensures
        match r {
            Some(n) => reported_space(report@) == Some(n as nat),
            None => reported_space(report@) is None,
        },
{
    let v = to_chars(report);
    if v.len() == 0 {
        return None;
    }
    let end: usize = if v[v.len() - 1] == '\n' {
        v.len() - 1
    } else {
        v.len()
    };
    let mut start: usize = end;
    while start > 0 && v[start - 1] != '\n'
        invariant
            start <= end <= v.len(),
            line_start(v@, end as int) == line_start(v@, start as int),
        decreases start,
    {
        start = start - 1;
    }
    let line = piece(&v, start, end);
    assert(line@ == v@.subrange(start as int, end as int));
    let word = match nth_word(&line, 3) {
        Some(word) => word,
        None => {
            return None;
        },
    };
    match parse_unsigned(word.as_str(), u64::MAX) {
        Some(kib) => match kib.checked_mul(1024) {
            Some(bytes) => Some(bytes),
            None => Some(u64::MAX),
        },
        None => None,
    }
}

/// Reads the free space from a report that holds nothing but a number.
pub fn free_space_number(report: &str) -> (r: Option<u64>)
    ensures
        match r {
            Some(n) => parsed_unsigned(trimmed(report@), u64::MAX as nat) == Some(n as nat),
            None => parsed_unsigned(trimmed(report@), u64::MAX as nat) is None,
        },
{
    parse_unsigned(trim(report).as_str(), u64::MAX)
}

/// A worker that leaves off recording has its task stopped; one that begins to record, or goes on,
/// does not.
pub proof fn law_left_recordings_stop(worker: Worker, task: u64, status: WorkerStatus)
    requires
        worker.downloader_status == WorkerStatus::Working(task),
    ensures
        !(status is Working) ==> worker.task_to_stop(Stage::Download, status) == Some(task),
        status is Working ==> worker.task_to_stop(Stage::Download, status) is None,
{
}

/// The tasks that run are those of the workers that are working, all of them.
pub proof fn law_running_tasks(workers: Seq<Worker>, task: u64)
    ensures
        running_tasks(workers).contains(task) <==> exists|i: int|
            0 <= i < workers.len() && (#[trigger] workers[i]).downloader_status
                == WorkerStatus::Working(task),
        running_tasks(workers).len() <= workers.len(),
    decreases workers.len(),
{
    if workers.len() > 0 {
        let rest = workers.drop_last();
        law_running_tasks(rest, task);
        let earlier = running_tasks(rest);
        let all = running_tasks(workers);
        if all.contains(task) {
            let k = all.index_of(task);
            if k < earlier.len() {
                assert(earlier[k] == task);
                assert(earlier.contains(task));
                let i = choose|i: int|
                    0 <= i < rest.len() && (#[trigger] rest[i]).downloader_status
                        == WorkerStatus::Working(task);
                assert(workers[i] == rest[i]);
            } else {
                assert(workers[workers.len() - 1].downloader_status == WorkerStatus::Working(task));
            }
        }
        if exists|i: int|
            0 <= i < workers.len() && (#[trigger] workers[i]).downloader_status
                == WorkerStatus::Working(task) {
            let i = choose|i: int|
                0 <= i < workers.len() && (#[trigger] workers[i]).downloader_status
                    == WorkerStatus::Working(task);
            if i < rest.len() {
                assert(rest[i] == workers[i]);
                assert(all[earlier.index_of(task)] == task);
            } else {
                assert(all[earlier.len() as int] == task);
            }
        }
    }
}

/// A worker has one status for recording and one for uploading; only what stops recording stops a
/// task.
pub proof fn law_stages_are_apart(worker: Worker, status: WorkerStatus)
    ensures
        worker.status_in(Stage::Download) == worker.downloader_status,
        worker.status_in(Stage::Upload) == worker.uploader_status,
        worker.task_to_stop(Stage::Upload, status) is None,
        !(worker.downloader_status is Working) ==> worker.task_to_stop(Stage::Download, status)
            is None,
        is_worker_of(worker.live_streamer_id)(worker),
{
}

/// A recording is refused below the threshold where it has to stop, and warned about below the other
/// one; without a measure it may start.
pub proof fn law_space_for_recording(
    directory: Seq<char>,
    free: Option<u64>,
    warning: Option<Seq<char>>,
    stop: Option<Seq<char>>,
    answer: Result<RecordingSpace, String>,
)
    requires
        is_space_answer(directory, free, warning, stop, answer),
    ensures
        free is None ==> answer == Ok::<RecordingSpace, String>(RecordingSpace::Unknown),
        free matches Some(bytes) ==> (answer is Err <==> bytes < gib_bytes(
            number_or(stop, DEFAULT_DISK_STOP_GB),
        )),
        free matches Some(bytes) ==> (answer == Ok::<RecordingSpace, String>(RecordingSpace::Low)
            <==> bytes >= gib_bytes(number_or(stop, DEFAULT_DISK_STOP_GB)) && bytes < gib_bytes(
            number_or(warning, DEFAULT_DISK_WARNING_GB),
        )),
        stop is None && (free matches Some(bytes) && bytes < 30 * 1_073_741_824) ==> answer is Err,
        stop is None && (free matches Some(bytes) && bytes >= 30 * 1_073_741_824) ==> answer is Ok,
        answer is Ok && answer->Ok_0 == RecordingSpace::Enough ==> free is Some,
{
}

/// Gibibytes are counted in bytes, as far as these can be counted.
pub proof fn law_gib_bytes(gib: u64, more: u64)
    requires
        gib <= more,
    ensures
        gib * 1_073_741_824 <= u64::MAX ==> gib_bytes(gib) == gib * 1_073_741_824,
        gib_bytes(gib) <= gib_bytes(more) <= u64::MAX,
{
}

proof fn lemma_line_start(s: Seq<char>, end: int)
    requires
        0 <= end <= s.len(),
    ensures
        0 <= line_start(s, end) <= end,
        forall|i: int| line_start(s, end) <= i < end ==> #[trigger] s[i] != '\n',
        line_start(s, end) > 0 ==> s[line_start(s, end) - 1] == '\n',
    decreases end,
{
    if end > 0 && s[end - 1] != '\n' {
        lemma_line_start(s, end - 1);
    }
}

/// The last line of a text stands at its end, up to a closing line break, and holds no line break.
pub proof fn law_last_line(s: Seq<char>)
    ensures
        last_line(s) is Some <==> s.len() > 0,
        last_line(s) matches Some(line) ==> {
            let end = if s.last() == '\n' {
                s.len() - 1
            } else {
                s.len() as int
            };
            &&& line.len() <= end
            &&& line == s.subrange(end - line.len(), end)
            &&& forall|i: int| 0 <= i < line.len() ==> #[trigger] line[i] != '\n'
            &&& line.len() < end ==> s[end - line.len() - 1] == '\n'
        },
{
    if s.len() > 0 {
        let end = last_line_end(s);
        lemma_line_start(s, end);
    }
}

proof fn lemma_word_bounds(s: Seq<char>, from: int)
    requires
        0 <= from <= s.len(),
    ensures
        from <= word_start(s, from) <= s.len(),
        from <= word_end(s, from) <= s.len(),
        forall|i: int| from <= i < word_start(s, from) ==> is_space(#[trigger] s[i]),
        forall|i: int| from <= i < word_end(s, from) ==> !is_space(#[trigger] s[i]),
        word_start(s, from) < s.len() ==> !is_space(s[word_start(s, from)]),
        word_end(s, from) < s.len() ==> is_space(s[word_end(s, from)]),
    decreases s.len() - from,
{
    if from < s.len() {
        lemma_word_bounds(s, from + 1);
    }
}

proof fn lemma_words_shifted(p: Seq<char>, s: Seq<char>, from: int)
    requires
        0 <= from <= s.len(),
    ensures
        word_start(p + s, p.len() + from) == p.len() + word_start(s, from),
        word_end(p + s, p.len() + from) == p.len() + word_end(s, from),
    decreases s.len() - from,
{
    if from < s.len() {
        assert((p + s)[p.len() + from] == s[from]);
        lemma_words_shifted(p, s, from + 1);
    }
}

proof fn lemma_word_at_shifted(p: Seq<char>, s: Seq<char>, from: int, n: nat)
    requires
        0 <= from <= s.len(),
    ensures
        word_at(p + s, p.len() + from, n) == word_at(s, from, n),
    decreases n,
{
    let start = word_start(s, from);
    lemma_word_bounds(s, from);
    lemma_words_shifted(p, s, from);
    lemma_word_bounds(s, start);
    lemma_words_shifted(p, s, start);
    let end = word_end(s, start);
    if start < s.len() {
        if n == 0 {
            assert((p + s).subrange(p.len() + start, p.len() + end) =~= s.subrange(start, end));
        } else {
            lemma_word_at_shifted(p, s, end, (n - 1) as nat);
        }
    }
}

/// The words of a line are what stands between its spaces: the first is `word`, and the following
/// ones are the words of the rest.
pub proof fn law_words(word: Seq<char>, rest: Seq<char>, n: nat)
    requires
        word.len() > 0,
        forall|i: int| 0 <= i < word.len() ==> !is_space(#[trigger] word[i]),
    ensures
        word_at(word + seq![' '] + rest, 0, 0) == Some(word),
        word_at(word + seq![' '] + rest, 0, n + 1) == word_at(rest, 0, n),
        word_at(seq![' '] + rest, 0, n) == word_at(rest, 0, n),
        word_at(Seq::empty(), 0, n) is None,
{
    let s = word + seq![' '] + rest;
    let k = word.len() as int;
    assert(s[0] == word[0]);
    assert(word_start(s, 0) == 0);
    lemma_word_bounds(s, 0);
    assert(s[k] == ' ');
    assert(word_end(s, 0) == k) by {
        let e = word_end(s, 0);
        if e < k {
            assert(s[e] == word[e]);
        }
    }
    assert(s.subrange(0, k) =~= word);
    let head = word + seq![' '];
    assert(s =~= head + rest);
    lemma_word_at_skips(s, k, n);
    lemma_word_at_shifted(head, rest, 0, n);
    assert(word_at(s, k + 1, n) == word_at(rest, 0, n));
    let t = seq![' '] + rest;
    assert(t[0] == ' ');
    lemma_word_at_skips(t, 0, n);
    lemma_word_at_shifted(seq![' '], rest, 0, n);
}

proof fn lemma_word_at_skips(s: Seq<char>, from: int, n: nat)
    requires
        0 <= from < s.len(),
        is_space(s[from]),
    ensures
        word_at(s, from, n) == word_at(s, from + 1, n),
{
    assert(word_start(s, from) == word_start(s, from + 1));
}

/// The free space is the fourth word of the last line, in units of 1024 bytes.
pub proof fn law_free_space(report: Seq<char>, line: Seq<char>, kib: u64)
    requires
        last_line(report) == Some(line),
        word_at(line, 0, 3) == Some(decimal(kib as nat)),
    ensures
        kib * 1024 <= u64::MAX ==> reported_space(report) == Some((kib * 1024) as nat),
        kib * 1024 > u64::MAX ==> reported_space(report) == Some(u64::MAX as nat),
{
    lemma_parse_decimal(kib as nat, u64::MAX as nat);
}

} // verus!
