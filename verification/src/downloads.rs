//! Downloads of a live stream: how they are cut into files, when they are tried again, and where
//! their files go.

use crate::naming::{join_path, path_in};
use crate::paths::{with_extension, with_extension_of};
use crate::text::{
    concat, decimal, is_digit, lemma_decimal_denotes, lemma_parse_decimal, lemma_split_first_at,
    lemma_split_first_none, parse_unsigned, parsed_unsigned, split_first, split_once,
};
use std::collections::HashMap;
use vstd::arithmetic::power2::{lemma2_to64, lemma_pow2_pos, lemma_pow2_unfold};
use vstd::prelude::*;

verus! {

/// Size at which a recording is cut, in bytes.
pub const LIVE_REPLAY_SEGMENT_BYTES: u64 = 15_000_000_000;

/// Time that a download takes at least when it ends, in milliseconds.
pub const DOWNLOAD_FAILURE_COOLDOWN_MS: u64 = 5_000;

/// Length of a file where nothing is configured.
pub const DEFAULT_SEGMENT_TIME: &'static str = "01:00:00";

/// How a stream is downloaded.
#[derive(Debug)]
pub struct DownloadConfig {
    /// The address of the stream.
    pub url: String,
    /// Length at which the recording is cut, as `HH:MM:SS`.
    pub segment_time: Option<String>,
    /// Size at which the recording is cut, in bytes.
    pub file_size: Option<u64>,
    /// Headers of the requests.
    pub headers: HashMap<String, String>,
    /// Template of the file names.
    pub filename_template: String,
    /// The directory of the files.
    pub output_dir: String,
    /// The extension of the files.
    pub suffix: String,
}

impl Default for DownloadConfig {
    fn default() -> (r: Self)
        ensures
            r.url@ == ""@,
            r.segment_time is None,
            r.file_size is None,
            r.headers@ == Map::<String, String>::empty(),
            r.filename_template@ == ""@,
            r.output_dir@ == ""@,
            r.suffix@ == ""@,
    {
        DownloadConfig {
            url: "".to_owned(),
            segment_time: None,
            file_size: None,
            headers: HashMap::new(),
            filename_template: "".to_owned(),
            output_dir: "".to_owned(),
            suffix: "".to_owned(),
        }
    }
}

impl DownloadConfig {
    /// The configuration of a download: cut by time, after an hour unless something else is
    /// configured. The extension is the configured one, or that of the stream.
    pub fn new(
        url: String,
        segment_time: Option<String>,
        headers: HashMap<String, String>,
        filename_template: String,
        output_dir: String,
        format: Option<String>,
        stream_suffix: String,
    ) -> (r: Self)
        ensures
            r.url == url,
            r.segment_time matches Some(t) && t@ == match segment_time {
                Some(s) => s@,
                None => DEFAULT_SEGMENT_TIME@,
            },
            r.file_size is None,
            r.headers == headers,
            r.filename_template == filename_template,
            r.output_dir == output_dir,
            r.suffix == match format {
                Some(f) => f,
                None => stream_suffix,
            },
    {
        let segment_time = match segment_time {
            Some(time) => time,
            None => DEFAULT_SEGMENT_TIME.to_owned(),
        };
        let suffix = match format {
            Some(format) => format,
            None => stream_suffix,
        };
        DownloadConfig {
            url,
            segment_time: Some(segment_time),
            file_size: None,
            headers,
            filename_template,
            output_dir,
            suffix,
        }
    }

    /// The path of an output file with the name `name`.
    pub fn generate_output_filename(&self, name: &str) -> (r: String)
        ensures
            r@ == path_in(self.output_dir@, name@),
    {
        join_path(self.output_dir.as_str(), name)
    }

    /// Lets the recording be cut by size alone, whatever is configured.
    pub fn apply_live_replay_segment_policy(&mut self)
        ensures
            *final(self) == (DownloadConfig {
                segment_time: None,
                file_size: Some(LIVE_REPLAY_SEGMENT_BYTES),
                ..*old(self)
            }),
    {
        self.segment_time = None;
        self.file_size = Some(LIVE_REPLAY_SEGMENT_BYTES);
    }
}

/// The programs that streams can be downloaded with.
#[derive(Clone, Copy, Debug, PartialEq, Eq, Structural)]
pub enum DownloaderType {
    Ytarchive,
    SyncDownloader,
    StreamGears,
    Ffmpeg,
    FfmpegExternal,
    FfmpegInternal,
    Streamlink,
    YtDlp,
}

impl DownloaderType {
    /// The name of a program in the configuration.
    pub open spec fn word(self) -> Seq<char> {
        match self {
            DownloaderType::Ytarchive => "ytarchive"@,
            DownloaderType::SyncDownloader => "sync-downloader"@,
            DownloaderType::StreamGears => "stream-gears"@,
            DownloaderType::Ffmpeg => "ffmpeg"@,
            DownloaderType::FfmpegExternal => "ffmpeg-external"@,
            DownloaderType::FfmpegInternal => "ffmpeg-internal"@,
            DownloaderType::Streamlink => "streamlink"@,
            DownloaderType::YtDlp => "yt-dlp"@,
        }
    }

    /// The name of a program in the configuration.
    pub fn name(self) -> (r: &'static str)
        ensures
            r@ == self.word(),
    {
        match self {
            DownloaderType::Ytarchive => "ytarchive",
            DownloaderType::SyncDownloader => "sync-downloader",
            DownloaderType::StreamGears => "stream-gears",
            DownloaderType::Ffmpeg => "ffmpeg",
            DownloaderType::FfmpegExternal => "ffmpeg-external",
            DownloaderType::FfmpegInternal => "ffmpeg-internal",
            DownloaderType::Streamlink => "streamlink",
            DownloaderType::YtDlp => "yt-dlp",
        }
    }
}

/// The downloaders that there are.
#[derive(Clone, Copy, Debug, PartialEq, Eq, Structural)]
pub enum DownloaderRuntime {
    /// ffmpeg, which cuts files from outside.
    Ffmpeg,
    /// The built-in downloader.
    StreamGears,
    StreamLink,
    YtDlp,
}

impl DownloaderRuntime {
    /// The downloader that stands for a configured program: the built-in one, unless it is ffmpeg.
    pub fn from_type(downloader_type: DownloaderType) -> (r: Self)
        ensures
            r == if downloader_type == DownloaderType::Ffmpeg {
                DownloaderRuntime::Ffmpeg
            } else {
                DownloaderRuntime::StreamGears
            },
    {
        match downloader_type {
            DownloaderType::Ffmpeg => DownloaderRuntime::Ffmpeg,
            _ => DownloaderRuntime::StreamGears,
        }
    }
}

/// A finished file.
#[derive(Debug)]
pub struct SegmentInfo {
    pub prev_file_path: String,
    pub danmaku_file_path: Option<String>,
    pub next_file_path: Option<String>,
    /// Its number, counted from zero.
    pub segment_index: usize,
}

impl SegmentInfo {
    /// A finished file.
    pub fn new(
        prev_file_path: String,
        danmaku_file_path: Option<String>,
        next_file_path: Option<String>,
        segment_index: usize,
    ) -> (r: Self)
        ensures
            r == (SegmentInfo {
                prev_file_path,
                danmaku_file_path,
                next_file_path,
                segment_index,
            }),
    {
        SegmentInfo { prev_file_path, danmaku_file_path, next_file_path, segment_index }
    }
}

/// What a downloader reports while it runs.
#[derive(Debug)]
pub enum SegmentEvent {
    /// A file was begun.
    Start { next_file_path: String },
    /// A file is finished.
    Segment(SegmentInfo),
}

/// How a download ended.
#[derive(Debug)]
pub enum DownloadStatus {
    Downloading,
    /// The file is full; the next one follows.
    SegmentCompleted,
    /// The stream has ended.
    StreamEnded,
    Error(String),
}

/// What came of reading the beginning of a stream as the header of an FLV file.
#[derive(Debug)]
pub enum HeaderRead {
    /// It is one.
    Flv,
    /// The stream ended before it was complete; this much was missing, in words.
    Incomplete(String),
    /// It is something else.
    Other,
}

/// The formats that a stream is read in.
#[derive(Clone, Copy, Debug, PartialEq, Eq, Structural)]
pub enum StreamFormat {
    Flv,
    Hls,
}

/// The format of a stream: what does not begin like an FLV file is taken for a playlist.
pub fn stream_format(read: HeaderRead) -> (r: Result<StreamFormat, String>)
    ensures
        match read {
            HeaderRead::Flv => r == Ok::<StreamFormat, String>(StreamFormat::Flv),
            HeaderRead::Incomplete(needed) => r matches Err(m) && m@
                == "直播流头部数据不完整："@ + needed@,
            HeaderRead::Other => r == Ok::<StreamFormat, String>(StreamFormat::Hls),
        },
{
    match read {
        HeaderRead::Flv => Ok(StreamFormat::Flv),
        HeaderRead::Incomplete(needed) => Err(
            concat("直播流头部数据不完整：", needed.as_str()),
        ),
        HeaderRead::Other => Ok(StreamFormat::Hls),
    }
}

/// True when nothing is to follow a download at once: the stream ended, or it failed.
pub open spec fn needs_cooldown(result: Result<DownloadStatus, String>) -> bool {
    match result {
        Err(_) => true,
        Ok(status) => status is StreamEnded || status is Error,
    }
}

/// How long to wait after a download that took `elapsed_ms` milliseconds, in milliseconds. A
/// downloader that fails at once is so not started over and over; a file that is full is followed
/// by the next one at once.
pub fn cooldown_ms(result: &Result<DownloadStatus, String>, elapsed_ms: u64) -> (r: u64)
    ensures
        r == if needs_cooldown(*result) && elapsed_ms < DOWNLOAD_FAILURE_COOLDOWN_MS {
            DOWNLOAD_FAILURE_COOLDOWN_MS - elapsed_ms
        } else {
            0
        },
{
    let cools = match result {
        Err(_) => true,
        Ok(status) => match status {
            DownloadStatus::StreamEnded => true,
            DownloadStatus::Error(_) => true,
            _ => false,
        },
    };
    if cools && elapsed_ms < DOWNLOAD_FAILURE_COOLDOWN_MS {
        DOWNLOAD_FAILURE_COOLDOWN_MS - elapsed_ms
    } else {
        0
    }
}

/// The number in a text, or zero.
pub open spec fn number_in(text: Seq<char>) -> nat {
    match parsed_unsigned(text, u64::MAX as nat) {
        Some(n) => n,
        None => 0,
    }
}

/// A length in the form `HH:MM:SS`, in seconds; zero where the text has another number of parts. A
/// part that is no number counts as zero.
pub open spec fn duration_secs(text: Seq<char>) -> nat {
    match split_first(text, ":"@) {
        Some((hours, rest)) => match split_first(rest, ":"@) {
            Some((minutes, seconds)) => if split_first(seconds, ":"@) is Some {
                0
            } else {
                number_in(hours) * 3600 + number_in(minutes) * 60 + number_in(seconds)
            },
            None => 0,
        },
        None => 0,
    }
}

fn number_or_zero(text: &str) -> (r: u64)
    ensures
        r == number_in(text@),
{
    match parse_unsigned(text, u64::MAX) {
        Some(n) => n,
        None => 0,
    }
}

/// Reads a length in the form `HH:MM:SS`, in seconds.
pub fn parse_duration(duration: &str) -> (r: u64)
    requires
        duration_secs(duration@) <= u64::MAX,
    ensures
        r == duration_secs(duration@),
{
    match split_once(duration, ":") {
        Some((hours, rest)) => match split_once(rest.as_str(), ":") {
            Some((minutes, seconds)) => {
                if split_once(seconds.as_str(), ":").is_some() {
                    return 0;
                }
                let hours: u64 = number_or_zero(hours.as_str());
                let minutes: u64 = number_or_zero(minutes.as_str());
                let seconds: u64 = number_or_zero(seconds.as_str());
                hours * 3600 + minutes * 60 + seconds
            },
            None => 0,
        },
        None => 0,
    }
}

/// How often and how long something is tried again.
#[derive(Clone, Copy, Debug, PartialEq, Eq, Structural)]
pub struct RetryPolicy {
    pub max_attempts: u32,
    /// The first delay, in milliseconds.
    pub base_delay_ms: u64,
    /// The longest delay, in milliseconds.
    pub max_delay_ms: u64,
}

impl RetryPolicy {
    /// Delays between a tenth of a second and half a minute.
    pub fn exponential(max_attempts: u32) -> (r: Self)
        ensures
            r == (RetryPolicy { max_attempts, base_delay_ms: 100, max_delay_ms: 30_000 }),
    {
        RetryPolicy { max_attempts, base_delay_ms: 100, max_delay_ms: 30_000 }
    }
}

/// What was found out about a stream after a download ended.
#[derive(Clone, Copy, Debug, PartialEq, Eq, Structural)]
pub enum StreamCheck {
    /// It is live.
    Live,
    /// It is not live.
    Offline,
    /// The question was not answered.
    Failed,
}

/// What follows a download that ended.
#[derive(Clone, Copy, Debug, PartialEq, Eq, Structural)]
pub enum AfterDownload {
    /// The recording is over.
    Stop,
    /// The stream is downloaded again after so many seconds.
    Again { delay_secs: u64 },
}

/// Number of times in a row that a stream may be found not to be live before its recording is
/// over.
pub const MAX_RETRIES: u32 = 3;

/// The loop that downloads a stream until it is over.
#[derive(Clone, Copy, Debug, PartialEq, Eq, Structural)]
pub struct DownloadLoop {
    /// Number of times in a row that the stream was not live.
    pub retry_count: u32,
    /// The longest delay, in seconds.
    pub max_delay_secs: u64,
}

/// The delay before a stream is downloaded again, in seconds.
pub open spec fn retry_delay_secs(retry_count: nat, max_delay_secs: nat) -> nat {
    let delay: nat = if retry_count == 0 {
        0
    } else {
        2 * vstd::arithmetic::power2::pow2(retry_count)
    };
    if delay <= max_delay_secs {
        delay
    } else {
        max_delay_secs
    }
}

/// What follows a download once this many have failed in a row.
pub open spec fn after_count(count: nat, max_delay_secs: nat) -> AfterDownload {
    if count >= MAX_RETRIES {
        AfterDownload::Stop
    } else {
        AfterDownload::Again { delay_secs: retry_delay_secs(count, max_delay_secs) as u64 }
    }
}

impl DownloadLoop {
    /// The loop goes on.
    pub open spec fn wf(self) -> bool {
        self.retry_count < MAX_RETRIES && self.max_delay_secs >= 1
    }

    /// A loop whose delays are no longer than the configured one, which counts as one second at
    /// least.
    pub fn new(delay: u64) -> (r: Self)
        ensures
            r.wf(),
            r.retry_count == 0,
            r.max_delay_secs == if delay == 0 {
                1
            } else {
                delay
            },
    {
        DownloadLoop {
            retry_count: 0,
            max_delay_secs: if delay == 0 {
                1
            } else {
                delay
            },
        }
    }

    /// Number of times in a row that the stream was not live, after one more look at it.
    pub open spec fn counted(self, check: StreamCheck) -> nat {
        if check == StreamCheck::Live {
            0
        } else {
            (self.retry_count + 1) as nat
        }
    }

    /// Decides what follows a download that ended. A recording that was stopped is over; otherwise
    /// the stream is downloaded again, until it was not live three times in a row.
    pub fn after_download(&mut self, cancelled: bool, check: StreamCheck) -> (r: AfterDownload)
        requires
            old(self).wf(),
        ensures
            cancelled ==> *final(self) == *old(self) && r == AfterDownload::Stop,
            !cancelled ==> {
                let count = old(self).counted(check);
                &&& final(self).retry_count == count
                &&& final(self).max_delay_secs == old(self).max_delay_secs
                &&& r == after_count(count, old(self).max_delay_secs as nat)
            },
            r is Again ==> final(self).wf(),
    {
        if cancelled {
            return AfterDownload::Stop;
        }
        match check {
            StreamCheck::Live => {
                self.retry_count = 0;
            },
            StreamCheck::Offline | StreamCheck::Failed => {
                self.retry_count = self.retry_count + 1;
            },
        }
        if self.retry_count >= MAX_RETRIES {
            return AfterDownload::Stop;
        }
        proof {
            vstd::arithmetic::power2::lemma2_to64();
        }
        let delay: u64 = if self.retry_count == 0 {
            0
        } else if self.retry_count == 1 {
            4
        } else {
            8
        };
        let delay_secs: u64 = if delay <= self.max_delay_secs {
            delay
        } else {
            self.max_delay_secs
        };
        AfterDownload::Again { delay_secs }
    }
}

/// A stream that is live is downloaded again at once, however often it was not live before.
pub proof fn law_live_stream_goes_on(state: DownloadLoop)
    requires
        state.wf(),
    ensures
        state.counted(StreamCheck::Live) == 0,
        retry_delay_secs(0, state.max_delay_secs as nat) == 0,
{
}

/// Size below which a finished file is thrown away, in bytes. Nothing is thrown away for streamers
/// whose recordings are uploaded.
pub fn minimum_file_size(uploads: bool, filtering_threshold_mb: u64) -> (r: u64)
    requires
        !uploads ==> filtering_threshold_mb * 1_000_000 <= u64::MAX,
    ensures
        r == if uploads {
            0
        } else {
            filtering_threshold_mb * 1_000_000
        },
{
    if uploads {
        0
    } else {
        filtering_threshold_mb * 1_000_000
    }
}

/// Where a finished file goes.
#[derive(Clone, Copy, Debug, PartialEq, Eq, Structural)]
pub enum SegmentRoute {
    /// Into the channel that is open.
    Open,
    /// Into a new channel of the upload queue.
    NewQueue,
    /// Into a new channel of the uploader.
    NewUploader,
}

/// Decides where a finished file goes. `open` tells whether there is a channel that is not closed,
/// `uploads` whether recordings of the streamer are uploaded.
pub fn segment_route(open: bool, uploads: bool) -> (r: SegmentRoute)
    ensures
        r == if open {
            SegmentRoute::Open
        } else if uploads {
            SegmentRoute::NewQueue
        } else {
            SegmentRoute::NewUploader
        },
{
    if open {
        SegmentRoute::Open
    } else if uploads {
        SegmentRoute::NewQueue
    } else {
        SegmentRoute::NewUploader
    }
}

/// Takes note of the danmaku file of a finished file, where one was written: it has the name of the
/// file with another extension.
pub fn note_danmaku(event: &mut SegmentInfo, written: bool)
    ensures
        if written {
            &&& final(event).danmaku_file_path matches Some(p) && p@ == with_extension_of(
                old(event).prev_file_path@,
                "xml"@,
            )
            &&& *final(event) == (SegmentInfo {
                danmaku_file_path: final(event).danmaku_file_path,
                ..*old(event)
            })
        } else {
            *final(event) == *old(event)
        },
{
    if written {
        event.danmaku_file_path = Some(with_extension(event.prev_file_path.as_str(), "xml"));
    }
}

/// The pause before the next download doubles from four seconds on, up to its limit; a stream that
/// was live needs none.
pub proof fn law_pauses_double(count: nat, longest: nat)
    ensures
        retry_delay_secs(0, longest) == 0,
        longest >= 4 ==> retry_delay_secs(1, longest) == 4,
        retry_delay_secs(count, longest) <= longest,
        retry_delay_secs(count, longest) <= retry_delay_secs(count + 1, longest),
        retry_delay_secs(count + 2, longest) == longest || retry_delay_secs(count + 2, longest)
            == 2 * retry_delay_secs(count + 1, longest),
{
    lemma2_to64();
    lemma_pow2_unfold(count + 2);
    lemma_pow2_unfold(count + 1);
    lemma_pow2_pos(count);
}

/// Three downloads that fail in a row end a broadcast; a stream that is live starts the count anew.
pub proof fn law_broadcast_ends_after_failures(
    state: DownloadLoop,
    check: StreamCheck,
    count: nat,
    longest: nat,
)
    ensures
        after_count(count, longest) == AfterDownload::Stop <==> count >= 3,
        state.counted(StreamCheck::Live) == 0,
        check != StreamCheck::Live ==> state.counted(check) == state.retry_count + 1,
        longest <= u64::MAX ==> (after_count(count, longest) matches AfterDownload::Again {
            delay_secs,
        } ==> delay_secs <= longest),
{
    law_pauses_double(count, longest);
}

/// A duration is read in seconds from its hours, minutes and seconds.
pub proof fn law_durations(hours: u64, minutes: u64, seconds: u64)
    ensures
        duration_secs(
            decimal(hours as nat) + ":"@ + decimal(minutes as nat) + ":"@ + decimal(seconds as nat),
        ) == hours * 3600 + minutes * 60 + seconds,
{
    reveal_strlit(":");
    let colon = seq![':'];
    assert(":"@ =~= colon);
    let h = decimal(hours as nat);
    let m = decimal(minutes as nat);
    let s = decimal(seconds as nat);
    lemma_decimal_denotes(hours as nat);
    lemma_decimal_denotes(minutes as nat);
    lemma_decimal_denotes(seconds as nat);
    assert forall|i: int| 0 <= i < h.len() implies (#[trigger] h[i]) != ':' by {
        assert(is_digit(h[i]));
    }
    assert forall|i: int| 0 <= i < m.len() implies (#[trigger] m[i]) != ':' by {
        assert(is_digit(m[i]));
    }
    assert forall|i: int| 0 <= i < s.len() implies (#[trigger] s[i]) != ':' by {
        assert(is_digit(s[i]));
    }
    let rest = m + colon + s;
    assert(h + ":"@ + m + ":"@ + s =~= h + colon + rest);
    lemma_split_first_at(h, rest, ':');
    lemma_split_first_at(m, s, ':');
    lemma_split_first_none(s, ':', 0);
    lemma_parse_decimal(hours as nat, u64::MAX as nat);
    lemma_parse_decimal(minutes as nat, u64::MAX as nat);
    lemma_parse_decimal(seconds as nat, u64::MAX as nat);
}

/// A download that failed or ended is followed by a pause; one that goes on is not.
pub proof fn law_cooldown(result: Result<DownloadStatus, String>)
    ensures
        result is Err ==> needs_cooldown(result),
        result matches Ok(status) ==> (needs_cooldown(result) <==> status is StreamEnded
            || status is Error),
{
}

} // verus!
