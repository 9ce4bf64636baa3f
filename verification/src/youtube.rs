//! The YouTube upload queue: tasks, what the answers of the service mean for them, and when a
//! local recording may be deleted.

use crate::clock::{
    clamp_i64, id_text, new_id, now_seconds, saturating_later, IdCounter, MAX_TIMESTAMP,
};
use crate::json::{json_member_text, json_string_member};
use crate::lists::{first_index, lemma_first_index, lemma_first_index_found};
use crate::paths::{extension_is, file_stem, has_extension, stem_of};
use crate::recordings::FileFacts;
use crate::retry::{law_delay_has_bounds, retry_at, upload_retry_secs};
use crate::text::{
    blank, concat, decimal, is_blank, is_digit, lemma_decimal_denotes, lemma_parse_decimal,
    lemma_split_first_at, lemma_split_first_none, lower, lowered, opt_text, parse_unsigned,
    parsed_unsigned, push_decimal, push_text, same, split_first, split_once, starts_with,
    strip_prefix, to_chars, trim, trimmed,
};
use vstd::prelude::*;

verus! {

/// The permission that uploads ask for.
pub const YOUTUBE_UPLOAD_SCOPE: &'static str = "https://www.googleapis.com/auth/youtube.upload";

/// Where upload sessions are created.
pub const RESUMABLE_ENDPOINT: &'static str = "https://www.googleapis.com/upload/youtube/v3/videos?uploadType=resumable&part=snippet,status";

/// Size of one uploaded piece: 8 MiB.
pub const DEFAULT_CHUNK_SIZE: u64 = 8_388_608;

/// The permission that uploads ask for.
pub fn youtube_upload_scope() -> (r: &'static str)
    ensures
        r@ == YOUTUBE_UPLOAD_SCOPE@,
{
    YOUTUBE_UPLOAD_SCOPE
}

/// How far an upload has come.
#[derive(Clone, Copy, Debug, PartialEq, Eq, Structural)]
pub enum UploadTaskState {
    Recording,
    ReadyToUpload,
    Uploading,
    WaitingForNetwork,
    RetryPending,
    AuthRequired,
    UploadSuccess,
    UploadResultUnknown,
}

/// What the user has chosen for uploads.
#[derive(Debug)]
pub struct YoutubeSettings {
    pub auto_upload: bool,
    pub privacy_status: String,
    pub delete_after_success: bool,
    pub account_label: Option<String>,
}

impl Default for YoutubeSettings {
    fn default() -> (r: Self)
        ensures
            !r.auto_upload,
            r.privacy_status@ == "private"@,
            r.delete_after_success,
            r.account_label is None,
    {
        YoutubeSettings {
            auto_upload: false,
            privacy_status: "private".to_owned(),
            delete_after_success: true,
            account_label: None,
        }
    }
}

/// One recording on its way to the service.
#[derive(Debug)]
pub struct UploadTask {
    pub id: String,
    pub streamer_name: String,
    pub local_path: String,
    pub youtube_title: String,
    pub started_at: i64,
    pub ended_at: i64,
    pub file_size: u64,
    pub state: UploadTaskState,
    pub resumable_session_url: Option<String>,
    pub confirmed_bytes: u64,
    pub youtube_video_id: Option<String>,
    pub attempts: u32,
    pub next_retry_at: i64,
    pub last_error: Option<String>,
    pub success_persisted: bool,
    pub local_deleted: bool,
    pub created_at: i64,
    pub updated_at: i64,
}

/// Model of an upload task.
pub struct TaskModel {
    pub id: Seq<char>,
    pub streamer_name: Seq<char>,
    pub local_path: Seq<char>,
    pub youtube_title: Seq<char>,
    pub started_at: i64,
    pub ended_at: i64,
    pub file_size: u64,
    pub state: UploadTaskState,
    pub resumable_session_url: Option<Seq<char>>,
    pub confirmed_bytes: u64,
    pub youtube_video_id: Option<Seq<char>>,
    pub attempts: u32,
    pub next_retry_at: i64,
    pub last_error: Option<Seq<char>>,
    pub success_persisted: bool,
    pub local_deleted: bool,
    pub created_at: i64,
    pub updated_at: i64,
}

impl View for UploadTask {
    type V = TaskModel;

    open spec fn view(&self) -> TaskModel {
        TaskModel {
            id: self.id@,
            streamer_name: self.streamer_name@,
            local_path: self.local_path@,
            youtube_title: self.youtube_title@,
            started_at: self.started_at,
            ended_at: self.ended_at,
            file_size: self.file_size,
            state: self.state,
            resumable_session_url: opt_text(self.resumable_session_url),
            confirmed_bytes: self.confirmed_bytes,
            youtube_video_id: opt_text(self.youtube_video_id),
            attempts: self.attempts,
            next_retry_at: self.next_retry_at,
            last_error: opt_text(self.last_error),
            success_persisted: self.success_persisted,
            local_deleted: self.local_deleted,
            created_at: self.created_at,
            updated_at: self.updated_at,
        }
    }
}

impl Clone for UploadTask {
    fn clone(&self) -> (r: Self)
        ensures
            r == *self,
    {
        UploadTask {
            id: self.id.clone(),
            streamer_name: self.streamer_name.clone(),
            local_path: self.local_path.clone(),
            youtube_title: self.youtube_title.clone(),
            started_at: self.started_at,
            ended_at: self.ended_at,
            file_size: self.file_size,
            state: self.state,
            resumable_session_url: self.resumable_session_url.clone(),
            confirmed_bytes: self.confirmed_bytes,
            youtube_video_id: self.youtube_video_id.clone(),
            attempts: self.attempts,
            next_retry_at: self.next_retry_at,
            last_error: self.last_error.clone(),
            success_persisted: self.success_persisted,
            local_deleted: self.local_deleted,
            created_at: self.created_at,
            updated_at: self.updated_at,
        }
    }
}

impl TaskModel {
    /// The service has confirmed the video, and this is on disk.
    pub open spec fn success_confirmed(self) -> bool {
        &&& self.state == UploadTaskState::UploadSuccess
        &&& self.success_persisted
        &&& self.youtube_video_id matches Some(id) && !is_blank(id)
    }

    /// The upload goes on by itself.
    pub open spec fn runs_by_itself(self) -> bool {
        ||| self.state == UploadTaskState::ReadyToUpload
        ||| self.state == UploadTaskState::WaitingForNetwork
        ||| self.state == UploadTaskState::RetryPending
        ||| self.state == UploadTaskState::Uploading
    }
}

/// A recording that has just been queued at `now`.
pub open spec fn queued(
    id: Seq<char>,
    streamer_name: Seq<char>,
    local_path: Seq<char>,
    youtube_title: Seq<char>,
    started_at: i64,
    ended_at: i64,
    file_size: u64,
    now: i64,
) -> TaskModel {
    TaskModel {
        id,
        streamer_name,
        local_path,
        youtube_title,
        started_at,
        ended_at,
        file_size,
        state: UploadTaskState::ReadyToUpload,
        resumable_session_url: None,
        confirmed_bytes: 0,
        youtube_video_id: None,
        attempts: 0,
        next_retry_at: now,
        last_error: None,
        success_persisted: false,
        local_deleted: false,
        created_at: now,
        updated_at: now,
    }
}

impl UploadTask {
    /// A recording that is queued at `now` under the given identifier.
    pub fn new_at(
        id: String,
        streamer_name: String,
        local_path: String,
        youtube_title: String,
        started_at: i64,
        ended_at: i64,
        file_size: u64,
        now: i64,
    ) -> (r: Self)
        ensures
            r@ == queued(
                id@,
                streamer_name@,
                local_path@,
                youtube_title@,
                started_at,
                ended_at,
                file_size,
                now,
            ),
    {
        UploadTask {
            id,
            streamer_name,
            local_path,
            youtube_title,
            started_at,
            ended_at,
            file_size,
            state: UploadTaskState::ReadyToUpload,
            resumable_session_url: None,
            confirmed_bytes: 0,
            youtube_video_id: None,
            attempts: 0,
            next_retry_at: now,
            last_error: None,
            success_persisted: false,
            local_deleted: false,
            created_at: now,
            updated_at: now,
        }
    }

    /// A recording that is queued now.
    pub fn new(
        counter: &mut IdCounter,
        streamer_name: String,
        local_path: String,
        youtube_title: String,
        started_at: i64,
        ended_at: i64,
        file_size: u64,
    ) -> (r: Self)
        ensures
            final(counter).next == (old(counter).next + 1) % 0x1_0000_0000_0000_0000,
            exists|now: i64, millis: int|
                0 <= now < MAX_TIMESTAMP && r@ == #[trigger] queued(
                    id_text("youtube"@, millis, old(counter).next as nat),
                    streamer_name@,
                    local_path@,
                    youtube_title@,
                    started_at,
                    ended_at,
                    file_size,
                    now,
                ),
    {
        let now: i64 = now_seconds();
        let id = new_id(counter, "youtube");
        UploadTask::new_at(
            id,
            streamer_name,
            local_path,
            youtube_title,
            started_at,
            ended_at,
            file_size,
            now,
        )
    }

    /// Whether the upload goes on by itself.
    pub fn can_auto_upload(&self) -> (r: bool)
        ensures
            r == self@.runs_by_itself(),
    {
        matches!(
            self.state,
            UploadTaskState::ReadyToUpload
                | UploadTaskState::WaitingForNetwork
                | UploadTaskState::RetryPending
                | UploadTaskState::Uploading
        )
    }

    /// Whether the service has confirmed the video and this has been saved.
    pub fn has_confirmed_success(&self) -> (r: bool)
        ensures
            r == self@.success_confirmed(),
    {
        self.state == UploadTaskState::UploadSuccess && self.success_persisted
            && match &self.youtube_video_id {
            Some(id) => !blank(id.as_str()),
            None => false,
        }
    }
}

/// The tasks of a list, by their models.
pub open spec fn task_models(v: Seq<UploadTask>) -> Seq<TaskModel> {
    v.map_values(|t: UploadTask| t@)
}

/// The upload queue as it is kept on disk.
#[derive(Debug)]
pub struct YoutubeStore {
    pub settings: YoutubeSettings,
    pub tasks: Vec<UploadTask>,
}

impl Default for YoutubeStore {
    fn default() -> (r: Self)
        ensures
            !r.settings.auto_upload,
            r.settings.privacy_status@ == "private"@,
            r.settings.delete_after_success,
            r.settings.account_label is None,
            r.tasks@.len() == 0,
    {
        YoutubeStore { settings: YoutubeSettings::default(), tasks: Vec::new() }
    }
}

/// A task after a restart at `now`: a recording that was never finished waits for a check, an
/// upload with a session is resumed, and an upload without one is never started over.
pub open spec fn restarted(task: TaskModel, now: i64) -> TaskModel {
    match task.state {
        UploadTaskState::Recording => TaskModel {
            updated_at: now,
            state: UploadTaskState::RetryPending,
            last_error: Some("App 在录像 finalize 前退出；保留本地文件，等待恢复检查。"@),
            ..task
        },
        UploadTaskState::Uploading => if task.resumable_session_url is Some {
            TaskModel {
                updated_at: now,
                state: UploadTaskState::RetryPending,
                last_error: Some(
                    "上传被 App 重启中断，将先查询已有 resumable session 再继续。"@,
                ),
                ..task
            }
        } else {
            TaskModel {
                updated_at: now,
                state: UploadTaskState::UploadResultUnknown,
                last_error: Some(
                    "上传中断且没有可确认的 resumable session；为防止重复上传，停止自动重建任务。"@,
                ),
                ..task
            }
        },
        _ => TaskModel { updated_at: now, ..task },
    }
}

fn restart_task(task: &mut UploadTask, now: i64)
    ensures
        final(task)@ == restarted(old(task)@, now),
{
    task.updated_at = now;
    match task.state {
        UploadTaskState::Recording => {
            task.state = UploadTaskState::RetryPending;
            task.last_error = Some(
                "App 在录像 finalize 前退出；保留本地文件，等待恢复检查。".to_owned(),
            );
        },
        UploadTaskState::Uploading => {
            if task.resumable_session_url.is_some() {
                task.state = UploadTaskState::RetryPending;
                task.last_error = Some(
                    "上传被 App 重启中断，将先查询已有 resumable session 再继续。".to_owned(),
                );
            } else {
                task.state = UploadTaskState::UploadResultUnknown;
                task.last_error = Some(
                    "上传中断且没有可确认的 resumable session；为防止重复上传，停止自动重建任务。".to_owned(),
                );
            }
        },
        _ => {},
    }
}

/// Two tasks are about the same recording: the same file, or the same streamer and times.
pub open spec fn same_recording(a: TaskModel, b: TaskModel) -> bool {
    ||| a.local_path == b.local_path
    ||| (a.streamer_name == b.streamer_name && a.started_at == b.started_at && a.ended_at
        == b.ended_at)
}

/// Some task of the list is about the same recording as `task`.
pub open spec fn is_queued(tasks: Seq<TaskModel>, task: TaskModel) -> bool {
    exists|i: int| 0 <= i < tasks.len() && same_recording(#[trigger] tasks[i], task)
}

impl YoutubeStore {
    /// Brings the queue into order after a restart at `now`.
    pub fn normalize_after_restart_at(&mut self, now: i64)
        ensures
            final(self).settings == old(self).settings,
            task_models(final(self).tasks@) == task_models(old(self).tasks@).map_values(
                |t: TaskModel| restarted(t, now),
            ),
    {
        let ghost before = task_models(self.tasks@);
        let n: usize = self.tasks.len();
        let mut i: usize = 0;
        while i < n
            invariant
                i <= n,
                n == self.tasks.len(),
                n == before.len(),
                self.settings == old(self).settings,
                forall|j: int|
                    0 <= j < i ==> (#[trigger] self.tasks@[j])@ == restarted(before[j], now),
                forall|j: int| i <= j < n ==> (#[trigger] self.tasks@[j])@ == before[j],
            decreases n - i,
        {
            restart_task(&mut self.tasks[i], now);
            i = i + 1;
        }
        assert(task_models(self.tasks@) =~= before.map_values(|t: TaskModel| restarted(t, now)));
    }

    /// Brings the queue into order after a restart.
    pub fn normalize_after_restart(&mut self)
        ensures
            final(self).settings == old(self).settings,
            exists|now: i64|
                0 <= now < MAX_TIMESTAMP && task_models(final(self).tasks@)
                    == #[trigger] restarted_all(task_models(old(self).tasks@), now),
    {
        let now: i64 = now_seconds();
        self.normalize_after_restart_at(now);
        assert(task_models(self.tasks@) =~= restarted_all(task_models(old(self).tasks@), now));
    }

    /// Queues a recording unless a task for the same recording is there already.
    pub fn add_task_if_absent(&mut self, task: UploadTask) -> (r: bool)
        ensures
            final(self).settings == old(self).settings,
            r == !is_queued(task_models(old(self).tasks@), task@),
            final(self).tasks@ == if r {
                old(self).tasks@.push(task)
            } else {
                old(self).tasks@
            },
    {
        let ghost models = task_models(self.tasks@);
        let n: usize = self.tasks.len();
        let mut i: usize = 0;
        while i < n
            invariant
                i <= n,
                n == self.tasks.len(),
                models == task_models(self.tasks@),
                self.settings == old(self).settings,
                self.tasks@ == old(self).tasks@,
                forall|j: int| 0 <= j < i ==> !same_recording(#[trigger] models[j], task@),
            decreases n - i,
        {
            let existing = &self.tasks[i];
            assert(models[i as int] == existing@);
            if same(existing.local_path.as_str(), task.local_path.as_str()) || (same(
                existing.streamer_name.as_str(),
                task.streamer_name.as_str(),
            ) && existing.started_at == task.started_at && existing.ended_at == task.ended_at) {
                assert(same_recording(models[i as int], task@));
                return false;
            }
            i = i + 1;
        }
        self.tasks.push(task);
        true
    }
}

/// All tasks of a queue after a restart at `now`.
pub open spec fn restarted_all(tasks: Seq<TaskModel>, now: i64) -> Seq<TaskModel> {
    Seq::new(tasks.len(), |i: int| restarted(tasks[i], now))
}

/// What one exchange with the service came to.
#[derive(Debug)]
pub enum UploadStep {
    Progress(u64),
    Success(String),
    WaitingForNetwork(String),
    Retryable(String),
    AuthRequired(String),
    ResultUnknown(String),
}

/// A task after an exchange with the service at `now`.
pub open spec fn stepped(task: TaskModel, step: UploadStep, now: i64) -> TaskModel {
    match step {
        UploadStep::Progress(bytes) => TaskModel {
            updated_at: now,
            state: UploadTaskState::Uploading,
            confirmed_bytes: if bytes <= task.file_size {
                bytes
            } else {
                task.file_size
            },
            last_error: None,
            ..task
        },
        UploadStep::Success(video_id) => TaskModel {
            updated_at: now,
            state: UploadTaskState::UploadSuccess,
            confirmed_bytes: task.file_size,
            youtube_video_id: Some(video_id@),
            last_error: None,
            success_persisted: false,
            ..task
        },
        UploadStep::WaitingForNetwork(error) => TaskModel {
            updated_at: now,
            state: UploadTaskState::WaitingForNetwork,
            last_error: Some(error@),
            ..task
        },
        UploadStep::Retryable(error) => {
            let attempts: u32 = if task.attempts == u32::MAX {
                u32::MAX
            } else {
                (task.attempts + 1) as u32
            };
            TaskModel {
                updated_at: now,
                attempts,
                state: UploadTaskState::RetryPending,
                next_retry_at: clamp_i64(now + upload_retry_secs(attempts as nat)),
                last_error: Some(error@),
                ..task
            }
        },
        UploadStep::AuthRequired(error) => TaskModel {
            updated_at: now,
            state: UploadTaskState::AuthRequired,
            last_error: Some(error@),
            ..task
        },
        UploadStep::ResultUnknown(error) => TaskModel {
            updated_at: now,
            state: UploadTaskState::UploadResultUnknown,
            last_error: Some(error@),
            ..task
        },
    }
}

/// Takes note of an exchange with the service at `now`. That a success is on disk is never
/// claimed here.
pub fn apply_upload_step_at(task: &mut UploadTask, step: UploadStep, now: i64)
    ensures
        final(task)@ == stepped(old(task)@, step, now),
{
    task.updated_at = now;
    match step {
        UploadStep::Progress(bytes) => {
            task.state = UploadTaskState::Uploading;
            task.confirmed_bytes = if bytes <= task.file_size {
                bytes
            } else {
                task.file_size
            };
            task.last_error = None;
        },
        UploadStep::Success(video_id) => {
            task.state = UploadTaskState::UploadSuccess;
            task.confirmed_bytes = task.file_size;
            task.youtube_video_id = Some(video_id);
            task.last_error = None;
            task.success_persisted = false;
        },
        UploadStep::WaitingForNetwork(error) => {
            task.state = UploadTaskState::WaitingForNetwork;
            task.last_error = Some(error);
        },
        UploadStep::Retryable(error) => {
            task.attempts = task.attempts.saturating_add(1);
            task.state = UploadTaskState::RetryPending;
            task.next_retry_at = retry_at(task.attempts, now);
            task.last_error = Some(error);
        },
        UploadStep::AuthRequired(error) => {
            task.state = UploadTaskState::AuthRequired;
            task.last_error = Some(error);
        },
        UploadStep::ResultUnknown(error) => {
            task.state = UploadTaskState::UploadResultUnknown;
            task.last_error = Some(error);
        },
    }
}

/// Takes note of an exchange with the service.
pub fn apply_upload_step(task: &mut UploadTask, step: UploadStep)
    ensures
        exists|now: i64|
            0 <= now < MAX_TIMESTAMP && final(task)@ == #[trigger] stepped(old(task)@, step, now),
{
    let now: i64 = now_seconds();
    apply_upload_step_at(task, step, now);
}

/// The privacy setting that a free text stands for.
pub open spec fn privacy_text(value: Seq<char>) -> Seq<char> {
    let v = lowered(trimmed(value));
    if v == "public"@ {
        "public"@
    } else if v == "unlisted"@ {
        "unlisted"@
    } else {
        "private"@
    }
}

/// The privacy setting that a free text stands for: anything unknown is private.
pub fn normalize_privacy(value: &str) -> (r: &'static str)
    ensures
        r@ == privacy_text(value@),
{
    let v = lower(trim(value).as_str());
    if same(v.as_str(), "public") {
        "public"
    } else if same(v.as_str(), "unlisted") {
        "unlisted"
    } else {
        "private"
    }
}

/// The end of a range of bytes, as the service reports it: what stands between the first and the
/// second hyphen behind `bytes=`.
pub open spec fn range_end(range: Seq<char>) -> Option<nat> {
    if !"bytes="@.is_prefix_of(range) {
        None
    } else {
        match split_first(range.skip("bytes="@.len() as int), "-"@) {
            None => None,
            Some((_, behind)) => parsed_unsigned(
                match split_first(behind, "-"@) {
                    Some((end, _)) => end,
                    None => behind,
                },
                u64::MAX as nat,
            ),
        }
    }
}

/// How many bytes a reported range confirms: none where it is missing or unreadable, and never
/// more than the file has.
pub open spec fn confirmed_by(range: Option<Seq<char>>, total: u64) -> u64 {
    match range {
        None => 0,
        Some(r) => match range_end(r) {
            None => 0,
            Some(end) => if end + 1 < total {
                (end + 1) as u64
            } else {
                total
            },
        },
    }
}

/// How many bytes the service has confirmed, from the range header of its answer.
pub fn confirmed_bytes(range: Option<&str>, total_size: u64) -> (r: u64)
    ensures
        r == confirmed_by(
            match range {
                Some(s) => Some(s@),
                None => None,
            },
            total_size,
        ),
        r <= total_size,
{
    let range = match range {
        Some(range) => range,
        None => {
            return 0;
        },
    };
    let value = match strip_prefix(range, "bytes=") {
        Some(value) => value,
        None => {
            return 0;
        },
    };
    let behind = match split_once(value.as_str(), "-") {
        Some((_, behind)) => behind,
        None => {
            return 0;
        },
    };
    let text = match split_once(behind.as_str(), "-") {
        Some((end, _)) => end,
        None => behind,
    };
    match parse_unsigned(text.as_str(), u64::MAX) {
        Some(end) => {
            let next: u64 = end.saturating_add(1);
            if next < total_size {
                next
            } else {
                total_size
            }
        },
        None => 0,
    }
}

/// What an answer says in words: the status, and the body where there is one.
pub open spec fn answer_text(status: Seq<char>, body: Seq<char>) -> Seq<char> {
    if is_blank(body) {
        status
    } else {
        status + ": "@ + body
    }
}

/// What an answer says in words: the status, and the body where there is one.
pub fn response_text(status: &str, body: &str) -> (r: String)
    ensures
        r@ == answer_text(status@, body@),
{
    let mut out = status.to_owned();
    if !blank(body) {
        push_text(&mut out, ": ");
        push_text(&mut out, body);
    }
    out
}

/// An answer of the service, reduced to what its meaning depends on.
#[derive(Debug)]
pub struct ServiceAnswer {
    pub status: u16,
    /// The status in words.
    pub status_text: String,
    /// The range header.
    pub range: Option<String>,
    /// The location header.
    pub location: Option<String>,
    pub body: String,
}

/// True for the status codes that ask for a new login.
pub open spec fn asks_for_login(status: u16) -> bool {
    status == 401 || status == 403
}

/// True for the status codes after which the same request may be tried again.
pub open spec fn is_temporary(status: u16) -> bool {
    500 <= status < 600 || status == 429
}

/// The step that an answer on an upload session comes to, given the identifier of the video that
/// its body names.
pub open spec fn is_session_step(
    answer: ServiceAnswer,
    total: u64,
    video_id: Option<Seq<char>>,
    step: UploadStep,
) -> bool {
    let words = answer_text(answer.status_text@, answer.body@);
    if answer.status == 308 {
        step == UploadStep::Progress(confirmed_by(opt_text(answer.range), total))
    } else if answer.status == 200 || answer.status == 201 {
        match video_id {
            Some(id) if !is_blank(id) => step matches UploadStep::Success(v) && v@ == id,
            _ => step matches UploadStep::ResultUnknown(m) && m@
                == "YouTube 返回成功状态但没有有效 videoId；保留本地录像并停止自动重传。"@,
        }
    } else if asks_for_login(answer.status) {
        step matches UploadStep::AuthRequired(m) && m@ == words
    } else if answer.status == 404 || answer.status == 410 {
        step matches UploadStep::ResultUnknown(m) && m@
            == "YouTube resumable session 已失效；为避免创建重复视频，不自动新建上传。"@
    } else if is_temporary(answer.status) {
        step matches UploadStep::Retryable(m) && m@ == words
    } else {
        step matches UploadStep::ResultUnknown(m) && m@ == "YouTube 上传返回未预期状态 "@
            + answer.status_text@ + "；保留本地录像。"@ + words
    }
}

/// The step that an answer on an upload session comes to, given the identifier of the video that
/// its body names.
pub fn session_step(answer: &ServiceAnswer, total_size: u64, video_id: Option<String>) -> (r: UploadStep)
    ensures
        is_session_step(*answer, total_size, opt_text(video_id), r),
{
    if answer.status == 308 {
        let confirmed: u64 = match &answer.range {
            Some(range) => confirmed_bytes(Some(range.as_str()), total_size),
            None => confirmed_bytes(None, total_size),
        };
        return UploadStep::Progress(confirmed);
    }
    if answer.status == 200 || answer.status == 201 {
        if let Some(id) = video_id {
            if !blank(id.as_str()) {
                return UploadStep::Success(id);
            }
        }
        return UploadStep::ResultUnknown(
            "YouTube 返回成功状态但没有有效 videoId；保留本地录像并停止自动重传。".to_owned(),
        );
    }
    let words = response_text(answer.status_text.as_str(), answer.body.as_str());
    if answer.status == 401 || answer.status == 403 {
        return UploadStep::AuthRequired(words);
    }
    if answer.status == 404 || answer.status == 410 {
        return UploadStep::ResultUnknown(
            "YouTube resumable session 已失效；为避免创建重复视频，不自动新建上传。".to_owned(),
        );
    }
    if (500 <= answer.status && answer.status < 600) || answer.status == 429 {
        return UploadStep::Retryable(words);
    }
    let mut message = "YouTube 上传返回未预期状态 ".to_owned();
    push_text(&mut message, answer.status_text.as_str());
    push_text(&mut message, "；保留本地录像。");
    push_text(&mut message, words.as_str());
    UploadStep::ResultUnknown(message)
}

/// The step that an answer on an upload session comes to.
pub fn classify_session_response(answer: &ServiceAnswer, total_size: u64) -> (r: UploadStep)
    ensures
        is_session_step(*answer, total_size, json_member_text(answer.body@, "id"@), r),
{
    let video_id = json_string_member(answer.body.as_str(), "id");
    session_step(answer, total_size, video_id)
}

/// Whether `result` is what the answer to the creation of a session comes to.
pub open spec fn is_creation_answer(
    answer: ServiceAnswer,
    result: Result<String, UploadStep>,
) -> bool {
    let words = answer_text(answer.status_text@, answer.body@);
    if asks_for_login(answer.status) {
        result matches Err(UploadStep::AuthRequired(m)) && m@ == words
    } else if !(200 <= answer.status < 300) {
        result matches Err(UploadStep::Retryable(m)) && m@ == words
    } else {
        match answer.location {
            Some(url) if "https://"@.is_prefix_of(url@) => result == Ok::<String, UploadStep>(url),
            _ => result matches Err(UploadStep::ResultUnknown(m)) && m@
                == "YouTube 创建上传会话成功但没有返回 Location；为防重复上传停止自动重试。"@,
        }
    }
}

/// What the answer on the creation of an upload session comes to: the address of the session, or
/// a step. A created session without a usable address is never created a second time.
pub fn classify_creation_response(answer: &ServiceAnswer) -> (r: Result<String, UploadStep>)
    ensures
        is_creation_answer(*answer, r),
{
    if answer.status == 401 || answer.status == 403 {
        return Err(
            UploadStep::AuthRequired(
                response_text(answer.status_text.as_str(), answer.body.as_str()),
            ),
        );
    }
    if !(200 <= answer.status && answer.status < 300) {
        return Err(
            UploadStep::Retryable(
                response_text(answer.status_text.as_str(), answer.body.as_str()),
            ),
        );
    }
    if let Some(url) = &answer.location {
        if starts_with(url.as_str(), "https://") {
            return Ok(url.clone());
        }
    }
    Err(
        UploadStep::ResultUnknown(
            "YouTube 创建上传会话成功但没有返回 Location；为防重复上传停止自动重试。".to_owned(),
        ),
    )
}

/// The next piece of a file that is to be sent.
#[derive(Clone, Copy, Debug, PartialEq, Eq, Structural)]
pub struct ChunkRange {
    /// Offset of the first byte.
    pub start: u64,
    /// Offset of the last byte.
    pub end: u64,
    pub length: u64,
}

/// Whether `chunk` is the next part of a file that is sent, behind the bytes that were confirmed.
pub open spec fn is_next_chunk(
    confirmed_bytes: u64,
    total_size: u64,
    chunk: Option<ChunkRange>,
) -> bool {
    match chunk {
        None => confirmed_bytes >= total_size,
        Some(c) => {
            &&& confirmed_bytes < total_size
            &&& c.start == confirmed_bytes
            &&& c.length == if total_size - confirmed_bytes < DEFAULT_CHUNK_SIZE {
                (total_size - confirmed_bytes) as u64
            } else {
                DEFAULT_CHUNK_SIZE
            }
            &&& c.end == c.start + c.length - 1
            &&& c.end < total_size
        },
    }
}

/// The next piece of a file of which `confirmed_bytes` have arrived: up to 8 MiB, and nothing
/// once all bytes are confirmed.
pub fn next_chunk(confirmed_bytes: u64, total_size: u64) -> (r: Option<ChunkRange>)
    ensures
        is_next_chunk(confirmed_bytes, total_size, r),
{
    if confirmed_bytes >= total_size {
        return None;
    }
    let remaining: u64 = total_size - confirmed_bytes;
    let length: u64 = if remaining < DEFAULT_CHUNK_SIZE {
        remaining
    } else {
        DEFAULT_CHUNK_SIZE
    };
    Some(ChunkRange { start: confirmed_bytes, end: confirmed_bytes + (length - 1), length })
}

/// The header that announces a piece of a file.
pub fn chunk_content_range(chunk: ChunkRange, total_size: u64) -> (r: String)
    ensures
        r@ == "bytes "@ + decimal(chunk.start as nat) + "-"@ + decimal(chunk.end as nat) + "/"@
            + decimal(total_size as nat),
{
    let mut out = "bytes ".to_owned();
    push_decimal(&mut out, chunk.start);
    push_text(&mut out, "-");
    push_decimal(&mut out, chunk.end);
    push_text(&mut out, "/");
    push_decimal(&mut out, total_size);
    out
}

/// The header that asks how much of a file has arrived.
pub fn query_content_range(total_size: u64) -> (r: String)
    ensures
        r@ == "bytes */"@ + decimal(total_size as nat),
{
    let mut out = "bytes */".to_owned();
    push_decimal(&mut out, total_size);
    out
}

/// The header that carries an access token.
pub fn bearer(token: &str) -> (r: String)
    ensures
        r@ == "Bearer "@ + trimmed(token@),
{
    concat("Bearer ", trim(token).as_str())
}

/// The predicate of being the task with an identifier.
pub open spec fn has_task_id(id: Seq<char>) -> spec_fn(TaskModel) -> bool {
    |t: TaskModel| t.id == id
}

/// The position of the task with an identifier, or the number of tasks.
pub open spec fn task_position(tasks: Seq<TaskModel>, id: Seq<char>) -> int {
    first_index(tasks, has_task_id(id))
}

fn find_task(tasks: &Vec<UploadTask>, id: &str) -> (r: usize)
    ensures
        r <= tasks.len(),
        r == task_position(task_models(tasks@), id@),
        r < tasks.len() ==> tasks@[r as int]@.id == id@,
{
    let n: usize = tasks.len();
    let ghost models = task_models(tasks@);
    let mut i: usize = 0;
    while i < n
        invariant
            i <= n,
            n == tasks.len(),
            models == task_models(tasks@),
            forall|j: int| 0 <= j < i ==> !has_task_id(id@)(#[trigger] models[j]),
        decreases n - i,
    {
        assert(models[i as int] == tasks@[i as int]@);
        if same(tasks[i].id.as_str(), id) {
            proof {
                lemma_first_index(models, has_task_id(id@), i as int);
            }
            return i;
        }
        i = i + 1;
    }
    proof {
        lemma_first_index(models, has_task_id(id@), n as int);
    }
    n
}

/// The message for a task that does not exist.
pub open spec fn missing_task() -> Seq<char> {
    "YouTube 上传任务不存在。"@
}

/// The task of identifier `id` in `after` is `changed`, and nothing else is different from `before`.
pub open spec fn only_changed(
    before: YoutubeStore,
    after: YoutubeStore,
    k: int,
    changed: TaskModel,
) -> bool {
    &&& after.settings == before.settings
    &&& task_models(after.tasks@) == task_models(before.tasks@).update(k, changed)
}

/// A task before the request that creates its upload session: if the process dies now, a restart
/// finds an upload without a session and does not create a second video.
pub open spec fn creation_started(task: TaskModel, now: i64) -> TaskModel {
    TaskModel {
        state: UploadTaskState::Uploading,
        resumable_session_url: None,
        last_error: None,
        updated_at: now,
        ..task
    }
}

/// A task with a new upload session.
pub open spec fn session_saved(task: TaskModel, url: Seq<char>, now: i64) -> TaskModel {
    TaskModel {
        resumable_session_url: Some(url),
        state: UploadTaskState::Uploading,
        confirmed_bytes: 0,
        last_error: None,
        updated_at: now,
        ..task
    }
}

/// A task that waits for a new login; it is looked at again after a minute.
pub open spec fn login_awaited(task: TaskModel, message: Seq<char>, now: i64) -> TaskModel {
    TaskModel {
        state: UploadTaskState::AuthRequired,
        last_error: Some(message),
        next_retry_at: clamp_i64(now + 60),
        ..task
    }
}

/// A task that the user wants to be tried again.
pub open spec fn retry_asked(task: TaskModel, now: i64) -> TaskModel {
    if task.state == UploadTaskState::UploadSuccess {
        task
    } else {
        TaskModel {
            state: UploadTaskState::RetryPending,
            next_retry_at: now,
            last_error: None,
            ..task
        }
    }
}

/// The task after the user has logged out.
pub open spec fn logged_out(task: TaskModel) -> TaskModel {
    if task.state == UploadTaskState::UploadSuccess {
        task
    } else {
        TaskModel {
            state: UploadTaskState::AuthRequired,
            last_error: Some("YouTube 账号已退出；本地录像保留。"@),
            ..task
        }
    }
}

/// What the worker does next.
#[derive(Clone, Copy, Debug, PartialEq, Eq, Structural)]
pub enum YoutubeWork {
    /// Nothing.
    Idle,
    /// Finish the deletion that the confirmed upload at this place allows.
    Delete(usize),
    /// Go on with the upload at this place.
    Upload(usize),
}

/// The predicate of a confirmed upload whose file is still there.
pub open spec fn awaits_deletion() -> spec_fn(TaskModel) -> bool {
    |t: TaskModel| t.success_confirmed() && !t.local_deleted
}

/// The predicate of an upload that is due at `now`.
pub open spec fn is_due(now: i64) -> spec_fn(TaskModel) -> bool {
    |t: TaskModel|
        t.next_retry_at <= now && (t.runs_by_itself() || t.state == UploadTaskState::AuthRequired)
}

/// What the worker does at `now`: files that may go first, then the first upload that is due.
pub open spec fn work_of(
    tasks: Seq<TaskModel>,
    settings: YoutubeSettings,
    now: i64,
) -> YoutubeWork {
    let d = first_index(tasks, awaits_deletion());
    let u = first_index(tasks, is_due(now));
    if settings.delete_after_success && d < tasks.len() {
        YoutubeWork::Delete(d as usize)
    } else if settings.auto_upload && u < tasks.len() {
        YoutubeWork::Upload(u as usize)
    } else {
        YoutubeWork::Idle
    }
}

/// Whether an upload may be asked for again: not where its outcome is not known.
pub open spec fn may_be_retried(task: TaskModel) -> bool {
    task.state != UploadTaskState::UploadResultUnknown
}

/// Whether the service has taken an upload and named its video.
pub open spec fn has_succeeded(task: TaskModel) -> bool {
    &&& task.state == UploadTaskState::UploadSuccess
    &&& task.youtube_video_id matches Some(id) && !is_blank(id)
}

/// A task whose success is saved.
pub open spec fn success_saved(task: TaskModel, now: i64) -> TaskModel {
    TaskModel { success_persisted: true, updated_at: now, ..task }
}

/// A task whose file is gone.
pub open spec fn file_deleted(task: TaskModel, now: i64) -> TaskModel {
    TaskModel { local_deleted: true, updated_at: now, ..task }
}

/// The first exchange with the service that a due upload needs.
#[derive(Clone, Copy, Debug, PartialEq, Eq, Structural)]
pub enum UploadCall {
    /// Create an upload session.
    CreateSession,
    /// Ask how much has arrived.
    Query,
    /// Send the next piece.
    SendChunk,
}

/// A deletion that is allowed once the queue is saved: the place of the task in the queue, and
/// its file, unless the user keeps files.
#[derive(Debug)]
pub struct SafeDeletion {
    pub index: usize,
    pub path: Option<String>,
}

impl YoutubeStore {
    fn find_awaiting_deletion(&self) -> (r: usize)
        ensures
            r <= self.tasks.len(),
            r == first_index(task_models(self.tasks@), awaits_deletion()),
    {
        let n: usize = self.tasks.len();
        let ghost models = task_models(self.tasks@);
        let mut i: usize = 0;
        while i < n
            invariant
                i <= n,
                n == self.tasks.len(),
                models == task_models(self.tasks@),
                forall|j: int| 0 <= j < i ==> !awaits_deletion()(#[trigger] models[j]),
            decreases n - i,
        {
            assert(models[i as int] == self.tasks@[i as int]@);
            if self.tasks[i].has_confirmed_success() && !self.tasks[i].local_deleted {
                proof {
                    lemma_first_index(models, awaits_deletion(), i as int);
                }
                return i;
            }
            i = i + 1;
        }
        proof {
            lemma_first_index(models, awaits_deletion(), n as int);
        }
        n
    }

    /// The task whose file may be deleted now, if the user wants files to be deleted at all.
    pub fn find_pending_safe_delete(&self) -> (r: Option<String>)
        ensures
            ({
                let tasks = task_models(self.tasks@);
                let k = first_index(tasks, awaits_deletion());
                if self.settings.delete_after_success && k < tasks.len() {
                    r matches Some(id) && id@ == tasks[k].id
                } else {
                    r is None
                }
            }),
    {
        if !self.settings.delete_after_success {
            return None;
        }
        let k: usize = self.find_awaiting_deletion();
        if k < self.tasks.len() {
            assert(task_models(self.tasks@)[k as int] == self.tasks@[k as int]@);
            Some(self.tasks[k].id.clone())
        } else {
            None
        }
    }

    /// What the worker does at `now`: a deletion that is due comes first, because it can never
    /// lead to a second upload; then the first upload that is due, if uploads are switched on.
    pub fn next_work(&self, now: i64) -> (r: YoutubeWork)
        ensures
            r == work_of(task_models(self.tasks@), self.settings, now),
    {
        if self.settings.delete_after_success {
            let d: usize = self.find_awaiting_deletion();
            if d < self.tasks.len() {
                return YoutubeWork::Delete(d);
            }
        }
        if !self.settings.auto_upload {
            return YoutubeWork::Idle;
        }
        let n: usize = self.tasks.len();
        let ghost models = task_models(self.tasks@);
        let mut i: usize = 0;
        while i < n
            invariant
                i <= n,
                n == self.tasks.len(),
                models == task_models(self.tasks@),
                self.settings.auto_upload,
                ({
                    let d = first_index(models, awaits_deletion());
                    !(self.settings.delete_after_success && d < models.len())
                }),
                forall|j: int| 0 <= j < i ==> !is_due(now)(#[trigger] models[j]),
            decreases n - i,
        {
            let task = &self.tasks[i];
            assert(models[i as int] == task@);
            if task.next_retry_at <= now && (task.can_auto_upload() || task.state
                == UploadTaskState::AuthRequired) {
                proof {
                    lemma_first_index(models, is_due(now), i as int);
                }
                return YoutubeWork::Upload(i);
            }
            i = i + 1;
        }
        proof {
            lemma_first_index(models, is_due(now), n as int);
        }
        YoutubeWork::Idle
    }

    /// Notes that the creation of an upload session is about to be asked for.
    pub fn mark_session_creation_started(&mut self, task_id: &str, now: i64) -> (r: Result<
        (),
        String,
    >)
        ensures
            ({
                let tasks = task_models(old(self).tasks@);
                let k = task_position(tasks, task_id@);
                if k == tasks.len() {
                    r matches Err(m) && m@ == missing_task() && *final(self) == *old(self)
                } else {
                    r is Ok && only_changed(
                        *old(self),
                        *final(self),
                        k,
                        creation_started(tasks[k], now),
                    )
                }
            }),
    {
        let ghost before = task_models(self.tasks@);
        let k: usize = find_task(&self.tasks, task_id);
        if k == self.tasks.len() {
            return Err("YouTube 上传任务不存在。".to_owned());
        }
        let mut task = self.tasks[k].clone();
        task.state = UploadTaskState::Uploading;
        task.resumable_session_url = None;
        task.last_error = None;
        task.updated_at = now;
        self.tasks.set(k, task);
        assert(task_models(self.tasks@) =~= before.update(
            k as int,
            creation_started(before[k as int], now),
        ));
        Ok(())
    }

    /// Keeps the address of a new upload session.
    pub fn save_session_url(&mut self, task_id: &str, session_url: String, now: i64) -> (r: Result<
        (),
        String,
    >)
        ensures
            ({
                let tasks = task_models(old(self).tasks@);
                let k = task_position(tasks, task_id@);
                if k == tasks.len() {
                    r matches Err(m) && m@ == missing_task() && *final(self) == *old(self)
                } else {
                    r is Ok && only_changed(
                        *old(self),
                        *final(self),
                        k,
                        session_saved(tasks[k], session_url@, now),
                    )
                }
            }),
    {
        let ghost before = task_models(self.tasks@);
        let k: usize = find_task(&self.tasks, task_id);
        if k == self.tasks.len() {
            return Err("YouTube 上传任务不存在。".to_owned());
        }
        let mut task = self.tasks[k].clone();
        task.resumable_session_url = Some(session_url);
        task.state = UploadTaskState::Uploading;
        task.confirmed_bytes = 0;
        task.last_error = None;
        task.updated_at = now;
        self.tasks.set(k, task);
        assert(task_models(self.tasks@) =~= before.update(
            k as int,
            session_saved(before[k as int], session_url@, now),
        ));
        Ok(())
    }

    /// Notes that a task needs a new login.
    pub fn set_task_auth_required(&mut self, task_id: &str, message: &str, now: i64) -> (r: Result<
        (),
        String,
    >)
        ensures
            ({
                let tasks = task_models(old(self).tasks@);
                let k = task_position(tasks, task_id@);
                if k == tasks.len() {
                    r matches Err(m) && m@ == missing_task() && *final(self) == *old(self)
                } else {
                    r is Ok && only_changed(
                        *old(self),
                        *final(self),
                        k,
                        login_awaited(tasks[k], message@, now),
                    )
                }
            }),
    {
        let ghost before = task_models(self.tasks@);
        let k: usize = find_task(&self.tasks, task_id);
        if k == self.tasks.len() {
            return Err("YouTube 上传任务不存在。".to_owned());
        }
        let mut task = self.tasks[k].clone();
        task.state = UploadTaskState::AuthRequired;
        task.last_error = Some(message.to_owned());
        task.next_retry_at = saturating_later(now, 60);
        self.tasks.set(k, task);
        assert(task_models(self.tasks@) =~= before.update(
            k as int,
            login_awaited(before[k as int], message@, now),
        ));
        Ok(())
    }

    /// Takes note of an exchange with the service about a task.
    pub fn apply_step(&mut self, task_id: &str, step: UploadStep, now: i64) -> (r: Result<
        (),
        String,
    >)
        ensures
            ({
                let tasks = task_models(old(self).tasks@);
                let k = task_position(tasks, task_id@);
                if k == tasks.len() {
                    r matches Err(m) && m@ == missing_task() && *final(self) == *old(self)
                } else {
                    r is Ok && only_changed(*old(self), *final(self), k, stepped(tasks[k], step, now))
                }
            }),
    {
        let ghost before = task_models(self.tasks@);
        let k: usize = find_task(&self.tasks, task_id);
        if k == self.tasks.len() {
            return Err("YouTube 上传任务不存在。".to_owned());
        }
        let mut task = self.tasks[k].clone();
        apply_upload_step_at(&mut task, step, now);
        self.tasks.set(k, task);
        assert(task_models(self.tasks@) =~= before.update(
            k as int,
            stepped(before[k as int], step, now),
        ));
        Ok(())
    }

    /// Tries a task again because the user asks for it. A task whose remote result is unknown is
    /// refused: trying it again could create the video a second time.
    pub fn retry_task(&mut self, task_id: &str, now: i64) -> (r: Result<(), String>)
        ensures
            ({
                let tasks = task_models(old(self).tasks@);
                let k = task_position(tasks, task_id@);
                if k == tasks.len() {
                    r matches Err(m) && m@ == missing_task() && *final(self) == *old(self)
                } else if !may_be_retried(tasks[k]) {
                    r matches Err(m) && m@
                        == "这个任务的远端结果不明确。为防重复视频，不能自动重建上传 session。"@
                        && *final(self) == *old(self)
                } else {
                    r is Ok && only_changed(*old(self), *final(self), k, retry_asked(tasks[k], now))
                }
            }),
    {
        let ghost before = task_models(self.tasks@);
        let k: usize = find_task(&self.tasks, task_id);
        if k == self.tasks.len() {
            return Err("YouTube 上传任务不存在。".to_owned());
        }
        if self.tasks[k].state == UploadTaskState::UploadResultUnknown {
            return Err(
                "这个任务的远端结果不明确。为防重复视频，不能自动重建上传 session。".to_owned(),
            );
        }
        let mut task = self.tasks[k].clone();
        if task.state != UploadTaskState::UploadSuccess {
            task.state = UploadTaskState::RetryPending;
            task.next_retry_at = now;
            task.last_error = None;
        }
        self.tasks.set(k, task);
        assert(task_models(self.tasks@) =~= before.update(
            k as int,
            retry_asked(before[k as int], now),
        ));
        Ok(())
    }

    /// Forgets the account: uploads are switched off and every unfinished task waits for a login.
    pub fn log_out(&mut self)
        ensures
            final(self).settings.account_label is None,
            !final(self).settings.auto_upload,
            final(self).settings.privacy_status == old(self).settings.privacy_status,
            final(self).settings.delete_after_success == old(self).settings.delete_after_success,
            task_models(final(self).tasks@) == task_models(old(self).tasks@).map_values(
                |t: TaskModel| logged_out(t),
            ),
    {
        self.settings.account_label = None;
        self.settings.auto_upload = false;
        let ghost settings = self.settings;
        let ghost before = task_models(self.tasks@);
        let n: usize = self.tasks.len();
        let mut i: usize = 0;
        while i < n
            invariant
                i <= n,
                n == self.tasks.len(),
                n == before.len(),
                self.settings == settings,
                forall|j: int| 0 <= j < i ==> (#[trigger] self.tasks@[j])@ == logged_out(before[j]),
                forall|j: int| i <= j < n ==> (#[trigger] self.tasks@[j])@ == before[j],
            decreases n - i,
        {
            let mut task = self.tasks[i].clone();
            if task.state != UploadTaskState::UploadSuccess {
                task.state = UploadTaskState::AuthRequired;
                task.last_error = Some("YouTube 账号已退出；本地录像保留。".to_owned());
            }
            self.tasks.set(i, task);
            i = i + 1;
        }
        assert(task_models(self.tasks@) =~= before.map_values(|t: TaskModel| logged_out(t)));
    }

    /// Takes over what the user has chosen; uploads are always private.
    pub fn set_settings(&mut self, auto_upload: bool, delete_after_success: bool)
        ensures
            final(self).tasks == old(self).tasks,
            final(self).settings.auto_upload == auto_upload,
            final(self).settings.privacy_status@ == "private"@,
            final(self).settings.delete_after_success == delete_after_success,
            final(self).settings.account_label == old(self).settings.account_label,
    {
        self.settings.auto_upload = auto_upload;
        self.settings.privacy_status = "private".to_owned();
        self.settings.delete_after_success = delete_after_success;
    }

    /// Notes that the success of a task is about to be saved; the deletion of its file may only
    /// follow that. Refused for a task without a confirmed video.
    pub fn confirm_success(&mut self, task_id: &str, now: i64) -> (r: Result<usize, String>)
        ensures
            ({
                let tasks = task_models(old(self).tasks@);
                let k = task_position(tasks, task_id@);
                if k == tasks.len() {
                    r matches Err(m) && m@ == missing_task() && *final(self) == *old(self)
                } else if has_succeeded(tasks[k]) {
                    &&& r == Ok::<usize, String>(k as usize)
                    &&& only_changed(
                        *old(self),
                        *final(self),
                        k,
                        success_saved(tasks[k], now),
                    )
                } else {
                    r matches Err(m) && m@
                        == "YouTube 成功状态或 videoId 未确认，拒绝删除本地录像。"@ && *final(self)
                        == *old(self)
                }
            }),
    {
        let ghost before = task_models(self.tasks@);
        let k: usize = find_task(&self.tasks, task_id);
        if k == self.tasks.len() {
            return Err("YouTube 上传任务不存在。".to_owned());
        }
        assert(before[k as int] == self.tasks@[k as int]@);
        let confirmed = self.tasks[k].state == UploadTaskState::UploadSuccess
            && match &self.tasks[k].youtube_video_id {
            Some(id) => !blank(id.as_str()),
            None => false,
        };
        if !confirmed {
            return Err("YouTube 成功状态或 videoId 未确认，拒绝删除本地录像。".to_owned());
        }
        let mut task = self.tasks[k].clone();
        task.success_persisted = true;
        task.updated_at = now;
        self.tasks.set(k, task);
        assert(task_models(self.tasks@) =~= before.update(
            k as int,
            TaskModel { success_persisted: true, updated_at: now, ..before[k as int] },
        ));
        Ok(k)
    }

    /// The file that may be deleted for a task: none where the user keeps files, the success of the
    /// task is not saved, or it has no file.
    pub open spec fn deletable(self, index: int) -> Option<String> {
        if self.settings.delete_after_success && !is_blank(self.tasks@[index].local_path@)
            && self.tasks@[index]@.success_confirmed() {
            Some(self.tasks@[index].local_path)
        } else {
            None
        }
    }

    /// The file that may be deleted now that the success of a task has been saved: none where the
    /// user keeps files, or the task has no file.
    pub fn file_to_delete(&self, index: usize) -> (r: Option<String>)
        requires
            index < self.tasks.len(),
        ensures
            r == self.deletable(index as int),
    {
        let task = &self.tasks[index];
        if !self.settings.delete_after_success || blank(task.local_path.as_str())
            || !task.has_confirmed_success() {
            return None;
        }
        Some(task.local_path.clone())
    }

    /// Takes note of whether the success of a task was saved. A success that was not saved is not
    /// confirmed, and no file may be deleted for it; otherwise the file that may be deleted now.
    pub fn after_success_save(&mut self, index: usize, saved: Result<(), String>) -> (r: Result<
        Option<String>,
        String,
    >)
        requires
            index < old(self).tasks.len(),
        ensures
            match saved {
                Ok(_) => {
                    &&& *final(self) == *old(self)
                    &&& r matches Ok(path)
                    &&& path == old(self).deletable(index as int)
                },
                Err(e) => {
                    &&& r == Err::<Option<String>, String>(e)
                    &&& only_changed(
                        *old(self),
                        *final(self),
                        index as int,
                        unsaved(old(self).tasks@[index as int]@),
                    )
                    &&& final(self).deletable(index as int) is None
                },
            },
    {
        if let Err(error) = saved {
            let ghost before = task_models(self.tasks@);
            let mut task = self.tasks[index].clone();
            task.success_persisted = false;
            self.tasks.set(index, task);
            assert(task_models(self.tasks@) =~= before.update(
                index as int,
                unsaved(before[index as int]),
            ));
            return Err(error);
        }
        Ok(self.file_to_delete(index))
    }

    /// Notes that the success of a task is about to be saved, and says which file the deletion
    /// that follows may take; none where the user keeps files. Refused for a task without a
    /// video.
    pub fn safe_delete_successful_task(&mut self, task_id: &str, now: i64) -> (r: Result<
        SafeDeletion,
        String,
    >)
        ensures
            ({
                let tasks = task_models(old(self).tasks@);
                let k = task_position(tasks, task_id@);
                if k == tasks.len() {
                    r matches Err(m) && m@ == missing_task() && *final(self) == *old(self)
                } else if tasks[k].state == UploadTaskState::UploadSuccess
                    && tasks[k].youtube_video_id is Some && tasks[k].youtube_video_id->0.len() > 0 {
                    &&& r matches Ok(d)
                    &&& d.index == k
                    &&& opt_text(d.path) == if old(self).settings.delete_after_success {
                        Some(tasks[k].local_path)
                    } else {
                        None
                    }
                    &&& only_changed(
                        *old(self),
                        *final(self),
                        k,
                        success_saved(tasks[k], now),
                    )
                } else {
                    r matches Err(m) && m@ == "YouTube success/videoId 未确认，拒绝删除本地录像。"@
                        && *final(self) == *old(self)
                }
            }),
    {
        let ghost before = task_models(self.tasks@);
        let k: usize = find_task(&self.tasks, task_id);
        if k == self.tasks.len() {
            return Err("YouTube 上传任务不存在。".to_owned());
        }
        assert(before[k as int] == self.tasks@[k as int]@);
        let confirmed = self.tasks[k].state == UploadTaskState::UploadSuccess
            && match &self.tasks[k].youtube_video_id {
            Some(id) => !id.as_str().is_empty(),
            None => false,
        };
        if !confirmed {
            return Err("YouTube success/videoId 未确认，拒绝删除本地录像。".to_owned());
        }
        let mut task = self.tasks[k].clone();
        task.success_persisted = true;
        task.updated_at = now;
        let path = if self.settings.delete_after_success {
            Some(task.local_path.clone())
        } else {
            None
        };
        self.tasks.set(k, task);
        assert(task_models(self.tasks@) =~= before.update(
            k as int,
            TaskModel { success_persisted: true, updated_at: now, ..before[k as int] },
        ));
        Ok(SafeDeletion { index: k, path })
    }

    /// Notes that the file of a task is gone.
    pub fn note_deleted(&mut self, index: usize, now: i64)
        requires
            index < old(self).tasks.len(),
        ensures
            only_changed(
                *old(self),
                *final(self),
                index as int,
                file_deleted(task_models(old(self).tasks@)[index as int], now),
            ),
    {
        let ghost before = task_models(self.tasks@);
        let mut task = self.tasks[index].clone();
        task.local_deleted = true;
        task.updated_at = now;
        self.tasks.set(index, task);
        assert(task_models(self.tasks@) =~= before.update(
            index as int,
            TaskModel { local_deleted: true, updated_at: now, ..before[index as int] },
        ));
    }
}

/// The first exchange with the service that a due upload needs.
pub open spec fn first_call_of(task: TaskModel) -> UploadCall {
    if task.resumable_session_url is None {
        UploadCall::CreateSession
    } else if task.state != UploadTaskState::Uploading || task.confirmed_bytes == 0 {
        UploadCall::Query
    } else {
        UploadCall::SendChunk
    }
}

/// The first exchange with the service that a due upload needs: without a session, create one;
/// with one that may not be up to date, ask how much has arrived; else send the next piece.
pub fn first_call(task: &UploadTask) -> (r: UploadCall)
    ensures
        r == first_call_of(task@),
{
    if task.resumable_session_url.is_none() {
        UploadCall::CreateSession
    } else if task.state != UploadTaskState::Uploading || task.confirmed_bytes == 0 {
        UploadCall::Query
    } else {
        UploadCall::SendChunk
    }
}

/// The token of a login that can be used, if it can.
pub fn usable_token(authorized: bool, access_token: Option<String>) -> (r: Option<String>)
    ensures
        r == if authorized && access_token is Some && access_token->0@.len() > 0 {
            access_token
        } else {
            None
        },
{
    if !authorized {
        return None;
    }
    match access_token {
        Some(token) => if token.as_str().is_empty() {
            None
        } else {
            Some(token)
        },
        None => None,
    }
}

/// The token that an upload is made with, from the login as it could be read, or why there is
/// none.
pub fn upload_token(auth: Result<YoutubeAuthResult, String>) -> (r: Result<String, String>)
    ensures
        match auth {
            Ok(a) => if a.authorized && a.access_token is Some && a.access_token->0@.len() > 0 {
                r == Ok::<String, String>(a.access_token->0)
            } else {
                r matches Err(m) && m@ == "YouTube 需要重新授权；录像保留。"@
            },
            Err(e) => r matches Err(m) && m@ == "读取 YouTube 授权失败: "@ + e@,
        },
{
    match auth {
        Ok(auth) => match usable_token(auth.authorized, auth.access_token) {
            Some(token) => Ok(token),
            None => Err("YouTube 需要重新授权；录像保留。".to_owned()),
        },
        Err(error) => Err(concat("读取 YouTube 授权失败: ", error.as_str())),
    }
}

/// Accepts a file for an upload: it is there, a regular one and not empty.
pub fn verify_nonempty_file(path: &str, facts: &Result<FileFacts, String>) -> (r: Result<
    (),
    String,
>)
    ensures
        r is Ok <==> (*facts matches Ok(f) && f.is_file && f.len > 0),
        r matches Err(message) ==> message@ == match *facts {
            Err(error) => "录像文件不存在: "@ + error@,
            Ok(_) => "录像文件为空，拒绝上传或删除: "@ + path@,
        },
{
    match facts {
        Err(error) => Err(concat("录像文件不存在: ", error.as_str())),
        Ok(f) => {
            if !f.is_file || f.len == 0 {
                Err(concat("录像文件为空，拒绝上传或删除: ", path))
            } else {
                Ok(())
            }
        },
    }
}

/// A task whose success could not be saved: it does not count as saved.
pub open spec fn unsaved(task: TaskModel) -> TaskModel {
    TaskModel { success_persisted: false, ..task }
}

/// Starting a queue twice is the same as starting it once.
pub proof fn law_restart_twice(task: TaskModel, now: i64, later: i64)
    ensures
        restarted(restarted(task, now), later) == (TaskModel {
            updated_at: later,
            ..restarted(task, now)
        }),
{
}

/// An upload that was interrupted without a session to resume is never taken up again by itself:
/// after a restart it is not among the uploads that are due, and no restart changes that.
pub proof fn law_no_second_video(task: TaskModel, now: i64, later: i64)
    requires
        task.state == UploadTaskState::Uploading,
        task.resumable_session_url is None,
    ensures
        restarted(task, now).state == UploadTaskState::UploadResultUnknown,
        !is_due(later)(restarted(task, now)),
        restarted(restarted(task, now), later).state == UploadTaskState::UploadResultUnknown,
{
}

/// The request for a session leaves a task that no restart takes up again by itself; with the
/// address of the session saved, a restart resumes this session and creates no other.
pub proof fn law_creation_barrier(task: TaskModel, url: Seq<char>, now: i64, later: i64)
    ensures
        !is_due(later)(restarted(creation_started(task, now), now)),
        ({
            let resumed = restarted(session_saved(task, url, now), now);
            &&& resumed.resumable_session_url == Some(url)
            &&& first_call_of(resumed) == UploadCall::Query
        }),
{
}

/// No exchange with the service, and no restart, marks a success as saved; a save that failed takes
/// the mark away; and a file is offered for deletion only while the mark stands.
pub proof fn law_deletion_needs_saved_success(task: TaskModel, step: UploadStep, now: i64)
    ensures
        !unsaved(task).success_confirmed(),
        !awaits_deletion()(unsaved(task)),
        stepped(task, step, now).success_persisted ==> task.success_persisted,
        step is Success ==> !stepped(task, step, now).success_persisted,
        restarted(task, now).success_persisted == task.success_persisted,
        awaits_deletion()(task) ==> task.success_persisted && task.state
            == UploadTaskState::UploadSuccess,
{
}

/// No more bytes are counted as confirmed than the file has.
pub proof fn law_confirmed_within_file(task: TaskModel, step: UploadStep, now: i64)
    requires
        task.confirmed_bytes <= task.file_size,
    ensures
        stepped(task, step, now).confirmed_bytes <= stepped(task, step, now).file_size,
        stepped(task, step, now).file_size == task.file_size,
        step is Success ==> stepped(task, step, now).confirmed_bytes == task.file_size,
{
}

/// A recording is queued once: queueing it again is refused.
pub proof fn law_queued_once(tasks: Seq<TaskModel>, task: TaskModel)
    ensures
        is_queued(tasks.push(task), task),
{
    let all = tasks.push(task);
    assert(same_recording(all[tasks.len() as int], task));
}

/// A login, as the system hands it out.
#[derive(Debug)]
pub struct YoutubeAuthResult {
    pub authorized: bool,
    pub access_token: Option<String>,
    pub account_label: Option<String>,
    pub expires_at_millis: Option<i64>,
}

/// A recording that is to be put into an MP4 container.
#[derive(Debug)]
pub struct FinalizeMp4Request {
    pub input_path: String,
    pub output_path: String,
}

/// The MP4 that came of a recording.
#[derive(Debug)]
pub struct FinalizeMp4Result {
    pub output_path: String,
    pub bytes: u64,
}

/// The queue, and whether there is a login.
#[derive(Debug)]
pub struct YoutubeStatus {
    pub store: YoutubeStore,
    pub authorized: bool,
}

/// Puts the status together. `auth` is the login that the system keeps, if it could be read.
pub fn youtube_status(store: YoutubeStore, auth: Result<YoutubeAuthResult, String>) -> (r:
    YoutubeStatus)
    ensures
        r.store == store,
        r.authorized == (auth matches Ok(a) && a.authorized && (a.access_token matches Some(t)
            && t@.len() > 0)),
{
    let authorized = match auth {
        Ok(auth) => usable_token(auth.authorized, auth.access_token).is_some(),
        Err(_) => false,
    };
    YoutubeStatus { store, authorized }
}

/// Checks a login that was just made. Returns the name of the account.
pub fn check_authorization(auth: &YoutubeAuthResult) -> (r: Result<Option<String>, String>)
    ensures
        if auth.authorized && (auth.access_token matches Some(t) && t@.len() > 0) {
            r == Ok::<Option<String>, String>(auth.account_label)
        } else {
            r matches Err(m) && m@ == "YouTube 授权没有返回有效 access token。"@
        },
{
    let usable = match &auth.access_token {
        Some(token) => auth.authorized && !token.as_str().is_empty(),
        None => false,
    };
    if !usable {
        return Err("YouTube 授权没有返回有效 access token。".to_owned());
    }
    Ok(
        match &auth.account_label {
            Some(label) => Some(label.clone()),
            None => None,
        },
    )
}

/// `s` with every full-width colon replaced by a plain one.
pub open spec fn plain_colons(s: Seq<char>) -> Seq<char> {
    s.map_values(
        |c: char|
            if c == '：' {
                ':'
            } else {
                c
            },
    )
}

fn with_plain_colons(s: &str) -> (r: String)
    ensures
        r@ == plain_colons(s@),
{
    let v = to_chars(s);
    let mut out = String::new();
    let mut i: usize = 0;
    while i < v.len()
        invariant
            i <= v.len(),
            v@ == s@,
            out@ == plain_colons(s@).take(i as int),
        decreases v.len() - i,
    {
        if v[i] == '：' {
            out.push(':');
        } else {
            out.push(v[i]);
        }
        i = i + 1;
        assert(out@ =~= plain_colons(s@).take(i as int));
    }
    assert(out@ =~= plain_colons(s@));
    out
}

/// A recording that a user hands over for upload.
#[derive(Debug)]
pub struct ManualUpload {
    pub path: String,
    pub title: String,
    pub streamer_name: String,
}

/// Takes a recording over for upload: it has to be an MP4. Its title is the given one, or the stem
/// of the file, with plain colons.
pub fn manual_upload(path: &str, title: Option<String>, streamer_name: Option<String>) -> (r:
    Result<ManualUpload, String>)
    ensures
        if has_extension(trimmed(path@), "mp4"@) {
            &&& r matches Ok(upload)
            &&& upload.path@ == trimmed(path@)
            &&& upload.title@ == match title {
                Some(t) if !is_blank(t@) => t@,
                _ => plain_colons(
                    match stem_of(trimmed(path@)) {
                        Some(stem) => stem,
                        None => "Live Replay"@,
                    },
                ),
            }
            &&& upload.streamer_name@ == match streamer_name {
                Some(n) => n@,
                None => "Live Replay"@,
            }
        } else {
            r matches Err(m) && m@ == "当前 YouTube 手动验证只接受完整 MP4。"@
        },
{
    let path = trim(path);
    if !extension_is(path.as_str(), "mp4") {
        return Err("当前 YouTube 手动验证只接受完整 MP4。".to_owned());
    }
    let stem = match file_stem(path.as_str()) {
        Some(stem) => stem,
        None => "Live Replay".to_owned(),
    };
    let fallback = with_plain_colons(stem.as_str());
    let title = match title {
        Some(title) => if blank(title.as_str()) {
            fallback
        } else {
            title
        },
        None => fallback,
    };
    let streamer_name = match streamer_name {
        Some(name) => name,
        None => "Live Replay".to_owned(),
    };
    Ok(ManualUpload { path, title, streamer_name })
}

/// An upload that is neither finished nor stopped is due as soon as its time has come, and never
/// before: an upload in progress too, so that every part of the file is sent.
pub proof fn law_unfinished_upload_is_due(task: TaskModel, now: i64)
    requires
        task.state != UploadTaskState::UploadSuccess,
        task.state != UploadTaskState::UploadResultUnknown,
        task.state != UploadTaskState::Recording,
    ensures
        is_due(now)(task) <==> task.next_retry_at <= now,
{
}

/// A finished upload, one whose outcome is not known and a recording that goes on are never due.
pub proof fn law_settled_upload_is_left_alone(task: TaskModel, now: i64)
    requires
        task.state == UploadTaskState::UploadSuccess || task.state
            == UploadTaskState::UploadResultUnknown || task.state == UploadTaskState::Recording,
    ensures
        !is_due(now)(task),
        !task.runs_by_itself(),
{
}

/// An upload goes on without being asked, unless it waits for a login: what the service confirmed,
/// a session that was opened and a lost network put nothing off.
pub proof fn law_upload_goes_on(
    task: TaskModel,
    bytes: u64,
    error: String,
    url: Seq<char>,
    t: i64,
    now: i64,
)
    requires
        task.next_retry_at <= now,
    ensures
        is_due(now)(stepped(task, UploadStep::Progress(bytes), t)),
        stepped(task, UploadStep::Progress(bytes), t).runs_by_itself(),
        is_due(now)(session_saved(task, url, t)),
        session_saved(task, url, t).runs_by_itself(),
        is_due(now)(stepped(task, UploadStep::WaitingForNetwork(error), t)),
        stepped(task, UploadStep::WaitingForNetwork(error), t).runs_by_itself(),
        is_due(now)(stepped(task, UploadStep::AuthRequired(error), t)),
        !stepped(task, UploadStep::AuthRequired(error), t).runs_by_itself(),
{
}

/// After a failure that passes, the upload is tried again, and not at once.
pub proof fn law_failed_upload_is_tried_again(task: TaskModel, error: String, t: i64, now: i64)
    requires
        t < i64::MAX - 3600,
    ensures
        ({
            let after = stepped(task, UploadStep::Retryable(error), t);
            &&& is_due(now)(after) <==> after.next_retry_at <= now
            &&& t + 5 <= after.next_retry_at <= t + 3600
            &&& after.runs_by_itself()
            &&& after.attempts >= task.attempts
            &&& task.attempts < u32::MAX ==> after.attempts == task.attempts + 1
            &&& after.last_error == Some(error@)
        }),
{
    let attempts: nat = if task.attempts == u32::MAX {
        u32::MAX as nat
    } else {
        (task.attempts + 1) as nat
    };
    law_delay_has_bounds(5, attempts, 10, 3600);
}

/// Whatever happens to an upload, it stays the upload of the same recording, and the service is
/// asked about the same session.
pub proof fn law_upload_keeps_identity(
    task: TaskModel,
    step: UploadStep,
    url: Seq<char>,
    message: Seq<char>,
    now: i64,
)
    ensures
        same_upload(task, stepped(task, step, now)),
        same_upload(task, creation_started(task, now)),
        same_upload(task, session_saved(task, url, now)),
        same_upload(task, login_awaited(task, message, now)),
        same_upload(task, retry_asked(task, now)),
        same_upload(task, logged_out(task)),
        same_upload(task, restarted(task, now)),
        same_upload(task, unsaved(task)),
        stepped(task, step, now).resumable_session_url == task.resumable_session_url,
        session_saved(task, url, now).resumable_session_url == Some(url),
        creation_started(task, now).resumable_session_url is None,
        login_awaited(task, message, now).resumable_session_url == task.resumable_session_url,
        retry_asked(task, now).resumable_session_url == task.resumable_session_url,
        logged_out(task).resumable_session_url == task.resumable_session_url,
        restarted(task, now).resumable_session_url == task.resumable_session_url,
        unsaved(task).resumable_session_url == task.resumable_session_url,
{
}

/// Whether two states are states of one upload: of the same recording, file and title.
pub open spec fn same_upload(a: TaskModel, b: TaskModel) -> bool {
    &&& a.id == b.id
    &&& a.streamer_name == b.streamer_name
    &&& a.local_path == b.local_path
    &&& a.youtube_title == b.youtube_title
    &&& a.started_at == b.started_at
    &&& a.ended_at == b.ended_at
    &&& a.file_size == b.file_size
    &&& a.created_at == b.created_at
    &&& a.local_deleted == b.local_deleted
}

/// What was confirmed is never taken back by anything but the service: a waiting, failed or
/// interrupted upload goes on where it was, and only a new session begins at the start.
pub proof fn law_confirmed_bytes_kept(
    task: TaskModel,
    step: UploadStep,
    url: Seq<char>,
    message: Seq<char>,
    now: i64,
)
    ensures
        !(step is Progress || step is Success) ==> stepped(task, step, now).confirmed_bytes
            == task.confirmed_bytes,
        step matches UploadStep::Progress(bytes) ==> (bytes <= task.file_size ==> stepped(
            task,
            step,
            now,
        ).confirmed_bytes == bytes) && (bytes > task.file_size ==> stepped(
            task,
            step,
            now,
        ).confirmed_bytes == task.file_size),
        login_awaited(task, message, now).confirmed_bytes == task.confirmed_bytes,
        retry_asked(task, now).confirmed_bytes == task.confirmed_bytes,
        logged_out(task).confirmed_bytes == task.confirmed_bytes,
        restarted(task, now).confirmed_bytes == task.confirmed_bytes,
        session_saved(task, url, now).confirmed_bytes == 0,
{
}

/// A video is only known once the service named it, and the name is kept.
pub proof fn law_video_named_by_service(
    task: TaskModel,
    step: UploadStep,
    url: Seq<char>,
    message: Seq<char>,
    now: i64,
)
    ensures
        match step {
            UploadStep::Success(id) => {
                &&& stepped(task, step, now).youtube_video_id == Some(id@)
                &&& stepped(task, step, now).state == UploadTaskState::UploadSuccess
            },
            _ => {
                &&& stepped(task, step, now).youtube_video_id == task.youtube_video_id
                &&& stepped(task, step, now).state != UploadTaskState::UploadSuccess
            },
        },
        creation_started(task, now).youtube_video_id == task.youtube_video_id,
        session_saved(task, url, now).youtube_video_id == task.youtube_video_id,
        login_awaited(task, message, now).youtube_video_id == task.youtube_video_id,
        retry_asked(task, now).youtube_video_id == task.youtube_video_id,
        logged_out(task).youtube_video_id == task.youtube_video_id,
        restarted(task, now).youtube_video_id == task.youtube_video_id,
        restarted(task, now).state == UploadTaskState::UploadSuccess <==> task.state
            == UploadTaskState::UploadSuccess,
{
}

/// An upload that a restart interrupted goes on in its session, which the service is asked about
/// first. All that was not being worked on stays as it was.
pub proof fn law_restart_resumes(task: TaskModel, t: i64, now: i64)
    ensures
        ({
            let after = restarted(task, t);
            &&& task.state == UploadTaskState::Uploading && task.resumable_session_url is Some
                ==> first_call_of(after) == UploadCall::Query && after.runs_by_itself() && (is_due(
                now,
            )(after) <==> task.next_retry_at <= now)
            &&& task.state == UploadTaskState::Recording ==> after.runs_by_itself()
            &&& task.state != UploadTaskState::Uploading && task.state
                != UploadTaskState::Recording ==> after.state == task.state && after.last_error
                == task.last_error && (is_due(now)(after) <==> is_due(now)(task))
            &&& after.next_retry_at == task.next_retry_at
            &&& after.attempts == task.attempts
        }),
{
}

/// An upload that is asked for again is due at once; a finished one is not repeated.
pub proof fn law_asked_upload_is_due(task: TaskModel, now: i64)
    ensures
        task.state != UploadTaskState::UploadSuccess ==> is_due(now)(retry_asked(task, now))
            && retry_asked(task, now).runs_by_itself() && retry_asked(task, now).last_error is None,
        task.state == UploadTaskState::UploadSuccess ==> retry_asked(task, now) == task,
{
}

/// Without a login an upload rests for a minute and says why; it starts no upload by itself.
pub proof fn law_login_is_awaited(task: TaskModel, message: Seq<char>, t: i64, now: i64)
    requires
        t < i64::MAX - 60,
    ensures
        is_due(now)(login_awaited(task, message, t)) <==> t + 60 <= now,
        !login_awaited(task, message, t).runs_by_itself(),
        login_awaited(task, message, t).state == UploadTaskState::AuthRequired,
        login_awaited(task, message, t).last_error == Some(message),
        task.state == UploadTaskState::UploadSuccess ==> logged_out(task) == task,
        task.state != UploadTaskState::UploadSuccess ==> logged_out(task).state
            == UploadTaskState::AuthRequired && logged_out(task).last_error is Some,
{
}

/// A recording that is queued is due at once, and is the recording that was handed over.
pub proof fn law_new_upload_is_due(
    id: Seq<char>,
    streamer_name: Seq<char>,
    local_path: Seq<char>,
    youtube_title: Seq<char>,
    started_at: i64,
    ended_at: i64,
    file_size: u64,
    t: i64,
    now: i64,
)
    requires
        t <= now,
    ensures
        ({
            let task = queued(
                id,
                streamer_name,
                local_path,
                youtube_title,
                started_at,
                ended_at,
                file_size,
                t,
            );
            &&& is_due(now)(task) && task.runs_by_itself()
            &&& first_call_of(task) == UploadCall::CreateSession
            &&& !awaits_deletion()(task)
            &&& task.id == id
            &&& task.streamer_name == streamer_name
            &&& task.local_path == local_path
            &&& task.youtube_title == youtube_title
            &&& task.started_at == started_at
            &&& task.ended_at == ended_at
            &&& task.file_size == file_size
            &&& task.confirmed_bytes == 0 && task.attempts == 0
            &&& task.youtube_video_id is None && task.last_error is None
        }),
{
}

/// What the service answers about a session decides the next step: only an answer of success that
/// names a video ends an upload well, what it confirms goes on, a refused login asks for one, and
/// trouble that passes is waited out.
pub proof fn law_answer_decides_the_step(
    answer: ServiceAnswer,
    total: u64,
    video_id: Option<Seq<char>>,
    step: UploadStep,
)
    requires
        is_session_step(answer, total, video_id, step),
    ensures
        step matches UploadStep::Success(v) ==> (answer.status == 200 || answer.status == 201)
            && video_id == Some(v@) && !is_blank(v@),
        (answer.status == 200 || answer.status == 201) && video_id is Some && !is_blank(
            video_id->0,
        ) ==> step is Success,
        (answer.status == 200 || answer.status == 201) && !(step is Success)
            ==> step is ResultUnknown,
        step is Progress <==> answer.status == 308,
        step matches UploadStep::Progress(bytes) ==> bytes <= total,
        answer.status == 308 && answer.range is None ==> step == UploadStep::Progress(0),
        step is AuthRequired <==> answer.status == 401 || answer.status == 403,
        step is Retryable <==> 500 <= answer.status < 600 || answer.status == 429,
        !(step is WaitingForNetwork),
        step matches UploadStep::AuthRequired(m) ==> answer.status_text@.is_prefix_of(m@),
        step matches UploadStep::Retryable(m) ==> answer.status_text@.is_prefix_of(m@),
{
    law_answer_text(answer.status_text@, answer.body@);
}

/// A session is only created once, and asked about before it is used again.
pub proof fn law_call_fits_the_session(task: TaskModel)
    ensures
        first_call_of(task) == UploadCall::CreateSession <==> task.resumable_session_url is None,
        first_call_of(task) == UploadCall::SendChunk ==> task.state == UploadTaskState::Uploading
            && task.confirmed_bytes > 0,
        task.resumable_session_url is Some && task.state == UploadTaskState::Uploading
            && task.confirmed_bytes > 0 ==> first_call_of(task) == UploadCall::SendChunk,
{
}

/// A file waits for its deletion once the upload has succeeded, the video is named and all that was
/// saved; a file that is gone does not.
pub proof fn law_saved_success_awaits_deletion(task: TaskModel, id: String, now: i64)
    requires
        !is_blank(id@),
    ensures
        ({
            let done = stepped(task, UploadStep::Success(id), now);
            &&& !awaits_deletion()(done)
            &&& awaits_deletion()(
                TaskModel { success_persisted: true, local_deleted: false, ..done },
            )
            &&& !awaits_deletion()(
                TaskModel { success_persisted: true, local_deleted: true, ..done },
            )
        }),
        task.youtube_video_id is None ==> !awaits_deletion()(task) && !task.success_confirmed(),
        task.state != UploadTaskState::UploadSuccess ==> !awaits_deletion()(task)
            && !task.success_confirmed(),
{
}

/// Two uploads are of the same recording where they share the file, or the streamer and both times;
/// which is named first makes no difference.
pub proof fn law_same_recording(a: TaskModel, b: TaskModel)
    ensures
        same_recording(a, a),
        same_recording(a, b) == same_recording(b, a),
        a.local_path == b.local_path ==> same_recording(a, b),
        a.local_path != b.local_path && a.streamer_name != b.streamer_name ==> !same_recording(
            a,
            b,
        ),
        a.local_path != b.local_path && a.started_at != b.started_at ==> !same_recording(a, b),
        a.local_path != b.local_path && a.ended_at != b.ended_at ==> !same_recording(a, b),
        a.streamer_name == b.streamer_name && a.started_at == b.started_at && a.ended_at
            == b.ended_at ==> same_recording(a, b),
{
}

/// A video is shown to others only where exactly that was asked for.
pub proof fn law_private_by_default(value: Seq<char>)
    ensures
        privacy_text(value) == "public"@ ==> lowered(trimmed(value)) == "public"@,
        privacy_text(value) == "unlisted"@ ==> lowered(trimmed(value)) == "unlisted"@,
        privacy_text(value) == "public"@ || privacy_text(value) == "unlisted"@ || privacy_text(
            value,
        ) == "private"@,
        lowered(trimmed(value)) == "public"@ ==> privacy_text(value) == "public"@,
        lowered(trimmed(value)) == "unlisted"@ ==> privacy_text(value) == "unlisted"@,
        "public"@ != "private"@ && "unlisted"@ != "private"@ && "public"@ != "unlisted"@,
{
    reveal_strlit("public");
    reveal_strlit("unlisted");
    reveal_strlit("private");
    assert("public"@[1] == 'u' && "private"@[1] == 'r' && "unlisted"@[1] == 'n');
}

/// An answer is told as its status, and its body behind it where it has one.
pub proof fn law_answer_text(status: Seq<char>, body: Seq<char>)
    ensures
        status.is_prefix_of(answer_text(status, body)),
        is_blank(body) ==> answer_text(status, body) == status,
        !is_blank(body) ==> answer_text(status, body) == status + ": "@ + body,
{
}

/// The upload goes on behind the last byte that the service says it has, within the file.
pub proof fn law_service_says_where_to_go_on(first: nat, last: u64, total: u64)
    ensures
        confirmed_by(Some("bytes="@ + decimal(first) + "-"@ + decimal(last as nat)), total)
            == if last < total {
            last + 1
        } else {
            total as int
        },
        confirmed_by(None, total) == 0,
{
    reveal_strlit("bytes=");
    reveal_strlit("-");
    let dash = seq!['-'];
    assert("-"@ =~= dash);
    let a = decimal(first);
    let b = decimal(last as nat);
    let range = "bytes="@ + a + "-"@ + b;
    lemma_decimal_denotes(first);
    lemma_decimal_denotes(last as nat);
    assert("bytes="@.is_prefix_of(range));
    assert(range.skip("bytes="@.len() as int) =~= a + dash + b);
    assert forall|i: int| 0 <= i < a.len() implies (#[trigger] a[i]) != '-' by {
        assert(is_digit(a[i]));
    }
    assert forall|i: int| 0 <= i < b.len() implies (#[trigger] b[i]) != '-' by {
        assert(is_digit(b[i]));
    }
    lemma_split_first_at(a, b, '-');
    lemma_split_first_none(b, '-', 0);
    lemma_parse_decimal(last as nat, u64::MAX as nat);
}

/// The worker uploads as soon as an upload is due and uploads are switched on, unless a file may go
/// first; it deletes only what awaits deletion, and only where that is switched on.
pub proof fn law_worker_takes_due_uploads(
    tasks: Seq<TaskModel>,
    settings: YoutubeSettings,
    now: i64,
    i: int,
)
    requires
        tasks.len() <= usize::MAX,
        0 <= i < tasks.len(),
    ensures
        settings.auto_upload && tasks[i].next_retry_at <= now && (tasks[i].state
            == UploadTaskState::ReadyToUpload || tasks[i].state == UploadTaskState::Uploading
            || tasks[i].state == UploadTaskState::RetryPending || tasks[i].state
            == UploadTaskState::WaitingForNetwork || tasks[i].state
            == UploadTaskState::AuthRequired) ==> !(work_of(tasks, settings, now) is Idle),
        work_of(tasks, settings, now) matches YoutubeWork::Upload(u) ==> settings.auto_upload && u
            < tasks.len() && tasks[u as int].next_retry_at <= now && tasks[u as int].state
            != UploadTaskState::UploadSuccess && tasks[u as int].state
            != UploadTaskState::UploadResultUnknown && tasks[u as int].state
            != UploadTaskState::Recording,
        work_of(tasks, settings, now) matches YoutubeWork::Delete(d)
            ==> settings.delete_after_success && d < tasks.len() && tasks[d as int].state
            == UploadTaskState::UploadSuccess && tasks[d as int].success_persisted
            && tasks[d as int].youtube_video_id is Some && !tasks[d as int].local_deleted,
        settings.delete_after_success && awaits_deletion()(tasks[i]) ==> work_of(
            tasks,
            settings,
            now,
        ) is Delete,
{
    lemma_first_index_found(tasks, awaits_deletion());
    lemma_first_index_found(tasks, is_due(now));
    assert(is_due(now)(tasks[i]) ==> first_index(tasks, is_due(now)) <= i);
    assert(awaits_deletion()(tasks[i]) ==> first_index(tasks, awaits_deletion()) <= i);
}

/// A file that awaits its deletion does so until it is gone; saving a success, or that the file is
/// gone, changes nothing else of an upload.
pub proof fn law_deleted_once(task: TaskModel, id: String, t: i64, now: i64)
    requires
        !is_blank(id@),
        !task.local_deleted,
    ensures
        ({
            let saved = success_saved(stepped(task, UploadStep::Success(id), t), now);
            &&& awaits_deletion()(saved)
            &&& saved.success_confirmed()
            &&& !awaits_deletion()(file_deleted(saved, now))
            &&& file_deleted(saved, now).success_confirmed()
        }),
        success_saved(task, now) == (TaskModel { success_persisted: true, updated_at: now, ..task }),
        file_deleted(task, now).local_deleted,
        file_deleted(task, now).state == task.state,
        file_deleted(task, now).local_path == task.local_path,
        file_deleted(task, now).youtube_video_id == task.youtube_video_id,
{
}

/// A session is created only where the service said so and gave a safe address for it; a refused
/// login asks for one, any other refusal is tried again, and an answer without an address is not.
pub proof fn law_created_sessions(answer: ServiceAnswer, result: Result<String, UploadStep>)
    requires
        is_creation_answer(answer, result),
    ensures
        result matches Ok(url) ==> 200 <= answer.status < 300 && answer.location == Some(url)
            && "https://"@.is_prefix_of(url@),
        answer.status == 401 || answer.status == 403 <==> (result matches Err(step)
            && step is AuthRequired),
        !(200 <= answer.status < 300) && answer.status != 401 && answer.status != 403 <==> (
        result matches Err(step) && step is Retryable),
        200 <= answer.status < 300 && answer.location is None ==> (result matches Err(step)
            && step is ResultUnknown),
        200 <= answer.status < 300 ==> (answer.location matches Some(url) ==> (
        "https://"@.is_prefix_of(url@) ==> result is Ok)),
        result matches Err(UploadStep::AuthRequired(m)) ==> answer.status_text@.is_prefix_of(m@),
        result matches Err(UploadStep::Retryable(m)) ==> answer.status_text@.is_prefix_of(m@),
{
    law_answer_text(answer.status_text@, answer.body@);
}

/// The chunks of a file follow each other without a gap, each of at most eight mebibytes, up to its
/// last byte.
pub proof fn law_chunks_make_the_file(
    confirmed_bytes: u64,
    total_size: u64,
    chunk: Option<ChunkRange>,
)
    requires
        is_next_chunk(confirmed_bytes, total_size, chunk),
    ensures
        chunk is None <==> confirmed_bytes >= total_size,
        chunk matches Some(c) ==> {
            &&& c.start == confirmed_bytes
            &&& c.start + c.length == c.end + 1
            &&& 0 < c.length <= 8_388_608
            &&& c.end < total_size
            &&& c.length < 8_388_608 ==> c.end + 1 == total_size
        },
{
}

/// An upload whose outcome is not known is not repeated, also when asked for; every other may be.
pub proof fn law_unknown_outcome_is_not_repeated(task: TaskModel, error: String, now: i64)
    ensures
        !may_be_retried(stepped(task, UploadStep::ResultUnknown(error), now)),
        task.state == UploadTaskState::Uploading && task.resumable_session_url is None
            ==> !may_be_retried(restarted(task, now)),
        task.state == UploadTaskState::AuthRequired || task.state == UploadTaskState::RetryPending
            || task.state == UploadTaskState::WaitingForNetwork || task.state
            == UploadTaskState::ReadyToUpload || task.state == UploadTaskState::Uploading
            ==> may_be_retried(task),
{
}

/// A success counts once the service has named the video, and is confirmed once that is saved.
pub proof fn law_success_needs_a_video(task: TaskModel, id: String, t: i64, now: i64)
    ensures
        has_succeeded(stepped(task, UploadStep::Success(id), t)) <==> !is_blank(id@),
        has_succeeded(task) ==> success_saved(task, now).success_confirmed(),
        task.success_confirmed() ==> has_succeeded(task) && task.success_persisted,
        task.youtube_video_id is None ==> !has_succeeded(task),
{
}

/// A task is found by its identifier wherever there is one, and a change concerns that task alone.
pub proof fn law_task_is_found(tasks: Seq<TaskModel>, id: Seq<char>, i: int)
    requires
        0 <= i < tasks.len(),
    ensures
        0 <= task_position(tasks, id) <= tasks.len(),
        task_position(tasks, id) < tasks.len() ==> tasks[task_position(tasks, id)].id == id,
        tasks[i].id == id ==> task_position(tasks, id) <= i,
{
    lemma_first_index_found(tasks, has_task_id(id));
    assert(has_task_id(id)(tasks[i]) <==> tasks[i].id == id);
}

/// A change of one task leaves the settings and every other task alone.
pub proof fn law_only_one_task_changes(
    before: YoutubeStore,
    after: YoutubeStore,
    k: int,
    changed: TaskModel,
    i: int,
)
    requires
        only_changed(before, after, k, changed),
        0 <= k < before.tasks@.len(),
        0 <= i < before.tasks@.len(),
    ensures
        after.settings == before.settings,
        after.tasks@.len() == before.tasks@.len(),
        i != k ==> after.tasks@[i]@ == before.tasks@[i]@,
        after.tasks@[k]@ == changed,
{
    let old_models = task_models(before.tasks@);
    let new_models = task_models(after.tasks@);
    assert(new_models.len() == old_models.len());
    assert(new_models[i] == after.tasks@[i]@);
    assert(new_models[k] == after.tasks@[k]@);
    assert(old_models[i] == before.tasks@[i]@);
}

} // verus!
