//! The settings of a streamer: how they are checked, stored and read, and when they may be changed.

use crate::json::{
    json_bool_member, json_list, json_list_of, json_object_with, json_string_list,
    json_string_member, json_texts, lemma_list_reads_back, object_flag, object_members,
    object_text, object_with, parsed_json, JsonMember, JsonModel,
};
use crate::replay_actions::{refuse, refuses, Refusal};
use crate::replay_sessions::DEFAULT_REPLAY_TITLE;
use crate::text::{
    blank, concat, decimal, is_blank, is_digit, lemma_decimal_denotes, lemma_parse_decimal,
    lemma_split_first_at, lemma_split_first_none, lemma_two_digits, opt_text, padded_decimal,
    padded_i64, parse_unsigned, parsed_unsigned, push_text, same, split_first, split_once, texts,
    trim, trimmed,
};
use crate::workers::WorkerStatus;
use vstd::prelude::*;

verus! {

/// Length of a file that is shown where none is configured, in minutes.
pub const DEFAULT_SEGMENT_MINUTES: u64 = 60;

/// The longest file that can be configured, in minutes.
pub const MAX_SEGMENT_MINUTES: u64 = 1440;

/// The settings of a streamer, as they are shown.
#[derive(Debug)]
pub struct ReplayStreamerSettingsResponse {
    pub id: i64,
    pub url: String,
    pub name: String,
    pub enabled: bool,
    pub user_cookie: String,
    pub title: String,
    pub tid: u16,
    pub tags: Vec<String>,
    pub copyright: u8,
    pub copyright_source: String,
    pub description: String,
    pub is_only_self: u8,
    pub segment_minutes: u64,
    pub delete_after_success: bool,
}

/// New settings for a streamer.
#[derive(Debug)]
pub struct UpdateReplayStreamerSettingsRequest {
    pub name: String,
    pub user_cookie: String,
    pub title: String,
    pub tid: u16,
    pub tags: Vec<String>,
    pub copyright: u8,
    pub copyright_source: String,
    pub description: String,
    pub is_only_self: u8,
    pub segment_minutes: u64,
    pub delete_after_success: bool,
}

/// A request to switch a streamer on or off.
#[derive(Clone, Copy, Debug, PartialEq, Eq, Structural)]
pub struct ReplayStreamerEnabledRequest {
    pub enabled: bool,
}

/// The settings of a streamer, as they are stored.
#[derive(Debug)]
pub struct StoredSettings {
    pub id: i64,
    pub url: String,
    pub name: String,
    pub enabled: bool,
    /// The template of its submissions.
    pub upload_id: Option<i64>,
    /// Its own configuration, a JSON object.
    pub override_json: Option<String>,
    pub user_cookie: Option<String>,
    pub title: Option<String>,
    pub tid: Option<i64>,
    /// A JSON array of strings.
    pub tags: Option<String>,
    pub copyright: Option<i64>,
    pub copyright_source: Option<String>,
    pub description: Option<String>,
    pub is_only_self: Option<i64>,
    /// A JSON object.
    pub extra_fields: Option<String>,
}

/// The settings of a streamer that are to be stored.
#[derive(Debug)]
pub struct SettingsUpdate {
    pub upload_id: i64,
    pub name: String,
    pub override_json: String,
    pub user_cookie: String,
    pub title: String,
    pub tid: i64,
    pub tags: String,
    pub copyright: i64,
    pub copyright_source: String,
    pub description: String,
    pub is_only_self: i64,
    pub extra_fields: String,
    /// The worker of the streamer has to be made anew.
    pub restart_worker: bool,
}

/// Why new settings are refused, if they are.
pub open spec fn settings_fault(payload: UpdateReplayStreamerSettingsRequest) -> Option<Seq<char>> {
    if is_blank(payload.name@) || is_blank(payload.user_cookie@) {
        Some("主播名称和投稿账号不能为空"@)
    } else if is_blank(payload.title@) {
        Some("视频标题不能为空"@)
    } else if payload.tid == 0 {
        Some("请选择有效的B站分区"@)
    } else if payload.copyright != 1 && payload.copyright != 2 {
        Some("投稿类型只能是自制或转载"@)
    } else if payload.is_only_self > 1 {
        Some("可见范围参数无效"@)
    } else if payload.segment_minutes < 1 || payload.segment_minutes > MAX_SEGMENT_MINUTES {
        Some("单段时长必须在1到1440分钟之间"@)
    } else {
        None
    }
}

/// Checks new settings.
pub fn validate_settings(payload: &UpdateReplayStreamerSettingsRequest) -> (r: Result<(), Refusal>)
    ensures
        match settings_fault(*payload) {
            Some(m) => r matches Err(e) && refuses(e, 400, m),
            None => r is Ok,
        },
{
    if blank(payload.name.as_str()) || blank(payload.user_cookie.as_str()) {
        return Err(refuse(400, "主播名称和投稿账号不能为空"));
    }
    if blank(payload.title.as_str()) {
        return Err(refuse(400, "视频标题不能为空"));
    }
    if payload.tid == 0 {
        return Err(refuse(400, "请选择有效的B站分区"));
    }
    if payload.copyright != 1 && payload.copyright != 2 {
        return Err(refuse(400, "投稿类型只能是自制或转载"));
    }
    if payload.is_only_self > 1 {
        return Err(refuse(400, "可见范围参数无效"));
    }
    if payload.segment_minutes < 1 || payload.segment_minutes > MAX_SEGMENT_MINUTES {
        return Err(refuse(400, "单段时长必须在1到1440分钟之间"));
    }
    Ok(())
}

/// A number of minutes within the range that can be configured.
pub open spec fn within_range(minutes: int) -> int {
    if minutes < 1 {
        1
    } else if minutes > MAX_SEGMENT_MINUTES {
        MAX_SEGMENT_MINUTES as int
    } else {
        minutes
    }
}

/// The length of a file in the form `HH:MM:SS`.
pub open spec fn segment_time_text(minutes: int) -> Seq<char> {
    let m = within_range(minutes);
    padded_decimal(m / 60, 2) + ":"@ + padded_decimal(m % 60, 2) + ":00"@
}

/// Writes the length of a file in the form `HH:MM:SS`.
pub fn format_segment_time(minutes: u64) -> (r: String)
    ensures
        r@ == segment_time_text(minutes as int),
{
    let minutes: u64 = if minutes < 1 {
        1
    } else if minutes > MAX_SEGMENT_MINUTES {
        MAX_SEGMENT_MINUTES
    } else {
        minutes
    };
    let mut text = padded_i64((minutes / 60) as i64, 2);
    push_text(&mut text, ":");
    push_text(&mut text, padded_i64((minutes % 60) as i64, 2).as_str());
    push_text(&mut text, ":00");
    text
}

/// The length of a file in minutes, begun minutes counted in full, from the form `HH:MM:SS`; the
/// default where the text has another form.
pub open spec fn minutes_in(text: Seq<char>) -> int {
    match split_first(text, ":"@) {
        Some((hours, rest)) => match split_first(rest, ":"@) {
            Some((minutes, seconds)) => {
                let h = parsed_unsigned(hours, u64::MAX as nat);
                let m = parsed_unsigned(minutes, u64::MAX as nat);
                let s = parsed_unsigned(seconds, u64::MAX as nat);
                if h is Some && m is Some && s is Some && split_first(seconds, ":"@) is None
                    && m->Some_0 < 60 && s->Some_0 < 60 {
                    within_range((h->Some_0 * 3600 + m->Some_0 * 60 + s->Some_0 + 59) as int / 60)
                } else {
                    DEFAULT_SEGMENT_MINUTES as int
                }
            },
            None => DEFAULT_SEGMENT_MINUTES as int,
        },
        None => DEFAULT_SEGMENT_MINUTES as int,
    }
}

/// Reads the length of a file from the form `HH:MM:SS`, in minutes.
pub fn minutes_of_segment_time(text: &str) -> (r: u64)
    ensures
        r == minutes_in(text@),
        1 <= r <= MAX_SEGMENT_MINUTES,
{
    let (hours, rest) = match split_once(text, ":") {
        Some(parts) => parts,
        None => {
            return DEFAULT_SEGMENT_MINUTES;
        },
    };
    let (minutes, seconds) = match split_once(rest.as_str(), ":") {
        Some(parts) => parts,
        None => {
            return DEFAULT_SEGMENT_MINUTES;
        },
    };
    if split_once(seconds.as_str(), ":").is_some() {
        return DEFAULT_SEGMENT_MINUTES;
    }
    let h: u64 = match parse_unsigned(hours.as_str(), u64::MAX) {
        Some(n) => n,
        None => {
            return DEFAULT_SEGMENT_MINUTES;
        },
    };
    let m: u64 = match parse_unsigned(minutes.as_str(), u64::MAX) {
        Some(n) => n,
        None => {
            return DEFAULT_SEGMENT_MINUTES;
        },
    };
    let s: u64 = match parse_unsigned(seconds.as_str(), u64::MAX) {
        Some(n) => n,
        None => {
            return DEFAULT_SEGMENT_MINUTES;
        },
    };
    if m >= 60 || s >= 60 {
        return DEFAULT_SEGMENT_MINUTES;
    }
    if h >= 24 {
        return MAX_SEGMENT_MINUTES;
    }
    let total: u64 = (h * 3600 + m * 60 + s + 59) / 60;
    if total < 1 {
        1
    } else {
        total
    }
}

/// The length of a file that a streamer has configured, in minutes.
pub open spec fn configured_minutes(raw: Option<Seq<char>>) -> int {
    match object_text(raw, "segment_time"@) {
        Some(text) => minutes_in(text),
        None => DEFAULT_SEGMENT_MINUTES as int,
    }
}

/// Reads the length of a file, in minutes, from the configuration of a streamer.
pub fn segment_minutes_from_override(raw: Option<&str>) -> (r: u64)
    ensures
        r == configured_minutes(
            match raw {
                Some(t) => Some(t@),
                None => None,
            },
        ),
        1 <= r <= MAX_SEGMENT_MINUTES,
{
    let text = match raw {
        Some(raw) => json_string_member(raw, "segment_time"),
        None => None,
    };
    match text {
        Some(text) => minutes_of_segment_time(text.as_str()),
        None => DEFAULT_SEGMENT_MINUTES,
    }
}

/// Reading the written length of a file gives the length back.
pub proof fn law_segment_time_round_trip(minutes: int)
    requires
        1 <= minutes <= MAX_SEGMENT_MINUTES,
    ensures
        minutes_in(segment_time_text(minutes)) == minutes,
{
    reveal_strlit(":");
    reveal_strlit(":00");
    let h = padded_decimal(minutes / 60, 2);
    let m = padded_decimal(minutes % 60, 2);
    let zeros = seq!['0', '0'];
    lemma_two_digits((minutes / 60) as nat);
    lemma_two_digits((minutes % 60) as nat);
    assert(":"@ =~= seq![':']);
    assert(":00"@ =~= seq![':'] + zeros);
    let rest = m + seq![':'] + zeros;
    assert(segment_time_text(minutes) =~= h + seq![':'] + rest);
    assert forall|i: int| 0 <= i < h.len() implies (#[trigger] h[i]) != ':' by {
        assert(is_digit(h[i]));
    }
    assert forall|i: int| 0 <= i < m.len() implies (#[trigger] m[i]) != ':' by {
        assert(is_digit(m[i]));
    }
    lemma_split_first_at(h, rest, ':');
    lemma_split_first_at(m, zeros, ':');
    lemma_split_first_none(zeros, ':', 0);
    assert(is_digit(h[0]) && is_digit(m[0]));
    assert(parsed_unsigned(zeros, u64::MAX as nat) == Some(0nat)) by {
        reveal_with_fuel(crate::text::digits_value, 3);
        assert(zeros.drop_last() =~= seq!['0']);
        assert(seq!['0'].drop_last() =~= Seq::<char>::empty());
        assert(is_digit(zeros[0]) && is_digit(zeros[1]));
    }
}

/// Tags without surrounding space, without empty ones, and with one of several equal ones in a
/// row.
pub open spec fn cleaned_tags(tags: Seq<Seq<char>>) -> Seq<Seq<char>>
    decreases tags.len(),
{
    if tags.len() == 0 {
        Seq::empty()
    } else {
        let rest = cleaned_tags(tags.drop_last());
        let tag = trimmed(tags.last());
        if tag.len() == 0 || (rest.len() > 0 && rest.last() == tag) {
            rest
        } else {
            rest.push(tag)
        }
    }
}

/// The tags that are stored.
pub open spec fn stored_tags(tags: Seq<Seq<char>>) -> Seq<Seq<char>> {
    let cleaned = cleaned_tags(tags);
    if cleaned.len() == 0 {
        seq!["游戏"@]
    } else {
        cleaned
    }
}

/// Brings tags into the form in which they are stored. There is always one.
pub fn normalize_tags(tags: &Vec<String>) -> (r: Vec<String>)
    ensures
        texts(r@) == stored_tags(texts(tags@)),
{
    let mut cleaned: Vec<String> = Vec::new();
    let ghost all = texts(tags@);
    let mut i: usize = 0;
    while i < tags.len()
        invariant
            i <= tags.len(),
            all == texts(tags@),
            texts(cleaned@) == cleaned_tags(all.take(i as int)),
        decreases tags.len() - i,
    {
        proof {
            assert(all.take(i + 1).drop_last() =~= all.take(i as int));
            assert(all.take(i + 1).last() == tags@[i as int]@);
        }
        let tag = trim(tags[i].as_str());
        let repeated = if cleaned.len() > 0 {
            assert(texts(cleaned@).last() == cleaned@[cleaned@.len() - 1]@);
            same(cleaned[cleaned.len() - 1].as_str(), tag.as_str())
        } else {
            false
        };
        if !tag.as_str().is_empty() && !repeated {
            let ghost before = texts(cleaned@);
            let ghost added = tag@;
            cleaned.push(tag);
            assert(texts(cleaned@) =~= before.push(added));
        }
        i = i + 1;
    }
    assert(all.take(i as int) =~= all);
    if cleaned.len() == 0 {
        cleaned.push("游戏".to_owned());
        assert(texts(cleaned@) =~= seq!["游戏"@]);
    }
    cleaned
}

/// The origin that is stored: of a repost, the named one or the room itself; of an own work, none.
pub open spec fn stored_source(copyright: u8, source: Seq<char>, url: Seq<char>) -> Seq<char> {
    if copyright != 2 {
        ""@
    } else if is_blank(source) {
        url
    } else {
        trimmed(source)
    }
}

fn source_to_store(copyright: u8, source: &str, url: &str) -> (r: String)
    ensures
        r@ == stored_source(copyright, source@, url@),
{
    if copyright != 2 {
        "".to_owned()
    } else if blank(source) {
        url.to_owned()
    } else {
        trim(source)
    }
}

/// The value of an optional text.
pub open spec fn text_or(value: Option<String>, default: Seq<char>) -> Seq<char> {
    match value {
        Some(v) => v@,
        None => default,
    }
}

fn text_or_default(value: &Option<String>, default: &str) -> (r: String)
    ensures
        r@ == text_or(*value, default@),
{
    match value {
        Some(value) => value.clone(),
        None => default.to_owned(),
    }
}

/// A stored number, where it is in range.
pub open spec fn number_within(value: Option<i64>, max: int, default: int) -> int {
    match value {
        Some(n) if 0 <= n <= max => n as int,
        _ => default,
    }
}

fn small_number(value: Option<i64>, max: u16, default: u16) -> (r: u16)
    requires
        default <= max,
    ensures
        r == number_within(value, max as int, default as int),
        r <= max,
{
    match value {
        Some(n) => if 0 <= n && n <= max as i64 {
            n as u16
        } else {
            default
        },
        None => default,
    }
}

/// The settings of a streamer, read from what is stored.
pub open spec fn is_loaded(row: StoredSettings, shown: ReplayStreamerSettingsResponse) -> bool {
    &&& shown.id == row.id
    &&& shown.url == row.url
    &&& shown.name == row.name
    &&& shown.enabled == row.enabled
    &&& shown.user_cookie@ == text_or(row.user_cookie, ""@)
    &&& shown.title@ == text_or(row.title, DEFAULT_REPLAY_TITLE@)
    &&& shown.tid == number_within(row.tid, u16::MAX as int, 0)
    &&& texts(shown.tags@) == match row.tags {
        Some(t) => match json_texts(t@) {
            Some(list) => list,
            None => Seq::empty(),
        },
        None => Seq::empty(),
    }
    &&& shown.copyright == number_within(row.copyright, u8::MAX as int, 2)
    &&& shown.copyright_source@ == text_or(row.copyright_source, ""@)
    &&& shown.description@ == text_or(row.description, ""@)
    &&& shown.is_only_self == number_within(row.is_only_self, u8::MAX as int, 1)
    &&& shown.segment_minutes == configured_minutes(opt_text(row.override_json))
    &&& shown.delete_after_success == match object_flag(
        opt_text(row.extra_fields),
        "live_replay_delete_after_success"@,
    ) {
        Some(b) => b,
        None => true,
    }
}

/// Reads the settings of a streamer from what is stored.
pub fn load_replay_streamer_settings(row: &StoredSettings) -> (r: ReplayStreamerSettingsResponse)
    ensures
        is_loaded(*row, r),
{
    let tags = match &row.tags {
        Some(text) => match json_string_list(text.as_str()) {
            Some(tags) => tags,
            None => Vec::new(),
        },
        None => Vec::new(),
    };
    assert(texts(Seq::<String>::empty()) =~= Seq::empty());
    let configured = match &row.override_json {
        Some(text) => Some(text.as_str()),
        None => None,
    };
    let delete_after_success = match &row.extra_fields {
        Some(text) => match json_bool_member(text.as_str(), "live_replay_delete_after_success") {
            Some(flag) => flag,
            None => true,
        },
        None => true,
    };
    ReplayStreamerSettingsResponse {
        id: row.id,
        url: row.url.clone(),
        name: row.name.clone(),
        enabled: row.enabled,
        user_cookie: text_or_default(&row.user_cookie, ""),
        title: text_or_default(&row.title, DEFAULT_REPLAY_TITLE),
        tid: small_number(row.tid, u16::MAX, 0),
        tags,
        copyright: small_number(row.copyright, u8::MAX as u16, 2) as u8,
        copyright_source: text_or_default(&row.copyright_source, ""),
        description: text_or_default(&row.description, ""),
        is_only_self: small_number(row.is_only_self, u8::MAX as u16, 1) as u8,
        segment_minutes: segment_minutes_from_override(configured),
        delete_after_success,
    }
}

/// What is stored for new settings.
pub open spec fn is_update(
    payload: UpdateReplayStreamerSettingsRequest,
    stored: StoredSettings,
    update: SettingsUpdate,
) -> bool {
    &&& stored.upload_id == Some(update.upload_id)
    &&& update.name@ == trimmed(payload.name@)
    &&& update.override_json@ == object_with(
        opt_text(stored.override_json),
        "segment_time"@,
        JsonModel::Text(segment_time_text(payload.segment_minutes as int)),
    )
    &&& update.user_cookie@ == trimmed(payload.user_cookie@)
    &&& update.title@ == trimmed(payload.title@)
    &&& update.tid == payload.tid
    &&& update.tags@ == json_list(stored_tags(texts(payload.tags@)))
    &&& update.copyright == payload.copyright
    &&& update.copyright_source@ == stored_source(
        payload.copyright,
        payload.copyright_source@,
        stored.url@,
    )
    &&& update.description@ == trimmed(payload.description@)
    &&& update.is_only_self == payload.is_only_self
    &&& update.extra_fields@ == object_with(
        opt_text(stored.extra_fields),
        "live_replay_delete_after_success"@,
        JsonModel::Flag(payload.delete_after_success),
    )
    &&& update.restart_worker == stored.enabled
}

/// What reading back the stored JSON gives.
pub open spec fn reads_back(
    payload: UpdateReplayStreamerSettingsRequest,
    update: SettingsUpdate,
) -> bool {
    &&& json_texts(update.tags@) == Some(stored_tags(texts(payload.tags@)))
    &&& object_text(Some(update.override_json@), "segment_time"@) == Some(
        segment_time_text(payload.segment_minutes as int),
    )
    &&& object_flag(Some(update.extra_fields@), "live_replay_delete_after_success"@) == Some(
        payload.delete_after_success,
    )
}

/// Each of the stored JSON objects has one member changed, and every other one kept.
pub open spec fn keeps_other_members(
    payload: UpdateReplayStreamerSettingsRequest,
    stored: StoredSettings,
    update: SettingsUpdate,
) -> bool {
    &&& parsed_json(update.override_json@) == Some(
        JsonModel::Object(
            object_members(opt_text(stored.override_json)).insert(
                "segment_time"@,
                JsonModel::Text(segment_time_text(payload.segment_minutes as int)),
            ),
        ),
    )
    &&& parsed_json(update.extra_fields@) == Some(
        JsonModel::Object(
            object_members(opt_text(stored.extra_fields)).insert(
                "live_replay_delete_after_success"@,
                JsonModel::Flag(payload.delete_after_success),
            ),
        ),
    )
}

/// Why new settings cannot be stored, if they cannot: a status and a message.
pub open spec fn update_fault(
    payload: UpdateReplayStreamerSettingsRequest,
    stored: Option<StoredSettings>,
    worker: Option<WorkerStatus>,
) -> Option<(u16, Seq<char>)> {
    if settings_fault(payload) is Some {
        Some((400, settings_fault(payload)->Some_0))
    } else if worker matches Some(status) && status is Working {
        Some((409, "主播正在录制，请在本场直播结束后修改设置"@))
    } else if stored is None {
        Some((404, "主播不存在"@))
    } else if stored->Some_0.upload_id is None {
        Some((409, "这个旧主播没有关联投稿设置，请删除后重新添加"@))
    } else {
        None
    }
}

/// Prepares new settings of a streamer for storing. They apply to later sessions only, and are
/// refused while the streamer is being recorded.
pub fn update_replay_streamer_settings(
    payload: &UpdateReplayStreamerSettingsRequest,
    stored: Option<&StoredSettings>,
    worker: Option<WorkerStatus>,
) -> (r: Result<SettingsUpdate, Refusal>)
    ensures
        ({
            let row = match stored {
                Some(s) => Some(*s),
                None => None,
            };
            match update_fault(*payload, row, worker) {
                Some((status, m)) => r matches Err(e) && refuses(e, status, m),
                None => r matches Ok(update) && is_update(*payload, row->Some_0, update)
                    && reads_back(*payload, update) && keeps_other_members(*payload, row->Some_0, update),
            }
        }),
{
    match validate_settings(payload) {
        Ok(_) => {},
        Err(refusal) => {
            return Err(refusal);
        },
    }
    if let Some(WorkerStatus::Working(_)) = worker {
        return Err(refuse(409, "主播正在录制，请在本场直播结束后修改设置"));
    }
    let stored = match stored {
        Some(stored) => stored,
        None => {
            return Err(refuse(404, "主播不存在"));
        },
    };
    let upload_id: i64 = match stored.upload_id {
        Some(id) => id,
        None => {
            return Err(refuse(409, "这个旧主播没有关联投稿设置，请删除后重新添加"));
        },
    };
    let old_override = match &stored.override_json {
        Some(text) => Some(text.as_str()),
        None => None,
    };
    let old_extra = match &stored.extra_fields {
        Some(text) => Some(text.as_str()),
        None => None,
    };
    let override_json = json_object_with(
        old_override,
        "segment_time",
        &JsonMember::Text(format_segment_time(payload.segment_minutes)),
    );
    let extra_fields = json_object_with(
        old_extra,
        "live_replay_delete_after_success",
        &JsonMember::Flag(payload.delete_after_success),
    );
    let tags = normalize_tags(&payload.tags);
    let tags_json = json_list_of(&tags);
    proof {
        lemma_list_reads_back(tags_json@, texts(tags@));
    }
    let copyright_source = source_to_store(
        payload.copyright,
        payload.copyright_source.as_str(),
        stored.url.as_str(),
    );
    Ok(
        SettingsUpdate {
            upload_id,
            name: trim(payload.name.as_str()),
            override_json,
            user_cookie: trim(payload.user_cookie.as_str()),
            title: trim(payload.title.as_str()),
            tid: payload.tid as i64,
            tags: tags_json,
            copyright: payload.copyright as i64,
            copyright_source,
            description: trim(payload.description.as_str()),
            is_only_self: payload.is_only_self as i64,
            extra_fields,
            restart_worker: stored.enabled,
        },
    )
}

/// Prepares new settings of a streamer for storing. They are refused as well while it is being
/// asked whether the streamer is live: the old worker could still begin to record with the old
/// settings.
pub fn update_replay_streamer_settings_safe(
    payload: &UpdateReplayStreamerSettingsRequest,
    stored: Option<&StoredSettings>,
    worker: Option<WorkerStatus>,
) -> (r: Result<SettingsUpdate, Refusal>)
    ensures
        ({
            let row = match stored {
                Some(s) => Some(*s),
                None => None,
            };
            match worker {
                Some(WorkerStatus::Working(_)) => r matches Err(e) && refuses(
                    e,
                    409,
                    "主播正在录制，请在本场直播结束后修改设置"@,
                ),
                Some(WorkerStatus::Pending) => r matches Err(e) && refuses(
                    e,
                    409,
                    "正在检查主播是否开播，请稍后再保存一次设置"@,
                ),
                _ => match update_fault(*payload, row, worker) {
                    Some((status, m)) => r matches Err(e) && refuses(e, status, m),
                    None => r matches Ok(update) && is_update(*payload, row->Some_0, update)
                        && reads_back(*payload, update) && keeps_other_members(
                        *payload,
                        row->Some_0,
                        update,
                    ),
                },
            }
        }),
{
    if let Some(status) = worker {
        match status {
            WorkerStatus::Working(_) => {
                return Err(refuse(409, "主播正在录制，请在本场直播结束后修改设置"));
            },
            WorkerStatus::Pending => {
                return Err(refuse(409, "正在检查主播是否开播，请稍后再保存一次设置"));
            },
            WorkerStatus::Idle | WorkerStatus::Pause => {},
        }
    }
    update_replay_streamer_settings(payload, stored, worker)
}

/// A row after new settings have been stored.
pub open spec fn is_stored(
    before: StoredSettings,
    update: SettingsUpdate,
    after: StoredSettings,
) -> bool {
    after == (StoredSettings {
        name: update.name,
        override_json: Some(update.override_json),
        user_cookie: Some(update.user_cookie),
        title: Some(update.title),
        tid: Some(update.tid),
        tags: Some(update.tags),
        copyright: Some(update.copyright),
        copyright_source: Some(update.copyright_source),
        description: Some(update.description),
        is_only_self: Some(update.is_only_self),
        extra_fields: Some(update.extra_fields),
        ..before
    })
}

/// Stores new settings in a row.
pub fn store_settings(stored: &mut StoredSettings, update: SettingsUpdate)
    ensures
        is_stored(*old(stored), update, *final(stored)),
{
    stored.name = update.name;
    stored.override_json = Some(update.override_json);
    stored.user_cookie = Some(update.user_cookie);
    stored.title = Some(update.title);
    stored.tid = Some(update.tid);
    stored.tags = Some(update.tags);
    stored.copyright = Some(update.copyright);
    stored.copyright_source = Some(update.copyright_source);
    stored.description = Some(update.description);
    stored.is_only_self = Some(update.is_only_self);
    stored.extra_fields = Some(update.extra_fields);
}

/// Settings that were accepted and stored are read back as they were given, but for surrounding
/// space, for the form of the tags and for the origin of an own work.
pub proof fn law_settings_read_back(
    payload: UpdateReplayStreamerSettingsRequest,
    before: StoredSettings,
    update: SettingsUpdate,
    after: StoredSettings,
    shown: ReplayStreamerSettingsResponse,
)
    requires
        settings_fault(payload) is None,
        is_update(payload, before, update),
        reads_back(payload, update),
        is_stored(before, update, after),
        is_loaded(after, shown),
    ensures
        shown.name@ == trimmed(payload.name@),
        shown.user_cookie@ == trimmed(payload.user_cookie@),
        shown.title@ == trimmed(payload.title@),
        shown.tid == payload.tid,
        texts(shown.tags@) == stored_tags(texts(payload.tags@)),
        shown.copyright == payload.copyright,
        shown.description@ == trimmed(payload.description@),
        shown.is_only_self == payload.is_only_self,
        shown.segment_minutes == payload.segment_minutes,
        shown.delete_after_success == payload.delete_after_success,
{
    law_segment_time_round_trip(payload.segment_minutes as int);
}

/// What is done to switch a streamer on or off.
#[derive(Clone, Copy, Debug, PartialEq, Eq, Structural)]
pub enum SwitchAction {
    /// Nothing: it is so already.
    Unchanged,
    /// The switch is stored; its worker is set to wait, and woken.
    WakeWorker,
    /// The switch is stored; a worker is made.
    AddWorker,
    /// The switch is stored; its worker is stopped.
    PauseWorker,
    /// The switch is stored; there is no worker.
    StoreOnly,
}

/// What follows from switching automatic recording from `now` to `wanted`.
pub open spec fn switched(now: bool, wanted: bool, has_worker: bool) -> SwitchAction {
    if now == wanted {
        SwitchAction::Unchanged
    } else if wanted {
        if has_worker {
            SwitchAction::WakeWorker
        } else {
            SwitchAction::AddWorker
        }
    } else if has_worker {
        SwitchAction::PauseWorker
    } else {
        SwitchAction::StoreOnly
    }
}

/// Decides what is done to switch a streamer on or off. `current` is the switch as it is stored.
pub fn set_replay_streamer_enabled(
    current: Option<bool>,
    payload: ReplayStreamerEnabledRequest,
    has_worker: bool,
) -> (r: Result<SwitchAction, Refusal>)
    ensures
        match current {
            None => r matches Err(e) && refuses(e, 404, "主播不存在"@),
            Some(now) => r == Ok::<SwitchAction, Refusal>(
                switched(now, payload.enabled, has_worker),
            ),
        },
{
    let now = match current {
        Some(now) => now,
        None => {
            return Err(refuse(404, "主播不存在"));
        },
    };
    if now == payload.enabled {
        return Ok(SwitchAction::Unchanged);
    }
    if payload.enabled {
        if has_worker {
            Ok(SwitchAction::WakeWorker)
        } else {
            Ok(SwitchAction::AddWorker)
        }
    } else if has_worker {
        Ok(SwitchAction::PauseWorker)
    } else {
        Ok(SwitchAction::StoreOnly)
    }
}

/// Decides what is done to switch a streamer on or off. Nothing is, while it is being asked whether
/// the streamer is live: the answer could begin a recording that was just switched off.
pub fn set_replay_streamer_enabled_safe(
    current: Option<bool>,
    payload: ReplayStreamerEnabledRequest,
    worker: Option<WorkerStatus>,
) -> (r: Result<SwitchAction, Refusal>)
    ensures
        if worker == Some(WorkerStatus::Pending) {
            r matches Err(e) && refuses(e, 409, "正在检查主播是否开播，请稍后再切换自动录制"@)
        } else {
            match current {
                None => r matches Err(e) && refuses(e, 404, "主播不存在"@),
                Some(now) => r == Ok::<SwitchAction, Refusal>(
                    switched(now, payload.enabled, worker is Some),
                ),
            }
        },
{
    if let Some(WorkerStatus::Pending) = worker {
        return Err(refuse(409, "正在检查主播是否开播，请稍后再切换自动录制"));
    }
    set_replay_streamer_enabled(current, payload, worker.is_some())
}

/// A room whose streamer is to be found out.
#[derive(Debug)]
pub struct DetectStreamerRequest {
    pub url: String,
}

/// The streamer of a room.
#[derive(Debug)]
pub struct DetectStreamerResponse {
    pub name: String,
}

/// What was found out about a room.
#[derive(Debug)]
pub enum RoomStatus {
    /// It is live, under this name.
    Live { name: String },
    /// It is not live.
    Offline,
    /// The question failed with this error.
    Failed { error: String },
}

/// Checks the address of a room whose streamer is to be found out.
pub fn detect_url(payload: &DetectStreamerRequest) -> (r: Result<String, Refusal>)
    ensures
        if is_blank(payload.url@) {
            r matches Err(e) && refuses(e, 400, "请填写直播间链接"@)
        } else {
            r matches Ok(url) && url@ == trimmed(payload.url@)
        },
{
    let url = trim(payload.url.as_str());
    if url.as_str().is_empty() {
        return Err(refuse(400, "请填写直播间链接"));
    }
    Ok(url)
}

/// The refusal of a room of a kind that is not known.
pub fn unsupported_room() -> (r: Refusal)
    ensures
        refuses(r, 400, "不支持这个直播间链接"@),
{
    refuse(400, "不支持这个直播间链接")
}

/// The refusal when new settings were stored, but no worker could be made for them.
pub fn worker_not_rebuilt() -> (r: Refusal)
    ensures
        refuses(r, 400, "设置已保存，但重新建立直播监控失败，请检查直播间链接"@),
{
    refuse(400, "设置已保存，但重新建立直播监控失败，请检查直播间链接")
}

/// The answer to the question for the streamer of a room.
pub fn detect_streamer(status: &RoomStatus) -> (r: Result<DetectStreamerResponse, Refusal>)
    ensures
        match *status {
            RoomStatus::Live { name } => if is_blank(name@) {
                r matches Err(e) && refuses(e, 422, "未识别到主播名称，请手动填写"@)
            } else {
                r matches Ok(found) && found.name@ == trimmed(name@)
            },
            RoomStatus::Offline => r matches Err(e) && refuses(
                e,
                422,
                "直播间当前未开播，无法自动识别主播名称，请手动填写"@,
            ),
            RoomStatus::Failed { error } => r matches Err(e) && refuses(
                e,
                502,
                "主播名称识别失败："@ + error@,
            ),
        },
{
    match status {
        RoomStatus::Live { name } => {
            let name = trim(name.as_str());
            if name.as_str().is_empty() {
                return Err(refuse(422, "未识别到主播名称，请手动填写"));
            }
            Ok(DetectStreamerResponse { name })
        },
        RoomStatus::Offline => Err(
            refuse(422, "直播间当前未开播，无法自动识别主播名称，请手动填写"),
        ),
        RoomStatus::Failed { error } => Err(
            refuse(502, concat("主播名称识别失败：", error.as_str()).as_str()),
        ),
    }
}

/// Settings are accepted where the streamer, the account and the title are named, a section is
/// chosen, the kind of submission and the visibility are among those there are, and a file lasts from
/// one minute to a day.
pub proof fn law_settings_accepted(payload: UpdateReplayStreamerSettingsRequest)
    ensures
        settings_fault(payload) is None <==> {
            &&& !is_blank(payload.name@)
            &&& !is_blank(payload.user_cookie@)
            &&& !is_blank(payload.title@)
            &&& payload.tid != 0
            &&& payload.copyright == 1 || payload.copyright == 2
            &&& payload.is_only_self <= 1
            &&& 1 <= payload.segment_minutes <= 1440
        },
{
}

/// A change is refused for what it asks (as a bad request), while the streamer is recorded or has no
/// submission settings (as a conflict), and where there is no such streamer (as not found).
pub proof fn law_changes_refused(
    payload: UpdateReplayStreamerSettingsRequest,
    stored: Option<StoredSettings>,
    worker: Option<WorkerStatus>,
)
    ensures
        ({
            let recording = worker matches Some(status) && status is Working;
            let fault = update_fault(payload, stored, worker);
            &&& fault is None <==> settings_fault(payload) is None && !recording && (
            stored matches Some(row) && row.upload_id is Some)
            &&& settings_fault(payload) is Some ==> (fault matches Some((status, _)) && status
                == 400)
            &&& settings_fault(payload) is None && recording ==> (fault matches Some((status, _))
                && status == 409)
            &&& settings_fault(payload) is None && !recording && stored is None ==> (
            fault matches Some((status, _)) && status == 404)
            &&& settings_fault(payload) is None && !recording && (stored matches Some(row)
                && row.upload_id is None) ==> (fault matches Some((status, _)) && status == 409)
        }),
{
}

/// What is not asked about in the settings stays as it was stored: the identifier, the address and
/// whether the streamer is recorded. Only a reprint names its source, by default the address.
pub proof fn law_settings_keep_the_rest(
    payload: UpdateReplayStreamerSettingsRequest,
    before: StoredSettings,
    update: SettingsUpdate,
    after: StoredSettings,
    shown: ReplayStreamerSettingsResponse,
)
    requires
        is_update(payload, before, update),
        is_stored(before, update, after),
        is_loaded(after, shown),
    ensures
        shown.id == before.id,
        shown.url == before.url,
        shown.enabled == before.enabled,
        after.upload_id == before.upload_id,
        update.restart_worker <==> before.enabled,
        payload.copyright != 2 ==> shown.copyright_source@ == ""@,
        payload.copyright == 2 && is_blank(payload.copyright_source@) ==> shown.copyright_source@
            == before.url@,
        payload.copyright == 2 && !is_blank(payload.copyright_source@) ==> shown.copyright_source@
            == trimmed(payload.copyright_source@),
{
}

/// Settings that were never stored are shown with their defaults.
pub proof fn law_settings_defaults(row: StoredSettings, shown: ReplayStreamerSettingsResponse)
    requires
        is_loaded(row, shown),
    ensures
        row.user_cookie is None ==> shown.user_cookie@ == ""@,
        row.title is None ==> shown.title@ == DEFAULT_REPLAY_TITLE@,
        row.title matches Some(t) ==> shown.title@ == t@,
        row.tags is None ==> shown.tags@.len() == 0,
        row.copyright is None ==> shown.copyright == 2,
        row.is_only_self is None ==> shown.is_only_self == 1,
        row.tid is None ==> shown.tid == 0,
        row.override_json is None ==> shown.segment_minutes == 60,
        row.extra_fields is None ==> shown.delete_after_success,
        1 <= shown.segment_minutes <= 1440,
{
    if row.tags is None {
        assert(texts(shown.tags@).len() == 0);
    }
}

/// A duration of hours, minutes and seconds is read in minutes, rounded up, within a day.
pub proof fn law_durations_round_up(hours: u64, minutes: nat, seconds: nat)
    requires
        minutes < 60,
        seconds < 60,
    ensures
        ({
            let total = hours * 3600 + minutes * 60 + seconds;
            let read = minutes_in(
                decimal(hours as nat) + ":"@ + decimal(minutes) + ":"@ + decimal(seconds),
            );
            &&& 1 <= read <= 1440
            &&& 60 <= total <= 1440 * 60 ==> total <= 60 * read < total + 60
            &&& total < 60 ==> read == 1
            &&& total > 1440 * 60 ==> read == 1440
        }),
{
    reveal_strlit(":");
    let colon = seq![':'];
    assert(":"@ =~= colon);
    let h = decimal(hours as nat);
    let m = decimal(minutes);
    let s = decimal(seconds);
    lemma_decimal_denotes(hours as nat);
    lemma_decimal_denotes(minutes);
    lemma_decimal_denotes(seconds);
    assert forall|i: int| 0 <= i < h.len() implies (#[trigger] h[i]) != ':' by {
        assert(is_digit(h[i]));
    }
    assert forall|i: int| 0 <= i < m.len() implies (#[trigger] m[i]) != ':' by {
        assert(is_digit(m[i]));
    }
    assert forall|i: int| 0 <= i < s.len() implies (#[trigger] s[i]) != ':' by {
        assert(is_digit(s[i]));
    }
    let rest = m + colon + s;
    assert(h + ":"@ + m + ":"@ + s =~= h + colon + rest);
    lemma_split_first_at(h, rest, ':');
    lemma_split_first_at(m, s, ':');
    lemma_split_first_none(s, ':', 0);
    lemma_parse_decimal(hours as nat, u64::MAX as nat);
    lemma_parse_decimal(minutes, u64::MAX as nat);
    lemma_parse_decimal(seconds, u64::MAX as nat);
}

/// Tags are stored without the spaces around them; none is blank, none stands twice in a row, and
/// none that was given is lost. Where none was given, there is one by default.
pub proof fn law_tags_are_cleaned(tags: Seq<Seq<char>>, i: int)
    requires
        0 <= i < tags.len(),
    ensures
        trimmed(tags[i]).len() > 0 ==> cleaned_tags(tags).contains(trimmed(tags[i]))
            && stored_tags(tags) == cleaned_tags(tags),
        cleaned_tags(tags).len() <= tags.len(),
        stored_tags(tags).len() > 0,
    decreases tags.len(),
{
    let rest = tags.drop_last();
    let earlier = cleaned_tags(rest);
    let all = cleaned_tags(tags);
    lemma_cleaned_tags(rest);
    if i < rest.len() {
        law_tags_are_cleaned(rest, i);
        if trimmed(tags[i]).len() > 0 {
            assert(earlier.contains(trimmed(tags[i])));
            assert(all[earlier.index_of(trimmed(tags[i]))] == trimmed(tags[i]));
        }
    } else if trimmed(tags[i]).len() > 0 {
        assert(all[all.len() - 1] == trimmed(tags[i]));
    }
}

proof fn lemma_cleaned_tags(tags: Seq<Seq<char>>)
    ensures
        cleaned_tags(tags).len() <= tags.len(),
        forall|k: int|
            0 <= k < cleaned_tags(tags).len() ==> (#[trigger] cleaned_tags(tags)[k]).len() > 0,
        forall|j: int, k: int|
            0 <= j && k == j + 1 && k < cleaned_tags(tags).len() ==> #[trigger] cleaned_tags(
                tags,
            )[j] != #[trigger] cleaned_tags(tags)[k],
    decreases tags.len(),
{
    if tags.len() > 0 {
        lemma_cleaned_tags(tags.drop_last());
    }
}

/// No stored tag is blank, and none stands twice in a row.
pub proof fn law_stored_tags(tags: Seq<Seq<char>>)
    ensures
        forall|k: int|
            0 <= k < stored_tags(tags).len() ==> (#[trigger] stored_tags(tags)[k]).len() > 0,
        forall|j: int, k: int|
            0 <= j && k == j + 1 && k < stored_tags(tags).len() ==> #[trigger] stored_tags(tags)[j]
                != #[trigger] stored_tags(tags)[k],
        tags.len() == 0 ==> stored_tags(tags).len() == 1,
{
    lemma_cleaned_tags(tags);
    reveal_strlit("游戏");
}

/// Automatic recording is switched only where that changes something, by the worker where there is
/// one.
pub proof fn law_switching(now: bool, wanted: bool, has_worker: bool)
    ensures
        switched(now, wanted, has_worker) == SwitchAction::Unchanged <==> now == wanted,
        switched(now, wanted, has_worker) == SwitchAction::WakeWorker <==> !now && wanted
            && has_worker,
        switched(now, wanted, has_worker) == SwitchAction::AddWorker <==> !now && wanted
            && !has_worker,
        switched(now, wanted, has_worker) == SwitchAction::PauseWorker <==> now && !wanted
            && has_worker,
{
}

} // verus!
