//! Sessions of the upload queue: when one is taken up again, how a new one is named, what its
//! submission looks like, and what the service answers to it.

use crate::json::{
    json_inner_number, json_inner_text, json_member_number, json_member_text, json_string_inner,
    json_string_member, json_u64_inner, json_u64_member,
};
use crate::naming::{join_path, path_in};
use crate::replay_rows::SessionRow;
use crate::statuses::{SessionStatus, SubmitState};
use crate::text::{
    all_digits, blank, concat, decimal, decimal_i64, decimal_int, hex_digits, is_blank,
    lemma_parse_decimal, lower, lowered, opt_text, parse_unsigned, parsed_unsigned,
    push_decimal_u128, push_hex, push_text, same, trim, trimmed, unsigned_digits,
};
use std::collections::HashSet;
use vstd::prelude::*;

verus! {

broadcast use vstd::std_specs::hash::group_hash_axioms;

/// The title of a submission whose template has none.
pub const DEFAULT_REPLAY_TITLE: &'static str = "{streamer} 直播回放 %Y-%m-%d %H-%M";

/// The directory of the login files of sessions.
pub const CREDENTIAL_DIR: &'static str = "data/replay-credentials";

/// The login file of a template that names none.
pub const DEFAULT_COOKIE_FILE: &'static str = "cookies.json";

/// True for the words that switch something on.
pub open spec fn is_yes(value: Seq<char>) -> bool {
    let word = lowered(trimmed(value));
    word == "1"@ || word == "true"@ || word == "yes"@ || word == "on"@
}

/// Reads a switch from the value of an environment variable, where it is set.
pub fn env_bool(value: Option<&str>, default: bool) -> (r: bool)
    ensures
        r == match value {
            Some(v) => is_yes(v@),
            None => default,
        },
{
    match value {
        Some(value) => {
            let word = lower(trim(value).as_str());
            same(word.as_str(), "1") || same(word.as_str(), "true") || same(word.as_str(), "yes")
                || same(word.as_str(), "on")
        },
        None => default,
    }
}

/// The number in the value of an environment variable, or `default` where there is none.
pub open spec fn number_or(value: Option<Seq<char>>, default: u64) -> u64 {
    match value {
        Some(v) => match parsed_unsigned(trimmed(v), u64::MAX as nat) {
            Some(n) => n as u64,
            None => default,
        },
        None => default,
    }
}

/// Reads a number from the value of an environment variable, where it is set and is a number.
pub fn env_u64(value: Option<&str>, default: u64) -> (r: u64)
    ensures
        r == number_or(
            match value {
                Some(v) => Some(v@),
                None => None,
            },
            default,
        ),
{
    match value {
        Some(value) => match parse_unsigned(trim(value).as_str(), u64::MAX) {
            Some(n) => n,
            None => default,
        },
        None => default,
    }
}

/// For how many seconds a session can be taken up again after it ended: what the environment says,
/// or the delay of the configuration, which counts as one second at least.
pub fn reconnect_window(value: Option<&str>, delay: u64) -> (r: u64)
    ensures
        r == number_or(
            match value {
                Some(v) => Some(v@),
                None => None,
            },
            if delay == 0 {
                1
            } else {
                delay
            },
        ),
{
    let least: u64 = if delay == 0 {
        1
    } else {
        delay
    };
    env_u64(value, least)
}

/// True for a session of a streamer that a new recording under the same title belongs to: one that
/// has not ended, or not more than `window` seconds ago.
pub open spec fn takes_up(
    session: SessionRow,
    live_streamer_id: i64,
    live_title: Seq<char>,
    now: i64,
    window: u64,
) -> bool {
    &&& session.live_streamer_id == live_streamer_id
    &&& session.live_title@ == live_title
    &&& session.ended_at matches Some(ended) ==> ended >= now - window
}

fn can_take_up(
    session: &SessionRow,
    live_streamer_id: i64,
    live_title: &str,
    now: i64,
    window: u64,
) -> (r: bool)
    ensures
        r == takes_up(*session, live_streamer_id, live_title@, now, window),
{
    if session.live_streamer_id != live_streamer_id || !same(
        session.live_title.as_str(),
        live_title,
    ) {
        return false;
    }
    match session.ended_at {
        Some(ended) => ended as i128 >= now as i128 - window as i128,
        None => true,
    }
}

/// Finds the session that a new recording of a streamer belongs to: the newest one that can be
/// taken up again.
pub fn reusable_session(
    sessions: &Vec<SessionRow>,
    live_streamer_id: i64,
    live_title: &str,
    now: i64,
    window: u64,
) -> (r: Option<usize>)
    ensures
        match r {
            Some(k) => {
                &&& k < sessions@.len()
                &&& takes_up(sessions@[k as int], live_streamer_id, live_title@, now, window)
                &&& forall|i: int|
                    0 <= i < sessions@.len() && takes_up(
                        #[trigger] sessions@[i],
                        live_streamer_id,
                        live_title@,
                        now,
                        window,
                    ) ==> sessions@[i].id <= sessions@[k as int].id
            },
            None => forall|i: int|
                0 <= i < sessions@.len() ==> !takes_up(
                    #[trigger] sessions@[i],
                    live_streamer_id,
                    live_title@,
                    now,
                    window,
                ),
        },
{
    let mut best: Option<usize> = None;
    let mut i: usize = 0;
    while i < sessions.len()
        invariant
            i <= sessions.len(),
            match best {
                Some(k) => {
                    &&& k < i
                    &&& takes_up(sessions@[k as int], live_streamer_id, live_title@, now, window)
                    &&& forall|j: int|
                        0 <= j < i && takes_up(
                            #[trigger] sessions@[j],
                            live_streamer_id,
                            live_title@,
                            now,
                            window,
                        ) ==> sessions@[j].id <= sessions@[k as int].id
                },
                None => forall|j: int|
                    0 <= j < i ==> !takes_up(
                        #[trigger] sessions@[j],
                        live_streamer_id,
                        live_title@,
                        now,
                        window,
                    ),
            },
        decreases sessions.len() - i,
    {
        if can_take_up(&sessions[i], live_streamer_id, live_title, now, window) {
            let better = match best {
                Some(k) => sessions[i].id > sessions[k].id,
                None => true,
            };
            if better {
                best = Some(i);
            }
        }
        i = i + 1;
    }
    best
}

/// The key of a session that has none of its own.
pub fn legacy_session_key(session_id: i64) -> (r: String)
    ensures
        r@ == "legacy-session-"@ + decimal_int(session_id as int),
{
    concat("legacy-session-", decimal_i64(session_id).as_str())
}

/// The key of a new session.
pub open spec fn token_text(worker_id: int, nanos: nat, number: nat) -> Seq<char> {
    "lr-"@ + decimal_int(worker_id) + "-"@ + decimal(nanos) + "-"@ + hex_digits(number, 16)
}

/// The key of a new session, from the time and a random number.
pub fn session_token(worker_id: i64, nanos: u128, number: u64) -> (r: String)
    ensures
        r@ == token_text(worker_id as int, nanos as nat, number as nat),
{
    let mut token = "lr-".to_owned();
    push_text(&mut token, decimal_i64(worker_id).as_str());
    push_text(&mut token, "-");
    push_decimal_u128(&mut token, nanos);
    push_text(&mut token, "-");
    push_hex(&mut token, number, 16);
    token
}

/// `rand::random`, for a `u64`. Nothing is claimed of the number that it draws.
#[verifier::external_body]
fn random_number() -> u64 {
    rand::random::<u64>()
}

/// The key of a new session, with a number drawn at random.
pub fn new_session_token(worker_id: i64, nanos: u128) -> (r: String)
    ensures
        exists|number: u64|
            r@ == #[trigger] token_text(worker_id as int, nanos as nat, number as nat),
{
    let number: u64 = random_number();
    session_token(worker_id, nanos, number)
}

/// A session as it begins, with the two switches as they are configured.
pub open spec fn opened_session(
    id: i64,
    live_streamer_id: i64,
    live_title: String,
    delete_after_success: Option<Seq<char>>,
    preserve_danmaku: Option<Seq<char>>,
    now: i64,
) -> SessionRow {
    SessionRow {
        id,
        live_streamer_id,
        live_title,
        aid: None,
        bvid: None,
        submit_state: SubmitState::New,
        status: SessionStatus::Recording,
        delete_after_success: match delete_after_success {
            Some(v) => is_yes(v),
            None => false,
        },
        preserve_danmaku: match preserve_danmaku {
            Some(v) => is_yes(v),
            None => true,
        },
        expected_parts: 0,
        verified_parts: 0,
        next_part_to_upload: 1,
        ended_at: None,
        last_activity_at: now,
        last_error: None,
    }
}

/// The row of a new session. Nothing is deleted unless the environment says so, and danmaku files
/// are preserved unless it says otherwise.
pub fn new_session_row(
    id: i64,
    live_streamer_id: i64,
    live_title: String,
    delete_after_success: Option<&str>,
    preserve_danmaku: Option<&str>,
    now: i64,
) -> (r: SessionRow)
    ensures
        r == opened_session(
            id,
            live_streamer_id,
            live_title,
            match delete_after_success {
                Some(v) => Some(v@),
                None => None,
            },
            match preserve_danmaku {
                Some(v) => Some(v@),
                None => None,
            },
            now,
        ),
{
    SessionRow {
        id,
        live_streamer_id,
        live_title,
        aid: None,
        bvid: None,
        submit_state: SubmitState::New,
        status: SessionStatus::Recording,
        delete_after_success: env_bool(delete_after_success, false),
        preserve_danmaku: env_bool(preserve_danmaku, true),
        expected_parts: 0,
        verified_parts: 0,
        next_part_to_upload: 1,
        ended_at: None,
        last_activity_at: now,
        last_error: None,
    }
}

/// The login file that a template names.
pub fn cookie_source(user_cookie: &Option<String>) -> (r: String)
    ensures
        r@ == match *user_cookie {
            Some(c) => c@,
            None => DEFAULT_COOKIE_FILE@,
        },
{
    match user_cookie {
        Some(cookie) => cookie.clone(),
        None => DEFAULT_COOKIE_FILE.to_owned(),
    }
}

/// Where the copy of the login file goes that a session keeps.
pub open spec fn credential_path_of(session_key: Seq<char>) -> Seq<char> {
    path_in(CREDENTIAL_DIR@, session_key + ".json"@)
}

/// Where the copy of the login file goes that a session keeps.
pub fn credential_path(session_key: &str) -> (r: String)
    ensures
        r@ == credential_path_of(session_key@),
{
    let name = concat(session_key, ".json");
    join_path(CREDENTIAL_DIR, name.as_str())
}

/// The login that a session keeps: the copy of its own where one was made.
pub open spec fn cookie_kept(
    user_cookie: Option<Seq<char>>,
    copied: bool,
    session_key: Seq<char>,
) -> Option<Seq<char>> {
    if copied {
        Some(credential_path_of(session_key))
    } else {
        user_cookie
    }
}

/// The login file that a session goes on with: its own copy, where there was a file to copy.
pub fn frozen_cookie(user_cookie: Option<String>, copied: bool, session_key: &str) -> (r: Option<
    String,
>)
    ensures
        opt_text(r) == cookie_kept(opt_text(user_cookie), copied, session_key@),
{
    if copied {
        Some(credential_path(session_key))
    } else {
        user_cookie
    }
}

/// What a template says about the origin of a submission and about its title.
#[derive(Debug)]
pub struct SubmissionConfig {
    pub copyright: Option<u8>,
    pub copyright_source: Option<String>,
    pub title: Option<String>,
}

/// Whether `r` is a configuration with what it lacks filled in.
pub open spec fn is_completed(config: SubmissionConfig, url: Seq<char>, r: SubmissionConfig) -> bool {
    &&& r.copyright == match config.copyright {
        Some(c) => Some(c),
        None => Some(2u8),
    }
    &&& opt_text(r.copyright_source) == match config.copyright_source {
        Some(s) if !is_blank(s@) => Some(s@),
        _ => Some(url),
    }
    &&& opt_text(r.title) == match config.title {
        Some(t) => Some(t@),
        None => Some(DEFAULT_REPLAY_TITLE@),
    }
}

/// Fills in what a template leaves open: a submission is a repost of the room at `url`, under the
/// default title.
pub fn complete_submission_config(config: SubmissionConfig, url: &str) -> (r: SubmissionConfig)
    ensures
        is_completed(config, url@, r),
{
    let copyright = match config.copyright {
        Some(copyright) => Some(copyright),
        None => Some(2u8),
    };
    let copyright_source = match config.copyright_source {
        Some(source) => if blank(source.as_str()) {
            Some(url.to_owned())
        } else {
            Some(source)
        },
        None => Some(url.to_owned()),
    };
    let title = match config.title {
        Some(title) => Some(title),
        None => Some(DEFAULT_REPLAY_TITLE.to_owned()),
    };
    SubmissionConfig { copyright, copyright_source, title }
}

/// How many connections an upload uses: one at least.
pub fn upload_threads(configured: u32) -> (r: usize)
    ensures
        r == if configured == 0 {
            1
        } else {
            configured
        },
{
    if configured == 0 {
        1
    } else {
        configured as usize
    }
}

/// Whether submissions are edited through the web interface of the service.
pub fn edits_by_web(submit_api: Option<&str>) -> (r: bool)
    ensures
        r == (submit_api matches Some(api) && lowered(api@) == lowered("web"@)),
{
    match submit_api {
        Some(api) => same(lower(api).as_str(), lower("web").as_str()),
        None => false,
    }
}

/// An answer of the service.
#[derive(Debug)]
pub struct ResponseData {
    /// The data of the answer, a JSON document.
    pub data: Option<String>,
    /// The whole answer, as it is shown.
    pub shown: String,
}

/// The identifiers that an answer to a submission gives, from what stands at the top of its data
/// and what stands in the archive in it.
pub open spec fn first_number(top: Option<u64>, archive: Option<u64>) -> Option<u64> {
    match top {
        Some(n) => Some(n),
        None => archive,
    }
}

/// The first of two texts.
pub open spec fn first_text(top: Option<Seq<char>>, archive: Option<Seq<char>>) -> Option<Seq<char>> {
    match top {
        Some(t) => Some(t),
        None => archive,
    }
}

/// Chooses the identifiers of a submission, from what stands at the top of the data of the answer
/// `shown` and what stands in the archive in it.
pub fn choose_remote_ids(
    aid: Option<u64>,
    archive_aid: Option<u64>,
    bvid: Option<String>,
    archive_bvid: Option<String>,
    shown: &str,
) -> (r: Result<(u64, Option<String>), String>)
    ensures
        match first_number(aid, archive_aid) {
            Some(n) => r matches Ok((a, b)) && a == n && opt_text(b) == first_text(
                opt_text(bvid),
                opt_text(archive_bvid),
            ),
            None => r matches Err(m) && m@ == "submit response has no aid: "@ + shown@,
        },
{
    let aid: u64 = match aid {
        Some(aid) => aid,
        None => match archive_aid {
            Some(aid) => aid,
            None => {
                return Err(concat("submit response has no aid: ", shown));
            },
        },
    };
    let bvid = match bvid {
        Some(bvid) => Some(bvid),
        None => archive_bvid,
    };
    Ok((aid, bvid))
}

/// Reads the identifiers of a submission from the answer to it.
pub fn extract_remote_ids(response: &ResponseData) -> (r: Result<(u64, Option<String>), String>)
    ensures
        match response.data {
            None => r matches Err(m) && m@ == "submit response has no data: "@ + response.shown@,
            Some(data) => match first_number(
                json_member_number(data@, "aid"@),
                json_inner_number(data@, "archive"@, "aid"@),
            ) {
                Some(n) => r matches Ok((a, b)) && a == n && opt_text(b) == first_text(
                    json_member_text(data@, "bvid"@),
                    json_inner_text(data@, "archive"@, "bvid"@),
                ),
                None => r matches Err(m) && m@ == "submit response has no aid: "@
                    + response.shown@,
            },
        },
{
    match &response.data {
        None => Err(concat("submit response has no data: ", response.shown.as_str())),
        Some(data) => {
            let data = data.as_str();
            choose_remote_ids(
                json_u64_member(data, "aid"),
                json_u64_inner(data, "archive", "aid"),
                json_string_member(data, "bvid"),
                json_string_inner(data, "archive", "bvid"),
                response.shown.as_str(),
            )
        },
    }
}

/// The sessions that a queue worker runs for.
#[derive(Debug)]
pub struct ActiveSessions {
    pub ids: HashSet<i64>,
}

impl ActiveSessions {
    /// No worker runs.
    pub fn new() -> (r: Self)
        ensures
            r.ids@ == Set::<i64>::empty(),
    {
        ActiveSessions { ids: HashSet::new() }
    }

    /// Notes that a worker is to run for a session. It must be started only if this returns `true`:
    /// otherwise there is one.
    pub fn start(&mut self, session_id: i64) -> (r: bool)
        ensures
            final(self).ids@ == old(self).ids@.insert(session_id),
            r == !old(self).ids@.contains(session_id),
    {
        self.ids.insert(session_id)
    }

    /// Notes that the worker of a session has ended.
    pub fn end(&mut self, session_id: i64)
        ensures
            final(self).ids@ == old(self).ids@.remove(session_id),
    {
        self.ids.remove(&session_id);
    }
}

/// A session that begins is the one that was asked for: nothing of it is recorded, uploaded or
/// submitted, and its first part is the next to be uploaded. Files are kept and danmaku preserved
/// unless configured otherwise.
pub proof fn law_session_begins(
    id: i64,
    live_streamer_id: i64,
    live_title: String,
    delete_after_success: Option<Seq<char>>,
    preserve_danmaku: Option<Seq<char>>,
    now: i64,
)
    ensures
        ({
            let row = opened_session(
                id,
                live_streamer_id,
                live_title,
                delete_after_success,
                preserve_danmaku,
                now,
            );
            &&& row.id == id
            &&& row.live_streamer_id == live_streamer_id
            &&& row.live_title == live_title
            &&& row.aid is None && row.bvid is None
            &&& row.submit_state == SubmitState::New
            &&& row.status == SessionStatus::Recording
            &&& row.ended_at is None && row.last_error is None
            &&& row.last_activity_at == now
            &&& row.expected_parts == 0 && row.verified_parts == 0
            &&& row.next_part_to_upload == 1
            &&& delete_after_success is None ==> !row.delete_after_success
            &&& preserve_danmaku is None ==> row.preserve_danmaku
            &&& delete_after_success matches Some(v) ==> row.delete_after_success == is_yes(v)
            &&& preserve_danmaku matches Some(v) ==> row.preserve_danmaku == is_yes(v)
        }),
{
}

/// A broadcast that reconnects takes up the session it belongs to: of the same streamer, under the
/// same title, and not ended for longer than the window.
pub proof fn law_reconnect_takes_up(
    session: SessionRow,
    live_streamer_id: i64,
    live_title: Seq<char>,
    now: i64,
    window: u64,
)
    ensures
        takes_up(session, live_streamer_id, live_title, now, window) ==> session.live_streamer_id
            == live_streamer_id && session.live_title@ == live_title,
        session.live_streamer_id == live_streamer_id && session.live_title@ == live_title
            && session.ended_at is None ==> takes_up(
            session,
            live_streamer_id,
            live_title,
            now,
            window,
        ),
        session.live_streamer_id == live_streamer_id && session.live_title@ == live_title ==> (
        session.ended_at matches Some(ended) ==> (takes_up(
            session,
            live_streamer_id,
            live_title,
            now,
            window,
        ) <==> now - ended <= window)),
{
}

/// A switch is on where one of the four words says so, in any case and with spaces around it.
pub proof fn law_yes_words(value: Seq<char>, other: Seq<char>)
    ensures
        lowered(trimmed(value)) == "1"@ || lowered(trimmed(value)) == "true"@ || lowered(
            trimmed(value),
        ) == "yes"@ || lowered(trimmed(value)) == "on"@ <==> is_yes(value),
        lowered(trimmed(value)) == lowered(trimmed(other)) ==> is_yes(value) == is_yes(other),
{
}

/// A configured number is read as written; what is no number counts as not configured.
pub proof fn law_configured_numbers(n: u64, value: Seq<char>, default: u64)
    ensures
        number_or(None, default) == default,
        trimmed(value) == decimal(n as nat) ==> number_or(Some(value), default) == n,
        !all_digits(unsigned_digits(trimmed(value))) ==> number_or(Some(value), default) == default,
{
    lemma_parse_decimal(n as nat, u64::MAX as nat);
}

/// A token names the worker, the time and a number, each told apart.
pub proof fn law_tokens(worker_id: int, nanos: nat, number: nat)
    ensures
        ("lr-"@ + decimal_int(worker_id) + "-"@ + decimal(nanos) + "-"@).is_prefix_of(
            token_text(worker_id, nanos, number),
        ),
        hex_digits(number, 16).is_suffix_of(token_text(worker_id, nanos, number)),
{
    let t = token_text(worker_id, nanos, number);
    let head = "lr-"@ + decimal_int(worker_id) + "-"@ + decimal(nanos) + "-"@;
    let tail = hex_digits(number, 16);
    assert(t.take(head.len() as int) =~= head);
    assert(t.skip(t.len() - tail.len()) =~= tail);
}

/// The login of a session is kept under the key of the session.
pub proof fn law_credentials_are_kept_apart(session_key: Seq<char>, other: Seq<char>)
    ensures
        (session_key + ".json"@).is_suffix_of(credential_path_of(session_key)),
        session_key != other ==> credential_path_of(session_key) != credential_path_of(other),
{
    reveal_strlit("data/replay-credentials");
    reveal_strlit("/");
    let head = CREDENTIAL_DIR@ + "/"@;
    let t = credential_path_of(session_key);
    let u = credential_path_of(other);
    let name = session_key + ".json"@;
    assert(t =~= head + name);
    assert(u =~= head + (other + ".json"@));
    assert(t.skip(t.len() - name.len()) =~= name);
    if t == u {
        assert(t.skip(head.len() as int) =~= name);
        assert(u.skip(head.len() as int) =~= other + ".json"@);
        assert(name.take(session_key.len() as int) =~= session_key);
        assert((other + ".json"@).take(other.len() as int) =~= other);
        assert(name.len() == (other + ".json"@).len());
    }
}

/// What the answer says itself goes before what its archive says.
pub proof fn law_identifiers_of_an_answer(
    top: Option<u64>,
    archive: Option<u64>,
    name: Option<Seq<char>>,
    archive_name: Option<Seq<char>>,
)
    ensures
        top is Some ==> first_number(top, archive) == top,
        top is None ==> first_number(top, archive) == archive,
        name is Some ==> first_text(name, archive_name) == name,
        name is None ==> first_text(name, archive_name) == archive_name,
{
}

/// A configuration keeps what it says; what it lacks is filled in: a reprint of the address, under
/// the usual title.
pub proof fn law_configuration_is_completed(
    config: SubmissionConfig,
    url: Seq<char>,
    r: SubmissionConfig,
)
    requires
        is_completed(config, url, r),
    ensures
        config.copyright is Some ==> r.copyright == config.copyright,
        config.copyright is None ==> r.copyright == Some(2u8),
        config.title matches Some(t) ==> (r.title matches Some(u) && u@ == t@),
        config.title is None ==> (r.title matches Some(u) && u@ == DEFAULT_REPLAY_TITLE@),
        config.copyright_source matches Some(s) ==> (!is_blank(s@) ==> (
        r.copyright_source matches Some(t) && t@ == s@)),
        config.copyright_source is None ==> (r.copyright_source matches Some(t) && t@ == url),
        config.copyright_source matches Some(s) ==> (is_blank(s@) ==> (
        r.copyright_source matches Some(t) && t@ == url)),
{
}

/// A session keeps the copy of its login that was made for it, and else the login it was given.
pub proof fn law_login_is_kept(
    user_cookie: Option<Seq<char>>,
    copied: bool,
    session_key: Seq<char>,
)
    ensures
        !copied ==> cookie_kept(user_cookie, copied, session_key) == user_cookie,
        copied ==> (cookie_kept(user_cookie, copied, session_key) matches Some(path) && (session_key
            + ".json"@).is_suffix_of(path)),
{
    law_credentials_are_kept_apart(session_key, session_key);
}

} // verus!
