//! Recovery after a restart: which files on disk belong to which session, and what is done with
//! each of them so that no part is lost and none is overwritten.

use crate::clock::{readable, LocalTime};
use crate::journal::{
    has_pending, has_session_id, is_pending, is_resumable, resumable, session_models,
    RecordingJournalSession, RecordingJournalStore,
};
use crate::lists::{
    first_index, law_ordered, lemma_first_index, lemma_first_index_found, ordered, stable_sort,
    Ranked,
};
use crate::naming::{
    join_path, law_source_name_round_trip, parse_source_name, parsed_source_name, path_in,
    raw_extension, raw_prefix, raw_prefix_text, raw_source_extension, safe_component,
    safe_file_component, source_name, source_name_text,
};
use crate::recording::{
    minimum_segment_size, minimum_useful_size, part_title, part_title_text, RecordingSegment,
    SegmentModel,
};
use crate::recordings::FileFacts;
use crate::text::{
    concat, decimal, join, joined, lemma_pair_le_total, lemma_pair_le_transitive, not_after,
    pair_le, push_decimal, push_text, same, starts_with, texts,
};
use vstd::prelude::*;

verus! {

/// The outcome of a recovery that went on after failures: all of them, joined.
pub fn recovery_result(errors: &Vec<String>) -> (r: Result<(), String>)
    ensures
        r is Ok <==> errors@.len() == 0,
        r matches Err(message) ==> message@ == joined(texts(errors@), "; "@),
{
    if errors.len() == 0 {
        Ok(())
    } else {
        Err(join(errors, "; "))
    }
}

/// A source container that was found on disk.
#[derive(Debug)]
pub struct RecoverySource {
    pub session_id: String,
    pub index: u32,
    pub extension: String,
    pub name: String,
}

/// The name says what the source container is.
pub open spec fn names_source(name: Seq<char>, source: RecoverySource) -> bool {
    &&& source.name@ == name
    &&& parsed_source_name(name) == Some(
        (source.session_id@, source.index as nat, source.extension@),
    )
}

impl Ranked for RecoverySource {
    open spec fn ranks_before(self, other: Self) -> bool {
        pair_le(self.session_id@, self.index as int, other.session_id@, other.index as int)
    }

    fn not_after(&self, other: &Self) -> (r: bool) {
        if same(self.session_id.as_str(), other.session_id.as_str()) {
            self.index <= other.index
        } else {
            not_after(self.session_id.as_str(), other.session_id.as_str())
        }
    }

    proof fn total(a: Self, b: Self) {
        lemma_pair_le_total(a.session_id@, a.index as int, b.session_id@, b.index as int);
    }

    proof fn transitive(a: Self, b: Self, c: Self) {
        lemma_pair_le_transitive(
            a.session_id@,
            a.index as int,
            b.session_id@,
            b.index as int,
            c.session_id@,
            c.index as int,
        );
    }
}

/// True when `found` lists the source containers among `names`, in the order of the names.
pub open spec fn lists_sources(names: Seq<String>, found: Seq<RecoverySource>) -> bool
    decreases names.len(),
{
    if names.len() == 0 {
        found.len() == 0
    } else if parsed_source_name(names.last()@) is Some {
        &&& found.len() > 0
        &&& names_source(names.last()@, found.last())
        &&& lists_sources(names.drop_last(), found.drop_last())
    } else {
        lists_sources(names.drop_last(), found)
    }
}

/// Picks the source containers out of the names in the recording directory, sorted by session and
/// part number.
pub fn discover_sources(names: &Vec<String>) -> (r: Vec<RecoverySource>)
    ensures
        exists|found: Seq<RecoverySource>| #[trigger]
            lists_sources(names@, found) && r@ == ordered(found),
{
    let n: usize = names.len();
    let mut found: Vec<RecoverySource> = Vec::new();
    let mut i: usize = 0;
    assert(names@.take(0) =~= Seq::empty());
    while i < n
        invariant
            i <= n,
            n == names.len(),
            lists_sources(names@.take(i as int), found@),
        decreases n - i,
    {
        let ghost before = found@;
        proof {
            assert(names@.take(i + 1).drop_last() =~= names@.take(i as int));
            assert(names@.take(i + 1).last() == names@[i as int]);
        }
        if let Some((session_id, index, extension)) = parse_source_name(names[i].as_str()) {
            found.push(RecoverySource { session_id, index, extension, name: names[i].clone() });
            assert(found@.drop_last() =~= before);
        }
        i = i + 1;
    }
    assert(names@.take(n as int) =~= names@);
    stable_sort(found)
}

/// What is done with a source container that was found on disk.
#[derive(Debug)]
pub enum SourceDecision {
    /// The journal knows the part already.
    AlreadyPending,
    /// No session of the journal owns the file; it is kept, and the user is told.
    Orphan(String),
    /// The part is rebuilt from the file for this session.
    Recover(RecordingJournalSession),
}

/// The first session of the journal with an identifier.
pub open spec fn session_with(
    sessions: Seq<RecordingJournalSession>,
    id: Seq<char>,
) -> Option<RecordingJournalSession> {
    let k = first_index(session_models(sessions), has_session_id(id));
    if 0 <= k < sessions.len() {
        Some(sessions[k])
    } else {
        None
    }
}

/// Finds the session of the journal with an identifier.
pub fn find_journal_session(store: &RecordingJournalStore, id: &str) -> (r: Option<
    RecordingJournalSession,
>)
    ensures
        r == session_with(store.sessions@, id@),
        r matches Some(s) ==> s.live_session_id@ == id@,
{
    let n: usize = store.sessions.len();
    let ghost models = session_models(store.sessions@);
    let mut i: usize = 0;
    while i < n
        invariant
            i <= n,
            n == store.sessions.len(),
            models == session_models(store.sessions@),
            forall|j: int| 0 <= j < i ==> !has_session_id(id@)(#[trigger] models[j]),
        decreases n - i,
    {
        assert(models[i as int] == store.sessions@[i as int]@);
        if same(store.sessions[i].live_session_id.as_str(), id) {
            proof {
                lemma_first_index(models, has_session_id(id@), i as int);
            }
            return Some(store.sessions[i].clone());
        }
        i = i + 1;
    }
    proof {
        lemma_first_index(models, has_session_id(id@), n as int);
    }
    None
}

/// Whether `decision` is what becomes of a source file that was found.
pub open spec fn is_source_decision(
    store: RecordingJournalStore,
    source: RecoverySource,
    source_path: Seq<char>,
    decision: SourceDecision,
) -> bool {
    if is_pending(store.pending_segments@, source.session_id@, source.index) {
        decision is AlreadyPending
    } else {
        match session_with(store.sessions@, source.session_id@) {
            Some(session) => decision == SourceDecision::Recover(session),
            None => decision matches SourceDecision::Orphan(message) && message@
                == "发现无法归属的恢复源文件，已保留: "@ + source_path,
        }
    }
}

/// Decides about a source container at `source_path`, given the present journal.
pub fn classify_source(
    store: &RecordingJournalStore,
    source: &RecoverySource,
    source_path: &str,
) -> (r: SourceDecision)
    ensures
        is_source_decision(*store, *source, source_path@, r),
{
    if has_pending(store, source.session_id.as_str(), source.index) {
        return SourceDecision::AlreadyPending;
    }
    match find_journal_session(store, source.session_id.as_str()) {
        Some(session) => SourceDecision::Recover(session),
        None => SourceDecision::Orphan(
            concat("发现无法归属的恢复源文件，已保留: ", source_path),
        ),
    }
}

/// A raw recording that was found on disk: its file, and when it was last written.
#[derive(Debug)]
pub struct RawFile {
    pub session_id: String,
    pub extension: String,
    pub name: String,
    pub modified: i64,
}

impl Ranked for RawFile {
    open spec fn ranks_before(self, other: Self) -> bool {
        pair_le(self.session_id@, self.modified as int, other.session_id@, other.modified as int)
    }

    fn not_after(&self, other: &Self) -> (r: bool) {
        if same(self.session_id.as_str(), other.session_id.as_str()) {
            self.modified <= other.modified
        } else {
            not_after(self.session_id.as_str(), other.session_id.as_str())
        }
    }

    proof fn total(a: Self, b: Self) {
        lemma_pair_le_total(a.session_id@, a.modified as int, b.session_id@, b.modified as int);
    }

    proof fn transitive(a: Self, b: Self, c: Self) {
        lemma_pair_le_transitive(
            a.session_id@,
            a.modified as int,
            b.session_id@,
            b.modified as int,
            c.session_id@,
            c.modified as int,
        );
    }
}

/// The predicate of owning a raw recording, by the name of the file.
pub open spec fn owns_raw(name: Seq<char>) -> spec_fn(RecordingJournalSession) -> bool {
    |s: RecordingJournalSession| raw_prefix_text(s.live_session_id@).is_prefix_of(name)
}

/// A file name in the recording directory, with the time of the last change to the file.
#[derive(Debug)]
pub struct DirectoryEntry {
    pub name: String,
    pub modified: i64,
}

/// The raw recording that a directory entry is, given the sessions of the journal.
pub open spec fn raw_of(
    entry: DirectoryEntry,
    sessions: Seq<RecordingJournalSession>,
) -> Option<(Seq<char>, Seq<char>)> {
    match raw_extension(entry.name@) {
        None => None,
        Some(extension) => {
            let k = first_index(sessions, owns_raw(entry.name@));
            if 0 <= k < sessions.len() {
                Some((sessions[k].live_session_id@, extension))
            } else {
                None
            }
        },
    }
}

/// True when `found` lists the raw recordings among the entries, in the order of the entries.
pub open spec fn lists_raws(
    entries: Seq<DirectoryEntry>,
    sessions: Seq<RecordingJournalSession>,
    found: Seq<RawFile>,
) -> bool
    decreases entries.len(),
{
    if entries.len() == 0 {
        found.len() == 0
    } else {
        match raw_of(entries.last(), sessions) {
            Some((session_id, extension)) => {
                &&& found.len() > 0
                &&& found.last().session_id@ == session_id
                &&& found.last().extension@ == extension
                &&& found.last().name@ == entries.last().name@
                &&& found.last().modified == entries.last().modified
                &&& lists_raws(entries.drop_last(), sessions, found.drop_last())
            },
            None => lists_raws(entries.drop_last(), sessions, found),
        }
    }
}

fn find_raw_owner(sessions: &Vec<RecordingJournalSession>, name: &str) -> (r: usize)
    ensures
        r <= sessions.len(),
        r == first_index(sessions@, owns_raw(name@)),
{
    let n: usize = sessions.len();
    let mut i: usize = 0;
    while i < n
        invariant
            i <= n,
            n == sessions.len(),
            forall|j: int| 0 <= j < i ==> !owns_raw(name@)(#[trigger] sessions@[j]),
        decreases n - i,
    {
        if starts_with(name, raw_prefix(sessions[i].live_session_id.as_str()).as_str()) {
            proof {
                lemma_first_index(sessions@, owns_raw(name@), i as int);
            }
            return i;
        }
        i = i + 1;
    }
    proof {
        lemma_first_index(sessions@, owns_raw(name@), n as int);
    }
    n
}

/// Picks the raw recordings of known sessions out of the recording directory, sorted by session
/// and then by the time of the last change.
pub fn discover_raws(
    entries: &Vec<DirectoryEntry>,
    sessions: &Vec<RecordingJournalSession>,
) -> (r: Vec<RawFile>)
    ensures
        exists|found: Seq<RawFile>| #[trigger]
            lists_raws(entries@, sessions@, found) && r@ == ordered(found),
{
    let n: usize = entries.len();
    let mut found: Vec<RawFile> = Vec::new();
    let mut i: usize = 0;
    assert(entries@.take(0) =~= Seq::empty());
    while i < n
        invariant
            i <= n,
            n == entries.len(),
            lists_raws(entries@.take(i as int), sessions@, found@),
        decreases n - i,
    {
        let ghost before = found@;
        proof {
            assert(entries@.take(i + 1).drop_last() =~= entries@.take(i as int));
            assert(entries@.take(i + 1).last() == entries@[i as int]);
        }
        let entry = &entries[i];
        if let Some(extension) = raw_source_extension(entry.name.as_str()) {
            let k: usize = find_raw_owner(sessions, entry.name.as_str());
            if k < sessions.len() {
                found.push(
                    RawFile {
                        session_id: sessions[k].live_session_id.clone(),
                        extension: extension.to_owned(),
                        name: entry.name.clone(),
                        modified: entry.modified,
                    },
                );
                assert(found@.drop_last() =~= before);
            }
        }
        i = i + 1;
    }
    assert(entries@.take(n as int) =~= entries@);
    stable_sort(found)
}

/// What is done with a raw recording.
#[derive(Debug)]
pub enum RawDecision {
    /// Its session is gone; the file is left alone.
    Skip,
    /// It cannot be read; the file is left alone, and the user is told.
    Report(String),
    /// There is no media in it; it is removed.
    Remove,
    /// It becomes the source container of the next part of its session.
    Commit { session: RecordingJournalSession, index: u32, source_name: String },
}

/// Whether `decision` is what becomes of a raw file that was found.
pub open spec fn is_raw_decision(
    store: RecordingJournalStore,
    raw: RawFile,
    raw_path: Seq<char>,
    size: Result<u64, String>,
    decision: RawDecision,
) -> bool {
    match session_with(store.sessions@, raw.session_id@) {
        None => decision is Skip,
        Some(owner) => match size {
            Err(error) => decision matches RawDecision::Report(message) && message@
                == "读取 raw 录像失败 "@ + raw_path + ": "@ + error@,
            Ok(bytes) => if bytes < minimum_useful_size(raw.extension@) {
                decision is Remove
            } else {
                &&& decision matches RawDecision::Commit { session, index, source_name }
                &&& session == owner
                &&& index == if owner.next_segment_index == 0 {
                    1
                } else {
                    owner.next_segment_index
                }
                &&& source_name@ == source_name_text(
                    owner.live_session_id@,
                    index as nat,
                    raw.extension@,
                )
            },
        },
    }
}

/// Decides about a raw recording at `raw_path`, given the present journal and the size of the
/// file.
pub fn classify_raw(
    store: &RecordingJournalStore,
    raw: &RawFile,
    raw_path: &str,
    size: &Result<u64, String>,
) -> (r: RawDecision)
    ensures
        is_raw_decision(*store, *raw, raw_path@, *size, r),
{
    let session = match find_journal_session(store, raw.session_id.as_str()) {
        Some(session) => session,
        None => {
            return RawDecision::Skip;
        },
    };
    match size {
        Err(error) => {
            let mut message = "读取 raw 录像失败 ".to_owned();
            push_text(&mut message, raw_path);
            push_text(&mut message, ": ");
            push_text(&mut message, error.as_str());
            RawDecision::Report(message)
        },
        Ok(bytes) => {
            if *bytes < minimum_segment_size(raw.extension.as_str()) {
                return RawDecision::Remove;
            }
            let index: u32 = if session.next_segment_index == 0 {
                1
            } else {
                session.next_segment_index
            };
            let source_name = source_name(
                session.live_session_id.as_str(),
                index,
                raw.extension.as_str(),
            );
            RawDecision::Commit { session, index, source_name }
        },
    }
}

/// When a recovered part ended: at the last change of its file (or `now` if that is unknown), but
/// not before it began.
pub fn recovered_end(
    session: &RecordingJournalSession,
    modified: Option<i64>,
    now: i64,
) -> (r: i64)
    ensures
        ({
            let written = match modified {
                Some(t) => t,
                None => now,
            };
            r == if written < session.current_segment_started_at {
                session.current_segment_started_at
            } else {
                written
            }
        }),
{
    let written: i64 = match modified {
        Some(t) => t,
        None => now,
    };
    if written < session.current_segment_started_at {
        session.current_segment_started_at
    } else {
        written
    }
}

/// Accepts a source container that is a regular file and not empty.
pub fn check_recovered_source(source_path: &str, facts: &Result<FileFacts, String>) -> (r: Result<
    u64,
    String,
>)
    ensures
        match *facts {
            Err(error) => r matches Err(m) && m@ == "读取恢复源文件失败 "@ + source_path@ + ": "@
                + error@,
            Ok(f) => if f.is_file && f.len > 0 {
                r == Ok::<u64, String>(f.len)
            } else {
                r matches Err(m) && m@ == "恢复源文件为空: "@ + source_path@
            },
        },
{
    match facts {
        Err(error) => {
            let mut message = "读取恢复源文件失败 ".to_owned();
            push_text(&mut message, source_path);
            push_text(&mut message, ": ");
            push_text(&mut message, error.as_str());
            Err(message)
        },
        Ok(f) => {
            if !f.is_file || f.len == 0 {
                Err(concat("恢复源文件为空: ", source_path))
            } else {
                Ok(f.len)
            }
        },
    }
}

/// The name of the finished file of a recovered part: the plain one, or the one with the part
/// number where the plain one is taken.
pub open spec fn recovered_file_name(
    base: Seq<char>,
    start: LocalTime,
    end: LocalTime,
    index: nat,
    plain_taken: bool,
) -> Seq<char> {
    let stem = part_title_text(base, start, end, "："@);
    if plain_taken {
        stem + "｜P"@ + decimal(index) + ".mp4"@
    } else {
        stem + ".mp4"@
    }
}

/// The plain name of the finished file of a recovered part.
pub fn plain_file_name(streamer_name: &str, start: &LocalTime, end: &LocalTime) -> (r: String)
    ensures
        r@ == recovered_file_name(safe_component(streamer_name@), *start, *end, 0, false),
{
    let base = safe_file_component(streamer_name);
    let stem = part_title(base.as_str(), start, end, "：");
    concat(stem.as_str(), ".mp4")
}

/// The part that a recovered source file holds.
pub open spec fn recovered_part(
    session: RecordingJournalSession,
    index: u32,
    dir: Seq<char>,
    source_path: Seq<char>,
    bytes: u64,
    ended_at: i64,
    start: LocalTime,
    end: LocalTime,
    plain_taken: bool,
) -> SegmentModel {
    let base = safe_component(session.streamer_name@);
    let file_name = recovered_file_name(base, start, end, index as nat, plain_taken);
    SegmentModel {
        live_session_id: session.live_session_id@,
        segment_index: index,
        streamer_name: session.streamer_name@,
        platform: "restored"@,
        room_url: session.room_url@,
        source_path,
        final_mp4_path: path_in(dir, file_name),
        local_file_name: file_name,
        youtube_title: part_title_text(base, start, end, ":"@),
        started_at: session.current_segment_started_at,
        ended_at,
        bytes_written: bytes,
    }
}

/// Rebuilds a part of a session from its source container in the directory `dir`. `start` and
/// `end` are the local readings of its times; `plain_taken` tells whether the plain name of the
/// finished file is in use.
pub fn segment_from_recovered_source(
    session: &RecordingJournalSession,
    index: u32,
    dir: &str,
    source_path: &str,
    bytes: u64,
    ended_at: i64,
    start: &LocalTime,
    end: &LocalTime,
    plain_taken: bool,
) -> (r: RecordingSegment)
    requires
        readable(session.current_segment_started_at) ==> start.timestamp
            == session.current_segment_started_at,
        readable(ended_at) ==> end.timestamp == ended_at,
    ensures
        r@ == recovered_part(
            *session,
            index,
            dir@,
            source_path@,
            bytes,
            ended_at,
            *start,
            *end,
            plain_taken,
        ),
{
    let base = safe_file_component(session.streamer_name.as_str());
    let mut file_name = part_title(base.as_str(), start, end, "：");
    if plain_taken {
        push_text(&mut file_name, "｜P");
        push_decimal(&mut file_name, index as u64);
    }
    push_text(&mut file_name, ".mp4");
    RecordingSegment {
        live_session_id: session.live_session_id.clone(),
        segment_index: index,
        streamer_name: session.streamer_name.clone(),
        platform: "restored".to_owned(),
        room_url: session.room_url.clone(),
        source_path: source_path.to_owned(),
        final_mp4_path: join_path(dir, file_name.as_str()),
        local_file_name: file_name,
        youtube_title: part_title(base.as_str(), start, end, ":"),
        started_at: session.current_segment_started_at,
        ended_at,
        bytes_written: bytes,
    }
}

/// A session that has to be closed because its recording is long dead.
#[derive(Debug)]
pub struct StaleSession {
    pub live_session_id: String,
    pub room_url: String,
    pub ended_at: i64,
}

/// When a stale session ended: at its last sign of life, but not before its last part began.
pub open spec fn stale_end(s: RecordingJournalSession) -> i64 {
    if s.last_heartbeat_at < s.current_segment_started_at {
        s.current_segment_started_at
    } else {
        s.last_heartbeat_at
    }
}

/// True when `closed` lists the sessions that cannot be resumed any more at `now`, in order.
pub open spec fn lists_stale(
    sessions: Seq<RecordingJournalSession>,
    now: i64,
    closed: Seq<StaleSession>,
) -> bool
    decreases sessions.len(),
{
    if sessions.len() == 0 {
        closed.len() == 0
    } else if is_resumable(sessions.last().last_heartbeat_at, now) {
        lists_stale(sessions.drop_last(), now, closed)
    } else {
        &&& closed.len() > 0
        &&& closed.last().live_session_id == sessions.last().live_session_id
        &&& closed.last().room_url == sessions.last().room_url
        &&& closed.last().ended_at == stale_end(sessions.last())
        &&& lists_stale(sessions.drop_last(), now, closed.drop_last())
    }
}

/// The sessions that cannot be resumed any more at `now`.
pub fn stale_sessions(store: &RecordingJournalStore, now: i64) -> (r: Vec<StaleSession>)
    ensures
        lists_stale(store.sessions@, now, r@),
{
    let n: usize = store.sessions.len();
    let ghost all = store.sessions@;
    let mut out: Vec<StaleSession> = Vec::new();
    let mut i: usize = 0;
    assert(all.take(0) =~= Seq::empty());
    while i < n
        invariant
            i <= n,
            n == store.sessions.len(),
            all == store.sessions@,
            lists_stale(all.take(i as int), now, out@),
        decreases n - i,
    {
        let ghost before = out@;
        proof {
            assert(all.take(i + 1).drop_last() =~= all.take(i as int));
            assert(all.take(i + 1).last() == all[i as int]);
        }
        let session = &store.sessions[i];
        if !resumable(session.last_heartbeat_at, now) {
            let ended_at: i64 = if session.last_heartbeat_at < session.current_segment_started_at {
                session.current_segment_started_at
            } else {
                session.last_heartbeat_at
            };
            out.push(
                StaleSession {
                    live_session_id: session.live_session_id.clone(),
                    room_url: session.room_url.clone(),
                    ended_at,
                },
            );
            assert(out@.drop_last() =~= before);
        }
        i = i + 1;
    }
    assert(all.take(n as int) =~= all);
    out
}

/// The parts that wait to be handed over, in the order in which that is done.
pub fn pending_in_order(store: &RecordingJournalStore) -> (r: Vec<RecordingSegment>)
    ensures
        r@ == ordered(store.pending_segments@),
{
    let mut pending: Vec<RecordingSegment> = Vec::new();
    let mut i: usize = 0;
    while i < store.pending_segments.len()
        invariant
            i <= store.pending_segments.len(),
            pending@ == store.pending_segments@.take(i as int),
        decreases store.pending_segments.len() - i,
    {
        pending.push(store.pending_segments[i].clone());
        i = i + 1;
        assert(pending@ =~= store.pending_segments@.take(i as int));
    }
    assert(pending@ =~= store.pending_segments@);
    stable_sort(pending)
}

/// The message for a pending part that could not be handed over.
pub fn pending_failed(segment: &RecordingSegment, error: &str) -> (r: String)
    ensures
        r@ == "恢复 "@ + segment.live_session_id@ + " P"@ + decimal(segment.segment_index as nat)
            + " 失败: "@ + error@,
{
    let mut message = "恢复 ".to_owned();
    push_text(&mut message, segment.live_session_id.as_str());
    push_text(&mut message, " P");
    push_decimal(&mut message, segment.segment_index as u64);
    push_text(&mut message, " 失败: ");
    push_text(&mut message, error);
    message
}

/// Where a part that is recovered comes from.
#[derive(Clone, Copy, Debug, PartialEq, Eq, Structural)]
pub enum Origin {
    /// A source container under its final name.
    Source,
    /// A file that was still being written.
    Raw,
}

/// What happened to a file that is being recovered.
#[derive(Debug)]
pub enum RecoveryStep {
    /// The file was opened.
    Opened(Result<(), String>),
    /// The file is safe on disk.
    Synced(Result<(), String>),
    /// It is known whether there is a file under the final name.
    TargetChecked { exists: bool },
    /// The file has its final name.
    Renamed(Result<(), String>),
    /// What the part is was found out.
    Described(Result<(), String>),
    /// The part is in the journal.
    Registered(Result<(), String>),
    /// The part is in the upload queue.
    HandedOver(Result<(), String>),
}

/// What is done next with a file that is being recovered.
#[derive(Debug)]
pub enum RecoveryNext {
    Sync,
    CheckTarget,
    Rename,
    Describe,
    Register,
    HandOver,
    Done,
    /// It is left where it is, with this message.
    Report(String),
}

/// The message for a step that failed.
pub open spec fn step_failure(
    origin: Origin,
    path: Seq<char>,
    index: nat,
    step: RecoveryStep,
) -> Option<Seq<char>> {
    let part = if origin == Origin::Raw {
        "恢复 raw P"@ + decimal(index)
    } else {
        "恢复 P"@ + decimal(index)
    };
    match step {
        RecoveryStep::Opened(Err(e)) => Some("打开 raw 录像失败 "@ + path + ": "@ + e@),
        RecoveryStep::Synced(Err(e)) => Some("同步 raw 录像失败 "@ + path + ": "@ + e@),
        RecoveryStep::TargetChecked { exists } => if exists {
            Some("恢复目标 P"@ + decimal(index) + " 已存在，raw 文件保留避免覆盖: "@ + path)
        } else {
            None
        },
        RecoveryStep::Renamed(Err(e)) => Some("提交 raw 恢复文件失败: "@ + e@),
        RecoveryStep::Described(Err(e)) => Some(e@),
        RecoveryStep::Registered(Err(e)) => Some(part + " 写 journal 失败: "@ + e@),
        RecoveryStep::HandedOver(Err(e)) => Some(part + " handoff 失败: "@ + e@),
        _ => None,
    }
}

/// What follows a step that succeeded.
pub open spec fn follows(step: RecoveryStep, next: RecoveryNext) -> bool {
    match step {
        RecoveryStep::Opened(_) => next is Sync,
        RecoveryStep::Synced(_) => next is CheckTarget,
        RecoveryStep::TargetChecked { .. } => next is Rename,
        RecoveryStep::Renamed(_) => next is Describe,
        RecoveryStep::Described(_) => next is Register,
        RecoveryStep::Registered(_) => next is HandOver,
        RecoveryStep::HandedOver(_) => next is Done,
    }
}

fn path_failure(what: &str, path: &str, error: &str) -> (r: String)
    ensures
        r@ == what@ + path@ + ": "@ + error@,
{
    let mut message = what.to_owned();
    push_text(&mut message, path);
    push_text(&mut message, ": ");
    push_text(&mut message, error);
    message
}

fn part_failure(origin: Origin, index: u32, what: &str, error: &str) -> (r: String)
    ensures
        r@ == (if origin == Origin::Raw {
            "恢复 raw P"@ + decimal(index as nat)
        } else {
            "恢复 P"@ + decimal(index as nat)
        }) + what@ + error@,
{
    let mut message = match origin {
        Origin::Raw => "恢复 raw P".to_owned(),
        Origin::Source => "恢复 P".to_owned(),
    };
    push_decimal(&mut message, index as u64);
    push_text(&mut message, what);
    push_text(&mut message, error);
    message
}

/// Decides what follows a step of the recovery of the part `index` from the file at `path`. A file
/// gets its final name only once it is safe on disk and only where no other file has that name;
/// the part is entered into the journal only after that, and into the upload queue only after it
/// is in the journal.
pub fn after_recovery_step(origin: Origin, path: &str, index: u32, step: RecoveryStep) -> (r:
    RecoveryNext)
    ensures
        match step_failure(origin, path@, index as nat, step) {
            Some(m) => r matches RecoveryNext::Report(message) && message@ == m,
            None => follows(step, r),
        },
{
    match step {
        RecoveryStep::Opened(result) => match result {
            Ok(_) => RecoveryNext::Sync,
            Err(e) => RecoveryNext::Report(path_failure("打开 raw 录像失败 ", path, e.as_str())),
        },
        RecoveryStep::Synced(result) => match result {
            Ok(_) => RecoveryNext::CheckTarget,
            Err(e) => RecoveryNext::Report(path_failure("同步 raw 录像失败 ", path, e.as_str())),
        },
        RecoveryStep::TargetChecked { exists } => if exists {
            let mut message = "恢复目标 P".to_owned();
            push_decimal(&mut message, index as u64);
            push_text(&mut message, " 已存在，raw 文件保留避免覆盖: ");
            push_text(&mut message, path);
            RecoveryNext::Report(message)
        } else {
            RecoveryNext::Rename
        },
        RecoveryStep::Renamed(result) => match result {
            Ok(_) => RecoveryNext::Describe,
            Err(e) => RecoveryNext::Report(concat("提交 raw 恢复文件失败: ", e.as_str())),
        },
        RecoveryStep::Described(result) => match result {
            Ok(_) => RecoveryNext::Register,
            Err(e) => RecoveryNext::Report(e),
        },
        RecoveryStep::Registered(result) => match result {
            Ok(_) => RecoveryNext::HandOver,
            Err(e) => RecoveryNext::Report(
                part_failure(origin, index, " 写 journal 失败: ", e.as_str()),
            ),
        },
        RecoveryStep::HandedOver(result) => match result {
            Ok(_) => RecoveryNext::Done,
            Err(e) => RecoveryNext::Report(
                part_failure(origin, index, " handoff 失败: ", e.as_str()),
            ),
        },
    }
}

/// A recovered file never replaces another one: it is given its final name only after there was no
/// file of that name.
pub proof fn law_recovery_overwrites_nothing(
    origin: Origin,
    path: Seq<char>,
    index: nat,
    step: RecoveryStep,
    next: RecoveryNext,
)
    requires
        match step_failure(origin, path, index, step) {
            Some(m) => next matches RecoveryNext::Report(message) && message@ == m,
            None => follows(step, next),
        },
        next is Rename,
    ensures
        step == (RecoveryStep::TargetChecked { exists: false }),
{
}

/// The message for a stale session that could not be closed.
pub fn close_failed(live_session_id: &str, error: &str) -> (r: String)
    ensures
        r@ == "关闭过期 session "@ + live_session_id@ + " 失败: "@ + error@,
{
    let mut message = "关闭过期 session ".to_owned();
    push_text(&mut message, live_session_id);
    push_text(&mut message, " 失败: ");
    push_text(&mut message, error);
    message
}

/// The message for a stale session whose journal could not be cleared.
pub fn clear_failed(live_session_id: &str, error: &str) -> (r: String)
    ensures
        r@ == "清理过期 journal "@ + live_session_id@ + " 失败: "@ + error@,
{
    let mut message = "清理过期 journal ".to_owned();
    push_text(&mut message, live_session_id);
    push_text(&mut message, " 失败: ");
    push_text(&mut message, error);
    message
}

/// Seconds since the Unix epoch as a signed number, where they fit; `seconds` is missing for a time
/// before the epoch.
pub fn system_time_seconds(seconds: Option<u64>) -> (r: Option<i64>)
    ensures
        r == match seconds {
            Some(n) => if n <= i64::MAX {
                Some(n as i64)
            } else {
                None
            },
            None => None,
        },
{
    match seconds {
        Some(n) => if n <= i64::MAX as u64 {
            Some(n as i64)
        } else {
            None
        },
        None => None,
    }
}

/// A recovered part belongs to the session that it was found for, begins where the journal says and
/// keeps the file it was found in.
pub proof fn law_recovered_part_belongs_to_its_session(
    session: RecordingJournalSession,
    index: u32,
    dir: Seq<char>,
    source_path: Seq<char>,
    bytes: u64,
    ended_at: i64,
    start: LocalTime,
    end: LocalTime,
    plain_taken: bool,
)
    ensures
        ({
            let part = recovered_part(
                session,
                index,
                dir,
                source_path,
                bytes,
                ended_at,
                start,
                end,
                plain_taken,
            );
            &&& part.live_session_id == session.live_session_id@
            &&& part.streamer_name == session.streamer_name@
            &&& part.room_url == session.room_url@
            &&& part.segment_index == index
            &&& part.source_path == source_path
            &&& part.bytes_written == bytes
            &&& part.started_at == session.current_segment_started_at
            &&& part.ended_at == ended_at
            &&& part.final_mp4_path == path_in(dir, part.local_file_name)
            &&& safe_component(session.streamer_name@).is_prefix_of(part.local_file_name)
            &&& safe_component(session.streamer_name@).is_prefix_of(part.youtube_title)
            &&& ".mp4"@.is_suffix_of(part.local_file_name)
            &&& plain_taken ==> ("｜P"@ + decimal(index as nat) + ".mp4"@).is_suffix_of(
                part.local_file_name,
            )
        }),
{
    let part = recovered_part(
        session,
        index,
        dir,
        source_path,
        bytes,
        ended_at,
        start,
        end,
        plain_taken,
    );
    let base = safe_component(session.streamer_name@);
    let name = part.local_file_name;
    let title = part.youtube_title;
    let number = "｜P"@ + decimal(index as nat) + ".mp4"@;
    assert(name.take(base.len() as int) =~= base);
    assert(title.take(base.len() as int) =~= base);
    assert(name.skip(name.len() - ".mp4"@.len()) =~= ".mp4"@);
    if plain_taken {
        assert(name.skip(name.len() - number.len()) =~= number);
    }
}

proof fn lemma_sources_listed(names: Seq<String>, found: Seq<RecoverySource>, i: int) -> (k: int)
    requires
        lists_sources(names, found),
        0 <= i < names.len(),
        parsed_source_name(names[i]@) is Some,
    ensures
        0 <= k < found.len(),
        names_source(names[i]@, found[k]),
    decreases names.len(),
{
    if i == names.len() - 1 {
        found.len() - 1
    } else if parsed_source_name(names.last()@) is Some {
        let k = lemma_sources_listed(names.drop_last(), found.drop_last(), i);
        assert(found.drop_last()[k] == found[k]);
        k
    } else {
        lemma_sources_listed(names.drop_last(), found, i)
    }
}

proof fn lemma_sources_named(names: Seq<String>, found: Seq<RecoverySource>, k: int) -> (i: int)
    requires
        lists_sources(names, found),
        0 <= k < found.len(),
    ensures
        0 <= i < names.len(),
        names_source(names[i]@, found[k]),
    decreases names.len(),
{
    if parsed_source_name(names.last()@) is Some {
        if k == found.len() - 1 {
            names.len() - 1
        } else {
            lemma_sources_named(names.drop_last(), found.drop_last(), k)
        }
    } else {
        lemma_sources_named(names.drop_last(), found, k)
    }
}

/// Every file that carries the name of a source container is found again, with the session, the
/// number and the extension that it was named after; nothing else is.
pub proof fn law_every_source_is_found(
    names: Seq<String>,
    found: Seq<RecoverySource>,
    i: int,
    session: Seq<char>,
    index: u32,
    extension: Seq<char>,
)
    requires
        lists_sources(names, found),
        0 <= i < names.len(),
        names[i]@ == source_name_text(session, index as nat, extension),
        extension == "flv"@ || extension == "ts"@,
    ensures
        exists|k: int|
            0 <= k < found.len() && (#[trigger] found[k]).name@ == names[i]@ && found[k].session_id@
                == session && found[k].index == index && found[k].extension@ == extension,
        forall|k: int|
            0 <= k < found.len() ==> exists|n: int|
                0 <= n < names.len() && (#[trigger] names[n])@ == (#[trigger] found[k]).name@,
        ordered(found).to_multiset() == found.to_multiset(),
{
    law_source_name_round_trip(session, index as nat, extension);
    let k = lemma_sources_listed(names, found, i);
    assert(found[k].name@ == names[i]@);
    assert forall|k: int| 0 <= k < found.len() implies exists|n: int|
        0 <= n < names.len() && (#[trigger] names[n])@ == (#[trigger] found[k]).name@ by {
        let n = lemma_sources_named(names, found, k);
        assert(names[n]@ == found[k].name@);
    }
    law_ordered(found);
}

/// A raw file is one whose name begins with the mark of a session in the journal and ends like a
/// recording; it belongs to a session with that mark.
pub proof fn law_raw_file_is_known_by_its_name(
    entry: DirectoryEntry,
    sessions: Seq<RecordingJournalSession>,
    i: int,
)
    requires
        0 <= i < sessions.len(),
        (".lr-"@ + sessions[i].live_session_id@ + "-raw-"@).is_prefix_of(entry.name@),
    ensures
        raw_of(entry, sessions) is Some <==> raw_extension(entry.name@) is Some,
        raw_of(entry, sessions) matches Some((id, extension)) ==> (".lr-"@ + id + "-raw-"@).is_prefix_of(
            entry.name@,
        ) && raw_extension(entry.name@) == Some(extension),
{
    lemma_first_index_found(sessions, owns_raw(entry.name@));
    assert(owns_raw(entry.name@)(sessions[i]));
}

/// Every raw file is found, with its session, its extension and the time it was written.
pub proof fn law_every_raw_file_is_found(
    entries: Seq<DirectoryEntry>,
    sessions: Seq<RecordingJournalSession>,
    found: Seq<RawFile>,
    i: int,
)
    requires
        lists_raws(entries, sessions, found),
        0 <= i < entries.len(),
        raw_of(entries[i], sessions) is Some,
    ensures
        exists|k: int|
            0 <= k < found.len() && (#[trigger] found[k]).name@ == entries[i].name@
                && found[k].modified == entries[i].modified && raw_of(entries[i], sessions) == Some(
                (found[k].session_id@, found[k].extension@),
            ),
        found.len() <= entries.len(),
    decreases entries.len(),
{
    lemma_raws_bounded(entries, sessions, found);
    if i == entries.len() - 1 {
        assert(found[found.len() - 1].name@ == entries[i].name@);
    } else {
        let rest = entries.drop_last();
        let shorter = if raw_of(entries.last(), sessions) is Some {
            found.drop_last()
        } else {
            found
        };
        law_every_raw_file_is_found(rest, sessions, shorter, i);
        let k = choose|k: int|
            0 <= k < shorter.len() && (#[trigger] shorter[k]).name@ == rest[i].name@
                && shorter[k].modified == rest[i].modified && raw_of(rest[i], sessions) == Some(
                (shorter[k].session_id@, shorter[k].extension@),
            );
        assert(found[k] == shorter[k]);
    }
}

proof fn lemma_raws_bounded(
    entries: Seq<DirectoryEntry>,
    sessions: Seq<RecordingJournalSession>,
    found: Seq<RawFile>,
)
    requires
        lists_raws(entries, sessions, found),
    ensures
        found.len() <= entries.len(),
    decreases entries.len(),
{
    if entries.len() > 0 {
        if raw_of(entries.last(), sessions) is Some {
            lemma_raws_bounded(entries.drop_last(), sessions, found.drop_last());
        } else {
            lemma_raws_bounded(entries.drop_last(), sessions, found);
        }
    }
}

/// Every session that was not heard of for more than ten minutes is closed, at a time not before its
/// last sign of life nor before its last part; all others stay open.
pub proof fn law_every_stale_session_is_closed(
    sessions: Seq<RecordingJournalSession>,
    now: i64,
    closed: Seq<StaleSession>,
    i: int,
)
    requires
        lists_stale(sessions, now, closed),
        0 <= i < sessions.len(),
        now - sessions[i].last_heartbeat_at > 600,
    ensures
        exists|k: int|
            0 <= k < closed.len() && (#[trigger] closed[k]).live_session_id
                == sessions[i].live_session_id && closed[k].room_url == sessions[i].room_url
                && closed[k].ended_at >= sessions[i].last_heartbeat_at && closed[k].ended_at
                >= sessions[i].current_segment_started_at && (closed[k].ended_at
                == sessions[i].last_heartbeat_at || closed[k].ended_at
                == sessions[i].current_segment_started_at),
    decreases sessions.len(),
{
    if i == sessions.len() - 1 {
        assert(closed[closed.len() - 1] == closed.last());
    } else {
        let rest = sessions.drop_last();
        let shorter = if is_resumable(sessions.last().last_heartbeat_at, now) {
            closed
        } else {
            closed.drop_last()
        };
        law_every_stale_session_is_closed(rest, now, shorter, i);
        let k = choose|k: int|
            0 <= k < shorter.len() && (#[trigger] shorter[k]).live_session_id
                == rest[i].live_session_id && shorter[k].room_url == rest[i].room_url
                && shorter[k].ended_at >= rest[i].last_heartbeat_at && shorter[k].ended_at
                >= rest[i].current_segment_started_at && (shorter[k].ended_at
                == rest[i].last_heartbeat_at || shorter[k].ended_at
                == rest[i].current_segment_started_at);
        assert(closed[k] == shorter[k]);
    }
}

/// A session that was heard of within ten minutes is not closed.
pub proof fn law_open_sessions_stay_open(
    sessions: Seq<RecordingJournalSession>,
    now: i64,
    closed: Seq<StaleSession>,
    k: int,
)
    requires
        lists_stale(sessions, now, closed),
        0 <= k < closed.len(),
    ensures
        exists|i: int|
            0 <= i < sessions.len() && (#[trigger] sessions[i]).live_session_id
                == closed[k].live_session_id && now - sessions[i].last_heartbeat_at > 600,
    decreases sessions.len(),
{
    let rest = sessions.drop_last();
    if is_resumable(sessions.last().last_heartbeat_at, now) {
        law_open_sessions_stay_open(rest, now, closed, k);
        let i = choose|i: int|
            0 <= i < rest.len() && (#[trigger] rest[i]).live_session_id == closed[k].live_session_id
                && now - rest[i].last_heartbeat_at > 600;
        assert(sessions[i] == rest[i]);
    } else if k == closed.len() - 1 {
        assert(sessions[sessions.len() - 1].live_session_id == closed[k].live_session_id);
    } else {
        law_open_sessions_stay_open(rest, now, closed.drop_last(), k);
        let i = choose|i: int|
            0 <= i < rest.len() && (#[trigger] rest[i]).live_session_id
                == closed.drop_last()[k].live_session_id && now - rest[i].last_heartbeat_at > 600;
        assert(sessions[i] == rest[i]);
    }
}

/// The session of the journal with an identifier is found where there is one.
pub proof fn law_session_is_found_by_its_id(
    sessions: Seq<RecordingJournalSession>,
    id: Seq<char>,
    i: int,
)
    ensures
        session_with(sessions, id) matches Some(s) ==> s.live_session_id@ == id,
        0 <= i < sessions.len() && sessions[i].live_session_id@ == id ==> session_with(
            sessions,
            id,
        ) is Some,
{
    let models = session_models(sessions);
    lemma_first_index_found(models, has_session_id(id));
    if 0 <= i < sessions.len() && sessions[i].live_session_id@ == id {
        assert(models[i] == sessions[i]@);
        assert(has_session_id(id)(models[i]));
    }
}

/// A source file is recovered into the session it names, unless it already waits for its hand-over;
/// no file is given up.
pub proof fn law_sources_are_recovered_once(
    store: RecordingJournalStore,
    source: RecoverySource,
    source_path: Seq<char>,
    decision: SourceDecision,
)
    requires
        is_source_decision(store, source, source_path, decision),
    ensures
        decision is AlreadyPending <==> is_pending(
            store.pending_segments@,
            source.session_id@,
            source.index,
        ),
        decision matches SourceDecision::Recover(session) ==> session.live_session_id@
            == source.session_id@ && store.sessions@.contains(session),
        decision matches SourceDecision::Orphan(message) ==> source_path.is_suffix_of(message@) && (
        forall|i: int|
            0 <= i < store.sessions@.len() ==> (#[trigger] store.sessions@[i]).live_session_id@
                != source.session_id@),
{
    let models = session_models(store.sessions@);
    lemma_first_index_found(models, has_session_id(source.session_id@));
    let k = first_index(models, has_session_id(source.session_id@));
    if k < models.len() {
        assert(models[k] == store.sessions@[k]@);
    } else {
        assert forall|i: int| 0 <= i < store.sessions@.len() implies (
        #[trigger] store.sessions@[i]).live_session_id@ != source.session_id@ by {
            assert(models[i] == store.sessions@[i]@);
        }
    }
    let t = "发现无法归属的恢复源文件，已保留: "@ + source_path;
    assert(t.skip(t.len() - source_path.len()) =~= source_path);
}

/// A raw file that holds something becomes the next part of its session; one that holds nothing goes.
pub proof fn law_raw_file_becomes_the_next_part(
    store: RecordingJournalStore,
    raw: RawFile,
    raw_path: Seq<char>,
    size: Result<u64, String>,
    decision: RawDecision,
)
    requires
        is_raw_decision(store, raw, raw_path, size, decision),
    ensures
        decision is Remove ==> (size matches Ok(bytes) && bytes < 14),
        (size matches Ok(bytes) && bytes >= 14) ==> decision is Commit || decision is Skip,
        decision matches RawDecision::Commit { session, index, source_name } ==> {
            &&& session.live_session_id@ == raw.session_id@
            &&& index >= 1
            &&& session.next_segment_index >= 1 ==> index == session.next_segment_index
            &&& source_name@ == source_name_text(raw.session_id@, index as nat, raw.extension@)
        },
        size is Err ==> decision is Report || decision is Skip,
{
    law_session_is_found_by_its_id(store.sessions@, raw.session_id@, 0);
}

/// A raw file is recovered step by step: it is made sure of, moved to a free place, described, noted
/// in the journal and handed over.
pub proof fn law_recovery_order(step: RecoveryStep, next: RecoveryNext)
    requires
        follows(step, next),
    ensures
        next is Sync <==> step is Opened,
        next is CheckTarget <==> step is Synced,
        next is Rename <==> step is TargetChecked,
        next is Describe <==> step is Renamed,
        next is Register <==> step is Described,
        next is HandOver <==> step is Registered,
        next is Done <==> step is HandedOver,
{
}

/// A step fails exactly where its work failed or its place is taken.
pub proof fn law_recovery_failures(origin: Origin, path: Seq<char>, index: nat, step: RecoveryStep)
    ensures
        step_failure(origin, path, index, step) is None <==> match step {
            RecoveryStep::Opened(r) => r is Ok,
            RecoveryStep::Synced(r) => r is Ok,
            RecoveryStep::TargetChecked { exists } => !exists,
            RecoveryStep::Renamed(r) => r is Ok,
            RecoveryStep::Described(r) => r is Ok,
            RecoveryStep::Registered(r) => r is Ok,
            RecoveryStep::HandedOver(r) => r is Ok,
        },
{
}

} // verus!
