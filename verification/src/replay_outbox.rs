//! The outbox: finished recordings that wait to be entered into the replay database. A recording
//! is staged under a name of its own, written to the outbox, and entered; entering it again, after
//! a crash, changes nothing.

use crate::lists::{first_index, law_filtered_members, lemma_first_index, lemma_first_index_found};
use crate::naming::{join_path, path_in};
use crate::paths::{with_extension, with_extension_of};
use crate::replay_files::{upload_path_of, FileMove};
use crate::replay_queue::is_due_part;
use crate::replay_rows::{larger, JobRow, SegmentRow, SessionRow};
use crate::statuses::{JobStatus, SegmentStatus};
use crate::text::{
    decimal, decimal_i64, decimal_int, padded_decimal, padded_i64, push_decimal, push_decimal_u128,
    push_text, same,
};
use vstd::prelude::*;

verus! {

/// The directory of the outbox.
pub const OUTBOX_DIR: &'static str = "data/replay-outbox";

/// Number of times that entering a recording is tried.
pub const PERSIST_ATTEMPTS: u64 = 6;

/// A recording that waits to be entered.
#[derive(Debug)]
pub struct OutboxRecord {
    pub session_id: i64,
    pub part_number: i64,
    pub file_path: String,
    pub original_file_path: String,
    pub danmaku_file_path: Option<String>,
    pub file_size: i64,
    pub file_mtime_ns: i64,
    pub file_identity: String,
}

/// A file that the database knows of.
#[derive(Debug)]
pub struct ListedFile {
    pub file: String,
    pub streamer_info_id: i64,
}

/// The directory in which the recordings of a session are staged: under the directory of the
/// recording itself.
pub open spec fn queue_dir_of(parent: Option<Seq<char>>, session_id: int) -> Seq<char> {
    path_in(
        path_in(
            match parent {
                Some(p) => p,
                None => "."@,
            },
            ".live-replay-queue"@,
        ),
        decimal_int(session_id),
    )
}

/// The directory in which the recordings of a session are staged.
pub fn queue_dir(parent: Option<&str>, session_id: i64) -> (r: String)
    ensures
        r@ == queue_dir_of(
            match parent {
                Some(p) => Some(p@),
                None => None,
            },
            session_id as int,
        ),
{
    let parent = match parent {
        Some(parent) => parent,
        None => ".",
    };
    let queue = join_path(parent, ".live-replay-queue");
    join_path(queue.as_str(), decimal_i64(session_id).as_str())
}

/// The name of a staged recording.
pub open spec fn staged_name_text(part_number: int, nanos: nat, original: Seq<char>) -> Seq<char> {
    padded_decimal(part_number, 6) + "-"@ + decimal(nanos) + "-"@ + original
}

/// The path of a staged recording, which was called `original_name`.
pub fn staged_path(
    queue_dir: &str,
    part_number: i64,
    nanos: u128,
    original_name: Option<&str>,
) -> (r: String)
    ensures
        r@ == path_in(
            queue_dir@,
            staged_name_text(
                part_number as int,
                nanos as nat,
                match original_name {
                    Some(n) => n@,
                    None => "segment.bin"@,
                },
            ),
        ),
{
    let original = match original_name {
        Some(name) => name,
        None => "segment.bin",
    };
    let mut name = padded_i64(part_number, 6);
    push_text(&mut name, "-");
    push_decimal_u128(&mut name, nanos);
    push_text(&mut name, "-");
    push_text(&mut name, original);
    join_path(queue_dir, name.as_str())
}

/// The path of the danmaku file of a staged recording.
pub fn staged_danmaku_path(staged: &str) -> (r: String)
    ensures
        r@ == with_extension_of(staged@, "xml"@),
{
    with_extension(staged, "xml")
}

/// The moves that undo the staging of a recording and of its danmaku file.
pub fn rollback_moves(staged: &str, source: &str, staged_danmaku: Option<&str>) -> (r: Vec<
    FileMove,
>)
    ensures
        r@.len() == if staged_danmaku is Some {
            2int
        } else {
            1
        },
        r@[0].source@ == staged@ && r@[0].destination@ == source@,
        staged_danmaku matches Some(d) ==> r@[1].source@ == d@ && r@[1].destination@
            == with_extension_of(source@, "xml"@),
{
    let mut moves: Vec<FileMove> = Vec::new();
    moves.push(FileMove { source: staged.to_owned(), destination: source.to_owned() });
    if let Some(danmaku) = staged_danmaku {
        moves.push(
            FileMove { source: danmaku.to_owned(), destination: with_extension(source, "xml") },
        );
    }
    moves
}

/// The identity of a staged file: its size, its time of modification and its path.
pub open spec fn identity_text(bytes: nat, mtime_ns: int, path: Seq<char>) -> Seq<char> {
    decimal(bytes) + ":"@ + decimal_int(mtime_ns) + ":"@ + path
}

/// The outbox record of a staged recording of `bytes` bytes, modified at `mtime_ns`.
pub fn staged_record(
    session_id: i64,
    part_number: i64,
    staged: String,
    source: String,
    staged_danmaku: Option<String>,
    bytes: u64,
    mtime_ns: i64,
) -> (r: OutboxRecord)
    requires
        bytes <= i64::MAX,
    ensures
        r == (OutboxRecord {
            session_id,
            part_number,
            file_path: staged,
            original_file_path: source,
            danmaku_file_path: staged_danmaku,
            file_size: bytes as i64,
            file_mtime_ns: mtime_ns,
            file_identity: r.file_identity,
        }),
        r.file_identity@ == identity_text(bytes as nat, mtime_ns as int, staged@),
{
    let mut identity = String::new();
    push_decimal(&mut identity, bytes);
    push_text(&mut identity, ":");
    push_text(&mut identity, decimal_i64(mtime_ns).as_str());
    push_text(&mut identity, ":");
    push_text(&mut identity, staged.as_str());
    assert(identity@ =~= identity_text(bytes as nat, mtime_ns as int, staged@));
    OutboxRecord {
        session_id,
        part_number,
        file_path: staged,
        original_file_path: source,
        danmaku_file_path: staged_danmaku,
        file_size: bytes as i64,
        file_mtime_ns: mtime_ns,
        file_identity: identity,
    }
}

/// The name of the outbox file of a recording.
pub open spec fn outbox_name(session_id: int, part_number: int, nanos: nat) -> Seq<char> {
    decimal_int(session_id) + "-"@ + padded_decimal(part_number, 6) + "-"@ + decimal(nanos)
        + ".json"@
}

/// The outbox file of a recording.
pub fn outbox_path(session_id: i64, part_number: i64, nanos: u128) -> (r: String)
    ensures
        r@ == path_in(
            OUTBOX_DIR@,
            outbox_name(session_id as int, part_number as int, nanos as nat),
        ),
{
    let mut name = decimal_i64(session_id);
    push_text(&mut name, "-");
    push_text(&mut name, padded_i64(part_number, 6).as_str());
    push_text(&mut name, "-");
    push_decimal_u128(&mut name, nanos);
    push_text(&mut name, ".json");
    join_path(OUTBOX_DIR, name.as_str())
}

/// Where an outbox file is written before it gets its name.
pub fn outbox_temp_path(path: &str) -> (r: String)
    ensures
        r@ == with_extension_of(path@, "json.tmp"@),
{
    with_extension(path, "json.tmp")
}

/// Where an outbox file goes that cannot be read.
pub fn outbox_quarantine_path(path: &str) -> (r: String)
    ensures
        r@ == with_extension_of(path@, "json.bad"@),
{
    with_extension(path, "json.bad")
}

/// What follows when entering a recording failed.
#[derive(Clone, Copy, Debug, PartialEq, Eq, Structural)]
pub struct PersistRetry {
    /// How long to wait, in milliseconds.
    pub pause_ms: u64,
    /// Whether to try again.
    pub again: bool,
}

/// Decides what follows when the attempt number `attempt` (counted from zero) to enter a recording
/// failed.
pub fn after_persist_failed(attempt: u64) -> (r: PersistRetry)
    requires
        attempt < PERSIST_ATTEMPTS,
    ensures
        r.pause_ms == 200 * (attempt + 1),
        r.again == (attempt + 1 < PERSIST_ATTEMPTS),
{
    PersistRetry { pause_ms: 200 * (attempt + 1), again: attempt + 1 < PERSIST_ATTEMPTS }
}

/// The predicate of being the record of a part.
pub open spec fn is_record_of(session_id: i64, part_number: i64) -> spec_fn(OutboxRecord) -> bool {
    |r: OutboxRecord| r.session_id == session_id && r.part_number == part_number
}

/// The predicate of being the record of another part.
pub open spec fn is_other_record(session_id: i64, part_number: i64) -> spec_fn(
    OutboxRecord,
) -> bool {
    |r: OutboxRecord| !(r.session_id == session_id && r.part_number == part_number)
}

/// The predicate of being a part.
pub open spec fn is_part(session_id: i64, part_number: i64) -> spec_fn(SegmentRow) -> bool {
    |s: SegmentRow| s.session_id == session_id && s.part_number == part_number
}

/// The predicate of being the job of a part.
pub open spec fn is_job_of(segment_id: i64) -> spec_fn(JobRow) -> bool {
    |j: JobRow| j.segment_id == segment_id
}

/// The predicate of being the entry of a file.
pub open spec fn is_entry_of(file: Seq<char>) -> spec_fn(ListedFile) -> bool {
    |f: ListedFile| f.file@ == file
}

/// The highest number among the recordings of a session that wait in the outbox, or zero.
pub open spec fn highest_waiting(records: Seq<OutboxRecord>, session_id: i64) -> i64
    decreases records.len(),
{
    if records.len() == 0 {
        0
    } else {
        let rest = highest_waiting(records.drop_last(), session_id);
        if records.last().session_id == session_id {
            larger(rest, records.last().part_number)
        } else {
            rest
        }
    }
}

/// The highest number among the parts of a session, or zero.
pub open spec fn highest_part(segments: Seq<SegmentRow>, session_id: i64) -> i64
    decreases segments.len(),
{
    if segments.len() == 0 {
        0
    } else {
        let rest = highest_part(segments.drop_last(), session_id);
        if segments.last().session_id == session_id {
            larger(rest, segments.last().part_number)
        } else {
            rest
        }
    }
}

/// The highest number among the recordings of a session that wait in the outbox, or zero.
pub fn filesystem_outbox_max_part(records: &Vec<OutboxRecord>, session_id: i64) -> (r: i64)
    ensures
        r == highest_waiting(records@, session_id),
{
    let mut maximum: i64 = 0;
    let mut i: usize = 0;
    while i < records.len()
        invariant
            i <= records.len(),
            maximum == highest_waiting(records@.take(i as int), session_id),
        decreases records.len() - i,
    {
        proof {
            assert(records@.take(i + 1).drop_last() =~= records@.take(i as int));
        }
        if records[i].session_id == session_id && records[i].part_number > maximum {
            maximum = records[i].part_number;
        }
        i = i + 1;
    }
    assert(records@.take(i as int) =~= records@);
    maximum
}

/// The number of the next part of a session.
pub open spec fn next_number(
    segments: Seq<SegmentRow>,
    waiting: Seq<OutboxRecord>,
    on_disk: Seq<OutboxRecord>,
    session_id: i64,
) -> i64 {
    let highest = larger(
        larger(highest_part(segments, session_id), highest_waiting(waiting, session_id)),
        highest_waiting(on_disk, session_id),
    );
    if highest == i64::MAX {
        highest
    } else {
        (highest + 1) as i64
    }
}

/// The number of the next part of a session: one above the numbers of all that the database holds
/// or that wait in the outbox, in the database or on disk.
pub fn next_part_number(
    segments: &Vec<SegmentRow>,
    waiting: &Vec<OutboxRecord>,
    on_disk: &Vec<OutboxRecord>,
    session_id: i64,
) -> (r: i64)
    ensures
        r == next_number(segments@, waiting@, on_disk@, session_id),
{
    let mut highest: i64 = 0;
    let mut i: usize = 0;
    while i < segments.len()
        invariant
            i <= segments.len(),
            highest == highest_part(segments@.take(i as int), session_id),
        decreases segments.len() - i,
    {
        proof {
            assert(segments@.take(i + 1).drop_last() =~= segments@.take(i as int));
        }
        if segments[i].session_id == session_id && segments[i].part_number > highest {
            highest = segments[i].part_number;
        }
        i = i + 1;
    }
    assert(segments@.take(i as int) =~= segments@);
    let in_database: i64 = filesystem_outbox_max_part(waiting, session_id);
    if in_database > highest {
        highest = in_database;
    }
    let in_files: i64 = filesystem_outbox_max_part(on_disk, session_id);
    if in_files > highest {
        highest = in_files;
    }
    if highest == i64::MAX {
        highest
    } else {
        highest + 1
    }
}

proof fn lemma_highest_waiting(records: Seq<OutboxRecord>, session_id: i64, i: int)
    requires
        0 <= i < records.len(),
        records[i].session_id == session_id,
    ensures
        records[i].part_number <= highest_waiting(records, session_id),
    decreases records.len(),
{
    if i < records.len() - 1 {
        lemma_highest_waiting(records.drop_last(), session_id, i);
    }
}

proof fn lemma_highest_part(segments: Seq<SegmentRow>, session_id: i64, i: int)
    requires
        0 <= i < segments.len(),
        segments[i].session_id == session_id,
    ensures
        segments[i].part_number <= highest_part(segments, session_id),
    decreases segments.len(),
{
    if i < segments.len() - 1 {
        lemma_highest_part(segments.drop_last(), session_id, i);
    }
}

/// The number of a new part is above the number of every part that its session has, wherever that
/// part is recorded. Numbers at the end of their range are left out.
pub proof fn law_part_numbers_fresh(
    segments: Seq<SegmentRow>,
    waiting: Seq<OutboxRecord>,
    on_disk: Seq<OutboxRecord>,
    session_id: i64,
)
    requires
        next_number(segments, waiting, on_disk, session_id) < i64::MAX,
    ensures
        next_number(segments, waiting, on_disk, session_id) >= 1,
        forall|i: int|
            0 <= i < segments.len() && (#[trigger] segments[i]).session_id == session_id
                ==> segments[i].part_number < next_number(segments, waiting, on_disk, session_id),
        forall|i: int|
            0 <= i < waiting.len() && (#[trigger] waiting[i]).session_id == session_id
                ==> waiting[i].part_number < next_number(segments, waiting, on_disk, session_id),
        forall|i: int|
            0 <= i < on_disk.len() && (#[trigger] on_disk[i]).session_id == session_id
                ==> on_disk[i].part_number < next_number(segments, waiting, on_disk, session_id),
{
    lemma_highest_not_negative(segments, session_id);
    assert forall|i: int|
        0 <= i < segments.len() && (#[trigger] segments[i]).session_id
            == session_id implies segments[i].part_number < next_number(
        segments,
        waiting,
        on_disk,
        session_id,
    ) by {
        lemma_highest_part(segments, session_id, i);
    }
    assert forall|i: int|
        0 <= i < waiting.len() && (#[trigger] waiting[i]).session_id
            == session_id implies waiting[i].part_number < next_number(
        segments,
        waiting,
        on_disk,
        session_id,
    ) by {
        lemma_highest_waiting(waiting, session_id, i);
    }
    assert forall|i: int|
        0 <= i < on_disk.len() && (#[trigger] on_disk[i]).session_id
            == session_id implies on_disk[i].part_number < next_number(
        segments,
        waiting,
        on_disk,
        session_id,
    ) by {
        lemma_highest_waiting(on_disk, session_id, i);
    }
}

proof fn lemma_highest_not_negative(segments: Seq<SegmentRow>, session_id: i64)
    ensures
        highest_part(segments, session_id) >= 0,
    decreases segments.len(),
{
    if segments.len() > 0 {
        lemma_highest_not_negative(segments.drop_last(), session_id);
    }
}

/// The rows that entering a recording touches: its session, and the rows of that session.
#[derive(Debug)]
pub struct SessionTables {
    pub session: SessionRow,
    pub segments: Vec<SegmentRow>,
    pub jobs: Vec<JobRow>,
    pub outbox: Vec<OutboxRecord>,
    pub files: Vec<ListedFile>,
}

/// What the tables of a session hold.
#[verifier::ext_equal]
pub struct Tables {
    pub session: SessionRow,
    pub segments: Seq<SegmentRow>,
    pub jobs: Seq<JobRow>,
    pub outbox: Seq<OutboxRecord>,
    pub files: Seq<ListedFile>,
}

impl View for SessionTables {
    type V = Tables;

    open spec fn view(&self) -> Tables {
        Tables {
            session: self.session,
            segments: self.segments@,
            jobs: self.jobs@,
            outbox: self.outbox@,
            files: self.files@,
        }
    }
}

/// The row of a new part.
pub open spec fn new_part(record: OutboxRecord, id: i64) -> SegmentRow {
    SegmentRow {
        id,
        session_id: record.session_id,
        part_number: record.part_number,
        file_path: record.file_path,
        processed_file_path: None,
        danmaku_file_path: record.danmaku_file_path,
        status: SegmentStatus::Queued,
        cleanup_state: None,
        uploaded_filename: None,
        remote_filename: None,
        retry_count: 0,
        next_retry_at: None,
        last_error: None,
        file_size: record.file_size,
        uploaded_at: None,
        verified_at: None,
        deleted_at: None,
    }
}

/// The row of a new job.
pub open spec fn new_job(segment_id: i64, id: i64) -> JobRow {
    JobRow {
        id,
        segment_id,
        status: JobStatus::Queued,
        attempts: 0,
        locked_at: None,
        next_attempt_at: None,
        last_error: None,
    }
}

/// The parts of a session after a recording has been entered under the identifier `id`.
pub open spec fn with_part(segments: Seq<SegmentRow>, record: OutboxRecord, id: i64) -> Seq<
    SegmentRow,
> {
    if first_index(segments, is_part(record.session_id, record.part_number)) < segments.len() {
        segments
    } else {
        segments.push(new_part(record, id))
    }
}

/// The identifier of the part that a recording has been entered as.
pub open spec fn part_id(segments: Seq<SegmentRow>, record: OutboxRecord) -> i64 {
    segments[first_index(segments, is_part(record.session_id, record.part_number))].id
}

/// The jobs after there is one for the part `segment_id`.
pub open spec fn with_job(jobs: Seq<JobRow>, segment_id: i64, id: i64) -> Seq<JobRow> {
    if first_index(jobs, is_job_of(segment_id)) < jobs.len() {
        jobs
    } else {
        jobs.push(new_job(segment_id, id))
    }
}

/// The files after `entry` has been added, unless its file is known.
pub open spec fn with_file(files: Seq<ListedFile>, entry: ListedFile) -> Seq<ListedFile> {
    if first_index(files, is_entry_of(entry.file@)) < files.len() {
        files
    } else {
        files.push(entry)
    }
}

/// The tables after a recording has been entered. `segment_id` and `job_id` are the identifiers
/// that new rows get.
pub open spec fn persisted(
    tables: Tables,
    record: OutboxRecord,
    streamer_info_id: i64,
    segment_id: i64,
    job_id: i64,
    now: i64,
) -> Tables {
    let segments = with_part(tables.segments, record, segment_id);
    Tables {
        session: SessionRow {
            expected_parts: larger(tables.session.expected_parts, record.part_number),
            last_activity_at: now,
            ..tables.session
        },
        segments,
        jobs: with_job(tables.jobs, part_id(segments, record), job_id),
        outbox: tables.outbox.filter(is_other_record(record.session_id, record.part_number)),
        files: with_file(tables.files, ListedFile { file: record.file_path, streamer_info_id }),
    }
}

/// Enters a recording: as a part of its session with a job, and among the known files. The record
/// leaves the outbox. Returns the identifier of the part.
pub fn persist_outbox_record(
    tables: &mut SessionTables,
    record: &OutboxRecord,
    streamer_info_id: i64,
    segment_id: i64,
    job_id: i64,
    now: i64,
) -> (r: i64)
    requires
        record.session_id == old(tables).session.id,
    ensures
        final(tables)@ == persisted(
            old(tables)@,
            *record,
            streamer_info_id,
            segment_id,
            job_id,
            now,
        ),
        r == part_id(final(tables)@.segments, *record),
{
    let ghost before = tables@;
    let ghost part = is_part(record.session_id, record.part_number);
    let mut found: usize = 0;
    while found < tables.segments.len() && !(tables.segments[found].session_id == record.session_id
        && tables.segments[found].part_number == record.part_number)
        invariant
            found <= tables.segments.len(),
            tables@ == before,
            part == is_part(record.session_id, record.part_number),
            forall|k: int| 0 <= k < found ==> !part(#[trigger] before.segments[k]),
        decreases tables.segments.len() - found,
    {
        assert(tables.segments@[found as int] == before.segments[found as int]);
        found = found + 1;
    }
    proof {
        lemma_first_index(before.segments, part, found as int);
    }
    if found == tables.segments.len() {
        tables.segments.push(
            SegmentRow {
                id: segment_id,
                session_id: record.session_id,
                part_number: record.part_number,
                file_path: record.file_path.clone(),
                processed_file_path: None,
                danmaku_file_path: match &record.danmaku_file_path {
                    Some(path) => Some(path.clone()),
                    None => None,
                },
                status: SegmentStatus::Queued,
                cleanup_state: None,
                uploaded_filename: None,
                remote_filename: None,
                retry_count: 0,
                next_retry_at: None,
                last_error: None,
                file_size: record.file_size,
                uploaded_at: None,
                verified_at: None,
                deleted_at: None,
            },
        );
    }
    let ghost segments = with_part(before.segments, *record, segment_id);
    assert(tables.segments@ =~= segments);
    proof {
        assert forall|k: int| 0 <= k < found implies !part(#[trigger] segments[k]) by {
            assert(segments[k] == before.segments[k]);
        }
        lemma_first_index(segments, part, found as int);
    }
    let id: i64 = tables.segments[found].id;
    assert(id == part_id(segments, *record));
    let mut job: usize = 0;
    while job < tables.jobs.len() && tables.jobs[job].segment_id != id
        invariant
            job <= tables.jobs.len(),
            tables@.jobs == before.jobs,
            tables@.segments == segments,
            tables@.session == before.session,
            tables@.outbox == before.outbox,
            tables@.files == before.files,
            forall|k: int| 0 <= k < job ==> !is_job_of(id)(#[trigger] before.jobs[k]),
        decreases tables.jobs.len() - job,
    {
        assert(tables.jobs@[job as int] == before.jobs[job as int]);
        job = job + 1;
    }
    proof {
        lemma_first_index(before.jobs, is_job_of(id), job as int);
    }
    if job == tables.jobs.len() {
        tables.jobs.push(
            JobRow {
                id: job_id,
                segment_id: id,
                status: JobStatus::Queued,
                attempts: 0,
                locked_at: None,
                next_attempt_at: None,
                last_error: None,
            },
        );
    }
    if tables.session.expected_parts < record.part_number {
        tables.session.expected_parts = record.part_number;
    }
    tables.session.last_activity_at = now;
    list_file(&mut tables.files, &record.file_path, streamer_info_id);
    remove_record(&mut tables.outbox, record.session_id, record.part_number);
    id
}

fn list_file(files: &mut Vec<ListedFile>, file: &String, streamer_info_id: i64)
    ensures
        final(files)@ == with_file(old(files)@, ListedFile { file: *file, streamer_info_id }),
{
    let ghost before = files@;
    let mut i: usize = 0;
    while i < files.len() && !same(files[i].file.as_str(), file.as_str())
        invariant
            i <= files.len(),
            files@ == before,
            forall|k: int| 0 <= k < i ==> !is_entry_of(file@)(#[trigger] before[k]),
        decreases files.len() - i,
    {
        i = i + 1;
    }
    proof {
        lemma_first_index(before, is_entry_of(file@), i as int);
    }
    if i == files.len() {
        files.push(ListedFile { file: file.clone(), streamer_info_id });
    }
}

fn remove_record(outbox: &mut Vec<OutboxRecord>, session_id: i64, part_number: i64)
    ensures
        final(outbox)@ == old(outbox)@.filter(is_other_record(session_id, part_number)),
{
    let ghost all = outbox@;
    let ghost keep = is_other_record(session_id, part_number);
    let ghost mut read: int = 0;
    let mut i: usize = 0;
    proof {
        reveal(Seq::filter);
        assert(all.take(0) =~= Seq::empty());
        assert(all.take(0).filter(keep) + all.skip(0) =~= all);
    }
    while i < outbox.len()
        invariant
            i <= outbox.len(),
            keep == is_other_record(session_id, part_number),
            0 <= read <= all.len(),
            all.take(read).filter(keep).len() == i,
            outbox@ == all.take(read).filter(keep) + all.skip(read),
        decreases outbox.len() - i,
    {
        proof {
            reveal(Seq::filter);
            assert(all.take(read + 1).drop_last() =~= all.take(read));
            assert(all.take(read + 1).last() == all[read]);
            assert(outbox@[i as int] == all[read]);
        }
        if outbox[i].session_id == session_id && outbox[i].part_number == part_number {
            outbox.remove(i);
            assert(outbox@ =~= all.take(read + 1).filter(keep) + all.skip(read + 1));
        } else {
            i = i + 1;
            assert(outbox@ =~= all.take(read + 1).filter(keep) + all.skip(read + 1));
        }
        proof {
            read = read + 1;
        }
    }
    proof {
        assert(all.skip(read).len() == 0);
        assert(all.take(read) =~= all);
        assert(outbox@ =~= all.filter(keep));
    }
}

proof fn lemma_found_in_pushed<T>(s: Seq<T>, x: T, p: spec_fn(T) -> bool)
    requires
        p(x),
    ensures
        first_index(s, p) < s.len() ==> first_index(s.push(x), p) == first_index(s, p),
        first_index(s, p) >= s.len() ==> first_index(s.push(x), p) == s.len(),
{
    lemma_first_index_found(s, p);
    let k = first_index(s, p);
    let t = s.push(x);
    assert forall|i: int| 0 <= i < k implies !p(#[trigger] t[i]) by {
        assert(t[i] == s[i]);
    }
    lemma_first_index(t, p, k);
}

proof fn lemma_filter_twice<T>(s: Seq<T>, p: spec_fn(T) -> bool)
    ensures
        s.filter(p).filter(p) == s.filter(p),
    decreases s.len(),
{
    reveal(Seq::filter);
    if s.len() > 0 {
        lemma_filter_twice(s.drop_last(), p);
        let rest = s.drop_last().filter(p);
        if p(s.last()) {
            assert(s.filter(p) =~= rest.push(s.last()));
            assert(s.filter(p).drop_last() =~= rest);
        }
    }
}

/// Entering a recording a second time changes nothing: a recovery after a crash may enter again
/// what was entered before.
pub proof fn law_persist_twice(
    tables: Tables,
    record: OutboxRecord,
    streamer_info_id: i64,
    segment_id: i64,
    job_id: i64,
    other_segment_id: i64,
    other_job_id: i64,
    now: i64,
)
    ensures
        persisted(
            persisted(tables, record, streamer_info_id, segment_id, job_id, now),
            record,
            streamer_info_id,
            other_segment_id,
            other_job_id,
            now,
        ) == persisted(tables, record, streamer_info_id, segment_id, job_id, now),
{
    let once = persisted(tables, record, streamer_info_id, segment_id, job_id, now);
    let part = is_part(record.session_id, record.part_number);
    lemma_found_in_pushed(tables.segments, new_part(record, segment_id), part);
    assert(with_part(once.segments, record, other_segment_id) == once.segments);
    let id = part_id(once.segments, record);
    lemma_found_in_pushed(tables.jobs, new_job(id, job_id), is_job_of(id));
    let entry = ListedFile { file: record.file_path, streamer_info_id };
    lemma_found_in_pushed(tables.files, entry, is_entry_of(entry.file@));
    lemma_filter_twice(
        tables.outbox,
        is_other_record(record.session_id, record.part_number),
    );
}

/// An entered recording is a part of its session, the part has a job, and nothing of it is left in
/// the outbox.
pub proof fn law_persisted_is_entered(
    tables: Tables,
    record: OutboxRecord,
    streamer_info_id: i64,
    segment_id: i64,
    job_id: i64,
    now: i64,
)
    ensures
        ({
            let after = persisted(tables, record, streamer_info_id, segment_id, job_id, now);
            &&& exists|i: int|
                0 <= i < after.segments.len() && is_part(record.session_id, record.part_number)(
                    #[trigger] after.segments[i],
                ) && after.segments[i].id == part_id(after.segments, record)
            &&& exists|i: int|
                0 <= i < after.jobs.len() && (#[trigger] after.jobs[i]).segment_id == part_id(
                    after.segments,
                    record,
                )
            &&& forall|i: int|
                0 <= i < after.outbox.len() ==> !is_record_of(
                    record.session_id,
                    record.part_number,
                )(#[trigger] after.outbox[i])
            &&& after.session.expected_parts >= record.part_number
        }),
{
    let after = persisted(tables, record, streamer_info_id, segment_id, job_id, now);
    let part = is_part(record.session_id, record.part_number);
    lemma_found_in_pushed(tables.segments, new_part(record, segment_id), part);
    lemma_first_index_found(after.segments, part);
    let k = first_index(after.segments, part);
    assert(part(after.segments[k]));
    let id = part_id(after.segments, record);
    lemma_found_in_pushed(tables.jobs, new_job(id, job_id), is_job_of(id));
    lemma_first_index_found(after.jobs, is_job_of(id));
    assert(after.jobs[first_index(after.jobs, is_job_of(id))].segment_id == id);
    let keep = is_other_record(record.session_id, record.part_number);
    assert forall|i: int| 0 <= i < after.outbox.len() implies !is_record_of(
        record.session_id,
        record.part_number,
    )(#[trigger] after.outbox[i]) by {
        tables.outbox.lemma_filter_pred(keep, i);
    }
}

/// A recording that is entered for the first time becomes a part under the file it was staged as:
/// that file is the one that is uploaded, with its danmaku file and its size, and nothing of it is
/// uploaded yet.
pub proof fn law_entered_as_staged(
    tables: Tables,
    record: OutboxRecord,
    streamer_info_id: i64,
    segment_id: i64,
    job_id: i64,
    now: i64,
)
    requires
        forall|i: int|
            0 <= i < tables.segments.len() ==> !((#[trigger] tables.segments[i]).session_id
                == record.session_id && tables.segments[i].part_number == record.part_number),
    ensures
        ({
            let after = persisted(tables, record, streamer_info_id, segment_id, job_id, now);
            let row = after.segments[tables.segments.len() as int];
            &&& after.segments.len() == tables.segments.len() + 1
            &&& after.segments.take(tables.segments.len() as int) == tables.segments
            &&& part_id(after.segments, record) == segment_id
            &&& row.id == segment_id
            &&& row.session_id == record.session_id
            &&& row.part_number == record.part_number
            &&& row.file_path == record.file_path
            &&& upload_path_of(row) == record.file_path@
            &&& row.danmaku_file_path == record.danmaku_file_path
            &&& row.file_size == record.file_size
            &&& row.status == SegmentStatus::Queued
            &&& row.remote_filename is None && row.uploaded_filename is None
            &&& row.retry_count == 0 && row.next_retry_at is None && row.last_error is None
            &&& row.cleanup_state is None
            &&& row.uploaded_at is None && row.verified_at is None && row.deleted_at is None
        }),
{
    let part = is_part(record.session_id, record.part_number);
    lemma_first_index(tables.segments, part, tables.segments.len() as int);
    let after = persisted(tables, record, streamer_info_id, segment_id, job_id, now);
    assert(after.segments =~= tables.segments.push(new_part(record, segment_id)));
    lemma_first_index(after.segments, part, tables.segments.len() as int);
    assert(after.segments.take(tables.segments.len() as int) =~= tables.segments);
}

/// A part that was entered is taken up by the worker as soon as its turn comes.
pub proof fn law_entered_part_comes_up(
    record: OutboxRecord,
    segment_id: i64,
    session: SessionRow,
    now: i64,
)
    requires
        session.id == record.session_id,
        session.next_part_to_upload == record.part_number,
    ensures
        is_due_part(session, now)(new_part(record, segment_id)),
{
}

/// The file that a recording was staged as is among the known files afterwards; where it is new, it
/// stands there under its streamer.
pub proof fn law_staged_file_is_listed(
    tables: Tables,
    record: OutboxRecord,
    streamer_info_id: i64,
    segment_id: i64,
    job_id: i64,
    now: i64,
)
    ensures
        ({
            let after = persisted(tables, record, streamer_info_id, segment_id, job_id, now);
            let known = exists|i: int|
                0 <= i < tables.files.len() && (#[trigger] tables.files[i]).file@
                    == record.file_path@;
            &&& known ==> after.files == tables.files
            &&& !known ==> after.files == tables.files.push(
                ListedFile { file: record.file_path, streamer_info_id },
            )
        }),
{
    lemma_first_index_found(tables.files, is_entry_of(record.file_path@));
    if exists|i: int|
        0 <= i < tables.files.len() && (#[trigger] tables.files[i]).file@ == record.file_path@ {
        let i = choose|i: int|
            0 <= i < tables.files.len() && (#[trigger] tables.files[i]).file@ == record.file_path@;
        assert(is_entry_of(record.file_path@)(tables.files[i]));
    }
}

/// Entering a recording leaves every part, job and file that was there, and of the session all but
/// how many parts it has and when it was last heard of. A job it adds is the job of the part, which
/// waits to be worked on.
pub proof fn law_entering_disturbs_nothing(
    tables: Tables,
    record: OutboxRecord,
    streamer_info_id: i64,
    segment_id: i64,
    job_id: i64,
    now: i64,
)
    ensures
        ({
            let after = persisted(tables, record, streamer_info_id, segment_id, job_id, now);
            &&& tables.segments.is_prefix_of(after.segments)
            &&& tables.jobs.is_prefix_of(after.jobs)
            &&& tables.files.is_prefix_of(after.files)
            &&& after.session == (SessionRow {
                expected_parts: after.session.expected_parts,
                last_activity_at: now,
                ..tables.session
            })
            &&& after.session.expected_parts == tables.session.expected_parts
                || after.session.expected_parts == record.part_number
            &&& after.session.expected_parts >= tables.session.expected_parts
            &&& after.session.expected_parts >= record.part_number
            &&& after.jobs.len() <= tables.jobs.len() + 1
            &&& after.jobs.len() > tables.jobs.len() ==> {
                let job = after.jobs.last();
                &&& job.id == job_id
                &&& job.segment_id == part_id(after.segments, record)
                &&& job.status == JobStatus::Queued
                &&& job.attempts == 0
                &&& job.locked_at is None && job.next_attempt_at is None && job.last_error is None
            }
        }),
{
    let after = persisted(tables, record, streamer_info_id, segment_id, job_id, now);
    assert(after.segments.take(tables.segments.len() as int) =~= tables.segments);
    assert(after.jobs.take(tables.jobs.len() as int) =~= tables.jobs);
    assert(after.files.take(tables.files.len() as int) =~= tables.files);
}

/// Of the recordings that wait to be entered, only the entered one leaves.
pub proof fn law_other_records_keep_waiting(
    tables: Tables,
    record: OutboxRecord,
    streamer_info_id: i64,
    segment_id: i64,
    job_id: i64,
    now: i64,
    waiting: OutboxRecord,
)
    ensures
        persisted(tables, record, streamer_info_id, segment_id, job_id, now).outbox.contains(waiting)
            <==> tables.outbox.contains(waiting) && !(waiting.session_id == record.session_id
            && waiting.part_number == record.part_number),
{
    law_filtered_members(
        tables.outbox,
        is_other_record(record.session_id, record.part_number),
        waiting,
    );
}

proof fn lemma_highest_part_held(segments: Seq<SegmentRow>, session_id: i64)
    ensures
        highest_part(segments, session_id) == 0 || exists|i: int|
            0 <= i < segments.len() && (#[trigger] segments[i]).session_id == session_id
                && segments[i].part_number == highest_part(segments, session_id),
    decreases segments.len(),
{
    if segments.len() > 0 {
        let rest = segments.drop_last();
        lemma_highest_part_held(rest, session_id);
        assert(forall|i: int| 0 <= i < rest.len() ==> #[trigger] rest[i] == segments[i]);
        let n = highest_part(rest, session_id);
        if highest_part(segments, session_id) == n && n != 0 {
            let i = choose|i: int|
                0 <= i < rest.len() && (#[trigger] rest[i]).session_id == session_id
                    && rest[i].part_number == n;
            assert(segments[i].part_number == n);
        } else {
            assert(segments[segments.len() - 1] == segments.last());
        }
    }
}

proof fn lemma_highest_waiting_held(records: Seq<OutboxRecord>, session_id: i64)
    ensures
        highest_waiting(records, session_id) == 0 || exists|i: int|
            0 <= i < records.len() && (#[trigger] records[i]).session_id == session_id
                && records[i].part_number == highest_waiting(records, session_id),
    decreases records.len(),
{
    if records.len() > 0 {
        let rest = records.drop_last();
        lemma_highest_waiting_held(rest, session_id);
        assert(forall|i: int| 0 <= i < rest.len() ==> #[trigger] rest[i] == records[i]);
        let n = highest_waiting(rest, session_id);
        if highest_waiting(records, session_id) == n && n != 0 {
            let i = choose|i: int|
                0 <= i < rest.len() && (#[trigger] rest[i]).session_id == session_id
                    && rest[i].part_number == n;
            assert(records[i].part_number == n);
        } else {
            assert(records[records.len() - 1] == records.last());
        }
    }
}

/// Parts are numbered without gaps, from one on: a new part gets the first number, or the number
/// behind one that is taken.
pub proof fn law_part_numbers_without_gaps(
    segments: Seq<SegmentRow>,
    waiting: Seq<OutboxRecord>,
    on_disk: Seq<OutboxRecord>,
    session_id: i64,
)
    requires
        next_number(segments, waiting, on_disk, session_id) < i64::MAX,
    ensures
        ({
            let n = next_number(segments, waiting, on_disk, session_id);
            ||| n == 1
            ||| exists|i: int|
                0 <= i < segments.len() && (#[trigger] segments[i]).session_id == session_id
                    && segments[i].part_number == n - 1
            ||| exists|i: int|
                0 <= i < waiting.len() && (#[trigger] waiting[i]).session_id == session_id
                    && waiting[i].part_number == n - 1
            ||| exists|i: int|
                0 <= i < on_disk.len() && (#[trigger] on_disk[i]).session_id == session_id
                    && on_disk[i].part_number == n - 1
        }),
{
    lemma_highest_part_held(segments, session_id);
    lemma_highest_waiting_held(waiting, session_id);
    lemma_highest_waiting_held(on_disk, session_id);
}

/// A staged file keeps its own name at the end, behind the number of the part; the name in the
/// outbox begins with the session.
pub proof fn law_staged_names(
    session_id: int,
    part_number: int,
    nanos: nat,
    bytes: nat,
    mtime_ns: int,
    original: Seq<char>,
)
    ensures
        original.is_suffix_of(staged_name_text(part_number, nanos, original)),
        (padded_decimal(part_number, 6) + "-"@ + decimal(nanos)).is_prefix_of(
            staged_name_text(part_number, nanos, original),
        ),
        original.is_suffix_of(identity_text(bytes, mtime_ns, original)),
        (decimal(bytes) + ":"@ + decimal_int(mtime_ns)).is_prefix_of(
            identity_text(bytes, mtime_ns, original),
        ),
        (decimal_int(session_id) + "-"@ + padded_decimal(part_number, 6)).is_prefix_of(
            outbox_name(session_id, part_number, nanos),
        ),
        (decimal(nanos) + ".json"@).is_suffix_of(outbox_name(session_id, part_number, nanos)),
{
    let s = staged_name_text(part_number, nanos, original);
    let head = padded_decimal(part_number, 6) + "-"@ + decimal(nanos);
    assert(s.skip(s.len() - original.len()) =~= original);
    assert(s.take(head.len() as int) =~= head);
    let t = identity_text(bytes, mtime_ns, original);
    let start = decimal(bytes) + ":"@ + decimal_int(mtime_ns);
    assert(t.skip(t.len() - original.len()) =~= original);
    assert(t.take(start.len() as int) =~= start);
    let o = outbox_name(session_id, part_number, nanos);
    let front = decimal_int(session_id) + "-"@ + padded_decimal(part_number, 6);
    let back = decimal(nanos) + ".json"@;
    assert(o.take(front.len() as int) =~= front);
    assert(o.skip(o.len() - back.len()) =~= back);
}

} // verus!
