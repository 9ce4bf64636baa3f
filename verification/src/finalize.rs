//! How the finished file of a part comes about: it gets its name only once it is complete and on
//! the disk, and the source goes only after that.

use crate::paths::same_path;
use crate::recordings::{
    check_remux_output, plan_mp4, verify_nonempty_file, FileFacts, Mp4Plan,
};
use crate::text::{concat, decimal_int};
use vstd::prelude::*;

verus! {

/// A part that is to be finished: where it was recorded, and where the finished file goes.
#[derive(Debug)]
pub struct FinalizeJob {
    pub source: String,
    pub target: String,
}

impl FinalizeJob {
    /// Where the finished file is made before it gets its name.
    pub open spec fn temp(self) -> Seq<char> {
        self.target@ + ".remuxing"@
    }
}

/// How far the work has come.
#[derive(Debug)]
pub enum FinalizeStage {
    /// It is being found out which of the two files exist.
    Looking,
    /// A file that needs no work is being looked at.
    CheckingReady { path: String },
    /// A file that needs no work is being brought to the disk.
    SyncingReady { path: String },
    /// A file that cannot be trusted is being set aside.
    Quarantining,
    /// The source is being looked at.
    CheckingSource,
    /// It is being found out whether something is left of an earlier attempt.
    LookingForTemp,
    /// What is left of an earlier attempt is being removed.
    ClearingTemp,
    /// The new file is being made.
    Remuxing,
    /// The new file is being looked at.
    CheckingTemp,
    /// The new file is being brought to the disk.
    SyncingTemp,
    /// The new file is being given its name.
    Committing,
    /// The finished file is being looked at.
    CheckingTarget,
    /// The work is over.
    Done,
}

/// What happened.
#[derive(Debug)]
pub enum FinalizeEvent {
    Looked { source_exists: bool, target_exists: bool },
    FileRead(Result<FileFacts, String>),
    Synced(Result<(), String>),
    Moved(Result<(), String>),
    TempSeen { exists: bool },
    Removed(Result<(), String>),
    /// The new file was made under this name.
    Remuxed(Result<String, String>),
}

/// What is done next.
#[derive(Debug)]
pub enum FinalizeAction {
    ReadFile(String),
    Sync(String),
    Move { from: String, to: String },
    LookForTemp(String),
    Remove(String),
    Remux { input: String, output: String },
    /// The work is over: this is the finished file.
    Finish { path: String },
    /// The work is over: `path` is the finished file, and `source` is removed if that can be done.
    FinishAndRemove { path: String, source: String },
    /// The work failed.
    Fail(String),
}

/// An event is one that can happen at a stage.
pub open spec fn fits(stage: FinalizeStage, event: FinalizeEvent) -> bool {
    match stage {
        FinalizeStage::Looking => event is Looked,
        FinalizeStage::CheckingReady { .. } => event is FileRead,
        FinalizeStage::SyncingReady { .. } => event is Synced,
        FinalizeStage::Quarantining => event is Moved,
        FinalizeStage::CheckingSource => event is FileRead,
        FinalizeStage::LookingForTemp => event is TempSeen,
        FinalizeStage::ClearingTemp => event is Removed,
        FinalizeStage::Remuxing => event is Remuxed,
        FinalizeStage::CheckingTemp => event is FileRead,
        FinalizeStage::SyncingTemp => event is Synced,
        FinalizeStage::Committing => event is Moved,
        FinalizeStage::CheckingTarget => event is FileRead,
        FinalizeStage::Done => false,
    }
}

/// A file is there and holds something.
pub open spec fn holds_media(facts: Result<FileFacts, String>) -> bool {
    facts matches Ok(f) && f.is_file && f.len > 0
}

/// The message for a file at `path` that is missing or empty.
pub open spec fn unusable(path: Seq<char>, facts: Result<FileFacts, String>) -> Seq<char> {
    match facts {
        Err(error) => "录像文件不存在 "@ + path + ": "@ + error@,
        Ok(_) => "录像文件为空: "@ + path,
    }
}

/// The work ends with a failure.
pub open spec fn fails(next: FinalizeStage, action: FinalizeAction, message: Seq<char>) -> bool {
    next is Done && (action matches FinalizeAction::Fail(m) && m@ == message)
}

/// The file at `path` is looked at.
pub open spec fn reads(action: FinalizeAction, path: Seq<char>) -> bool {
    action matches FinalizeAction::ReadFile(p) && p@ == path
}

/// The file at `path` is brought to the disk.
pub open spec fn syncs(action: FinalizeAction, path: Seq<char>) -> bool {
    action matches FinalizeAction::Sync(p) && p@ == path
}

/// A file gets another name.
pub open spec fn moves(action: FinalizeAction, from: Seq<char>, to: Seq<char>) -> bool {
    action matches FinalizeAction::Move { from: f, to: t } && f@ == from && t@ == to
}

/// The new file of a part is made.
pub open spec fn remuxes(action: FinalizeAction, job: FinalizeJob) -> bool {
    action matches FinalizeAction::Remux { input, output } && input@ == job.source@ && output@
        == job.temp()
}

/// The first step, given which files exist: a source under the final name, and a finished file
/// without a source, need no work; a finished file beside the source cannot be trusted.
pub open spec fn looked(
    job: FinalizeJob,
    source_exists: bool,
    target_exists: bool,
    now_millis: i64,
    next: FinalizeStage,
    action: FinalizeAction,
) -> bool {
    if same_path(job.source@, job.target@) {
        (next matches FinalizeStage::CheckingReady { path } && path@ == job.source@) && reads(
            action,
            job.source@,
        )
    } else if target_exists && !source_exists {
        (next matches FinalizeStage::CheckingReady { path } && path@ == job.target@) && reads(
            action,
            job.target@,
        )
    } else if target_exists {
        next is Quarantining && moves(
            action,
            job.target@,
            job.target@ + ".unverified-"@ + decimal_int(now_millis as int),
        )
    } else {
        next is CheckingSource && reads(action, job.source@)
    }
}

/// What an event at a stage leads to.
pub open spec fn leads_to(
    job: FinalizeJob,
    stage: FinalizeStage,
    event: FinalizeEvent,
    now_millis: i64,
    next: FinalizeStage,
    action: FinalizeAction,
) -> bool {
    match (stage, event) {
        (
            FinalizeStage::Looking,
            FinalizeEvent::Looked { source_exists, target_exists },
        ) => looked(job, source_exists, target_exists, now_millis, next, action),
        (
            FinalizeStage::CheckingReady { path },
            FinalizeEvent::FileRead(facts),
        ) => if holds_media(facts) {
            (next matches FinalizeStage::SyncingReady { path: p } && p@ == path@) && syncs(
                action,
                path@,
            )
        } else {
            fails(next, action, unusable(path@, facts))
        },
        (FinalizeStage::SyncingReady { path }, FinalizeEvent::Synced(result)) => match result {
            Ok(_) => next is Done && action == (FinalizeAction::Finish { path }),
            Err(e) => fails(next, action, e@),
        },
        (FinalizeStage::Quarantining, FinalizeEvent::Moved(result)) => match result {
            Ok(_) => next is CheckingSource && reads(action, job.source@),
            Err(e) => fails(next, action, "隔离旧版未确认 MP4 失败: "@ + e@),
        },
        (FinalizeStage::CheckingSource, FinalizeEvent::FileRead(facts)) => if holds_media(facts) {
            next is LookingForTemp && (action matches FinalizeAction::LookForTemp(p) && p@
                == job.temp())
        } else {
            fails(next, action, unusable(job.source@, facts))
        },
        (FinalizeStage::LookingForTemp, FinalizeEvent::TempSeen { exists }) => if exists {
            next is ClearingTemp && (action matches FinalizeAction::Remove(p) && p@ == job.temp())
        } else {
            next is Remuxing && remuxes(action, job)
        },
        (FinalizeStage::ClearingTemp, FinalizeEvent::Removed(result)) => match result {
            Ok(_) => next is Remuxing && remuxes(action, job),
            Err(e) => fails(next, action, "清理上次未完成 MP4 临时文件失败: "@ + e@),
        },
        (FinalizeStage::Remuxing, FinalizeEvent::Remuxed(result)) => match result {
            Ok(produced) => if same_path(produced@, job.temp()) {
                next is CheckingTemp && reads(action, job.temp())
            } else {
                fails(next, action, "Android MP4 finalize 返回了意外路径: "@ + produced@)
            },
            Err(e) => fails(next, action, e@),
        },
        (FinalizeStage::CheckingTemp, FinalizeEvent::FileRead(facts)) => if holds_media(facts) {
            next is SyncingTemp && syncs(action, job.temp())
        } else {
            fails(next, action, unusable(job.temp(), facts))
        },
        (FinalizeStage::SyncingTemp, FinalizeEvent::Synced(result)) => match result {
            Ok(_) => next is Committing && moves(action, job.temp(), job.target@),
            Err(e) => fails(next, action, e@),
        },
        (FinalizeStage::Committing, FinalizeEvent::Moved(result)) => match result {
            Ok(_) => next is CheckingTarget && reads(action, job.target@),
            Err(e) => fails(next, action, "原子提交最终 MP4 失败: "@ + e@),
        },
        (FinalizeStage::CheckingTarget, FinalizeEvent::FileRead(facts)) => if holds_media(facts) {
            next is Done && (action matches FinalizeAction::FinishAndRemove { path, source }
                && path@ == job.target@ && source@ == job.source@)
        } else {
            fails(next, action, unusable(job.target@, facts))
        },
        _ => false,
    }
}

fn failure(message: String) -> (r: (FinalizeStage, FinalizeAction))
    ensures
        fails(r.0, r.1, message@),
{
    (FinalizeStage::Done, FinalizeAction::Fail(message))
}

fn temp_of(job: &FinalizeJob) -> (r: String)
    ensures
        r@ == job.temp(),
{
    concat(job.target.as_str(), ".remuxing")
}

fn remux(job: &FinalizeJob) -> (r: (FinalizeStage, FinalizeAction))
    ensures
        r.0 is Remuxing,
        remuxes(r.1, *job),
{
    (
        FinalizeStage::Remuxing,
        FinalizeAction::Remux { input: job.source.clone(), output: temp_of(job) },
    )
}

/// Looks at a file: `next` and `action` follow where it holds something.
fn check_file(
    path: &str,
    facts: &Result<FileFacts, String>,
    next: FinalizeStage,
    action: FinalizeAction,
) -> (r: (FinalizeStage, FinalizeAction))
    ensures
        if holds_media(*facts) {
            r.0 == next && r.1 == action
        } else {
            fails(r.0, r.1, unusable(path@, *facts))
        },
{
    match verify_nonempty_file(path, facts) {
        Ok(_) => (next, action),
        Err(message) => failure(message),
    }
}

fn look(job: &FinalizeJob, source_exists: bool, target_exists: bool, now_millis: i64) -> (r: (
    FinalizeStage,
    FinalizeAction,
))
    ensures
        looked(*job, source_exists, target_exists, now_millis, r.0, r.1),
{
    let plan = plan_mp4(
        job.source.as_str(),
        job.target.as_str(),
        source_exists,
        target_exists,
        now_millis,
    );
    match plan {
        Mp4Plan::UseSource => (
            FinalizeStage::CheckingReady { path: job.source.clone() },
            FinalizeAction::ReadFile(job.source.clone()),
        ),
        Mp4Plan::UseFinal => (
            FinalizeStage::CheckingReady { path: job.target.clone() },
            FinalizeAction::ReadFile(job.target.clone()),
        ),
        Mp4Plan::Remux { quarantine: Some(to), temp: _ } => (
            FinalizeStage::Quarantining,
            FinalizeAction::Move { from: job.target.clone(), to },
        ),
        Mp4Plan::Remux { quarantine: None, temp: _ } => (
            FinalizeStage::CheckingSource,
            FinalizeAction::ReadFile(job.source.clone()),
        ),
    }
}

/// Carries the work further: takes note of an event at `now_millis`, and tells what is done next.
pub fn advance(job: &FinalizeJob, stage: FinalizeStage, event: FinalizeEvent, now_millis: i64) -> (r:
    (FinalizeStage, FinalizeAction))
    requires
        fits(stage, event),
    ensures
        leads_to(*job, stage, event, now_millis, r.0, r.1),
{
    match (stage, event) {
        (
            FinalizeStage::Looking,
            FinalizeEvent::Looked { source_exists, target_exists },
        ) => look(job, source_exists, target_exists, now_millis),
        (FinalizeStage::CheckingReady { path }, FinalizeEvent::FileRead(facts)) => check_file(
            path.as_str(),
            &facts,
            FinalizeStage::SyncingReady { path: path.clone() },
            FinalizeAction::Sync(path.clone()),
        ),
        (FinalizeStage::SyncingReady { path }, FinalizeEvent::Synced(result)) => match result {
            Ok(_) => (FinalizeStage::Done, FinalizeAction::Finish { path }),
            Err(error) => failure(error),
        },
        (FinalizeStage::Quarantining, FinalizeEvent::Moved(result)) => match result {
            Ok(_) => (
                FinalizeStage::CheckingSource,
                FinalizeAction::ReadFile(job.source.clone()),
            ),
            Err(error) => failure(concat("隔离旧版未确认 MP4 失败: ", error.as_str())),
        },
        (FinalizeStage::CheckingSource, FinalizeEvent::FileRead(facts)) => check_file(
            job.source.as_str(),
            &facts,
            FinalizeStage::LookingForTemp,
            FinalizeAction::LookForTemp(temp_of(job)),
        ),
        (FinalizeStage::LookingForTemp, FinalizeEvent::TempSeen { exists }) => if exists {
            (FinalizeStage::ClearingTemp, FinalizeAction::Remove(temp_of(job)))
        } else {
            remux(job)
        },
        (FinalizeStage::ClearingTemp, FinalizeEvent::Removed(result)) => match result {
            Ok(_) => remux(job),
            Err(error) => failure(
                concat("清理上次未完成 MP4 临时文件失败: ", error.as_str()),
            ),
        },
        (FinalizeStage::Remuxing, FinalizeEvent::Remuxed(result)) => match result {
            Ok(produced) => {
                let temp = temp_of(job);
                match check_remux_output(produced.as_str(), temp.as_str()) {
                    Ok(_) => (FinalizeStage::CheckingTemp, FinalizeAction::ReadFile(temp)),
                    Err(message) => failure(message),
                }
            },
            Err(error) => failure(error),
        },
        (FinalizeStage::CheckingTemp, FinalizeEvent::FileRead(facts)) => {
            let temp = temp_of(job);
            let path = temp.clone();
            check_file(
                path.as_str(),
                &facts,
                FinalizeStage::SyncingTemp,
                FinalizeAction::Sync(temp),
            )
        },
        (FinalizeStage::SyncingTemp, FinalizeEvent::Synced(result)) => match result {
            Ok(_) => (
                FinalizeStage::Committing,
                FinalizeAction::Move { from: temp_of(job), to: job.target.clone() },
            ),
            Err(error) => failure(error),
        },
        (FinalizeStage::Committing, FinalizeEvent::Moved(result)) => match result {
            Ok(_) => (
                FinalizeStage::CheckingTarget,
                FinalizeAction::ReadFile(job.target.clone()),
            ),
            Err(error) => failure(concat("原子提交最终 MP4 失败: ", error.as_str())),
        },
        (FinalizeStage::CheckingTarget, FinalizeEvent::FileRead(facts)) => check_file(
            job.target.as_str(),
            &facts,
            FinalizeStage::Done,
            FinalizeAction::FinishAndRemove {
                path: job.target.clone(),
                source: job.source.clone(),
            },
        ),
        (stage, event) => {
            assert(!fits(stage, event));
            (FinalizeStage::Done, FinalizeAction::Finish { path: job.target.clone() })
        },
    }
}

/// A file gets the final name only right after it was brought to the disk.
pub proof fn law_committed_after_sync(
    job: FinalizeJob,
    stage: FinalizeStage,
    event: FinalizeEvent,
    now_millis: i64,
    next: FinalizeStage,
    action: FinalizeAction,
)
    requires
        leads_to(job, stage, event, now_millis, next, action),
        next is Committing,
    ensures
        stage is SyncingTemp,
        event matches FinalizeEvent::Synced(result) && result is Ok,
        moves(action, job.temp(), job.target@),
{
}

/// A new file is brought to the disk, and so gets the final name, only after it was found to hold
/// something.
pub proof fn law_synced_after_check(
    job: FinalizeJob,
    stage: FinalizeStage,
    event: FinalizeEvent,
    now_millis: i64,
    next: FinalizeStage,
    action: FinalizeAction,
)
    requires
        leads_to(job, stage, event, now_millis, next, action),
        next is SyncingTemp,
    ensures
        stage is CheckingTemp,
        event matches FinalizeEvent::FileRead(facts) && holds_media(facts),
{
}

/// The source is removed only after the finished file was found under its name; until then nothing
/// but what an earlier attempt left is removed.
pub proof fn law_source_removed_last(
    job: FinalizeJob,
    stage: FinalizeStage,
    event: FinalizeEvent,
    now_millis: i64,
    next: FinalizeStage,
    action: FinalizeAction,
)
    requires
        leads_to(job, stage, event, now_millis, next, action),
    ensures
        action is FinishAndRemove ==> stage is CheckingTarget && (event matches FinalizeEvent::FileRead(
            facts,
        ) && holds_media(facts)),
        action matches FinalizeAction::Remove(path) ==> path@ == job.temp(),
{
}

/// What is made is made from the source, beside the target, and is put in the place of the target;
/// nothing else is moved but an unchecked target, which is set aside.
pub proof fn law_files_go_where_they_belong(
    job: FinalizeJob,
    stage: FinalizeStage,
    event: FinalizeEvent,
    now_millis: i64,
    next: FinalizeStage,
    action: FinalizeAction,
)
    requires
        leads_to(job, stage, event, now_millis, next, action),
    ensures
        action matches FinalizeAction::Remux { input, output } ==> input@ == job.source@ && output@
            == job.target@ + ".remuxing"@,
        action matches FinalizeAction::Move { from, to } ==> (from@ == job.target@ + ".remuxing"@
            && to@ == job.target@ && stage is SyncingTemp) || (from@ == job.target@ && to@
            == job.target@ + ".unverified-"@ + decimal_int(now_millis as int) && stage is Looking),
        action matches FinalizeAction::FinishAndRemove { path, source } ==> path@ == job.target@
            && source@ == job.source@,
        action matches FinalizeAction::Finish { path } ==> stage == (FinalizeStage::SyncingReady {
            path,
        }),
        (stage is Looking && (next matches FinalizeStage::CheckingReady { path }))
            ==> (next matches FinalizeStage::CheckingReady { path } && (path@ == job.source@ || path@
            == job.target@) && (action matches FinalizeAction::ReadFile(p) && p@ == path@)),
        stage matches FinalizeStage::CheckingReady { path } ==> (
        next matches FinalizeStage::SyncingReady { path: p } ==> p@ == path@),
{
}

/// Every step that succeeds leads on to the next, up to the finished file; the first that fails ends
/// the work with what it said, and the source stays.
pub proof fn law_work_goes_on_until_it_fails(
    job: FinalizeJob,
    stage: FinalizeStage,
    event: FinalizeEvent,
    now_millis: i64,
    next: FinalizeStage,
    action: FinalizeAction,
)
    requires
        leads_to(job, stage, event, now_millis, next, action),
    ensures
        action is Fail ==> next is Done,
        action is Fail <==> match event {
            FinalizeEvent::Looked { .. } => false,
            FinalizeEvent::TempSeen { .. } => false,
            FinalizeEvent::FileRead(facts) => !(facts matches Ok(f) && f.is_file && f.len > 0),
            FinalizeEvent::Synced(result) => result is Err,
            FinalizeEvent::Moved(result) => result is Err,
            FinalizeEvent::Removed(result) => result is Err,
            FinalizeEvent::Remuxed(result) => !(result matches Ok(produced) && same_path(
                produced@,
                job.target@ + ".remuxing"@,
            )),
        },
        !(action is Fail) ==> match stage {
            FinalizeStage::Looking => next is CheckingReady || next is Quarantining
                || next is CheckingSource,
            FinalizeStage::CheckingReady { .. } => next is SyncingReady,
            FinalizeStage::SyncingReady { .. } => action is Finish,
            FinalizeStage::Quarantining => next is CheckingSource,
            FinalizeStage::CheckingSource => next is LookingForTemp,
            FinalizeStage::LookingForTemp => next is ClearingTemp || next is Remuxing,
            FinalizeStage::ClearingTemp => next is Remuxing,
            FinalizeStage::Remuxing => next is CheckingTemp,
            FinalizeStage::CheckingTemp => next is SyncingTemp,
            FinalizeStage::SyncingTemp => next is Committing,
            FinalizeStage::Committing => next is CheckingTarget,
            FinalizeStage::CheckingTarget => action is FinishAndRemove,
            FinalizeStage::Done => false,
        },
        next is Done ==> action is Fail || action is Finish || action is FinishAndRemove,
        fits(stage, event),
{
}

/// How the work begins follows from the files that are there: a finished file without a source is
/// checked, one beside its source is set aside, and else the source is worked on.
pub proof fn law_work_begins_with_what_is_there(
    job: FinalizeJob,
    source_exists: bool,
    target_exists: bool,
    now_millis: i64,
    next: FinalizeStage,
    action: FinalizeAction,
)
    requires
        looked(job, source_exists, target_exists, now_millis, next, action),
        !same_path(job.source@, job.target@),
    ensures
        target_exists && source_exists <==> next is Quarantining,
        target_exists && !source_exists ==> (action matches FinalizeAction::ReadFile(p) && p@
            == job.target@),
        !target_exists ==> next is CheckingSource && (action matches FinalizeAction::ReadFile(p)
            && p@ == job.source@),
{
}

/// A leftover of an earlier run is removed before anything is made, and only then.
pub proof fn law_leftover_is_removed_first(
    job: FinalizeJob,
    exists: bool,
    now_millis: i64,
    next: FinalizeStage,
    action: FinalizeAction,
)
    requires
        leads_to(
            job,
            FinalizeStage::LookingForTemp,
            FinalizeEvent::TempSeen { exists },
            now_millis,
            next,
            action,
        ),
    ensures
        exists <==> (action matches FinalizeAction::Remove(p) && p@ == job.target@ + ".remuxing"@),
        !exists <==> action is Remux,
{
}

/// The file that was looked at is the one that is made sure of, and at every stage the right file is
/// looked at.
pub proof fn law_the_right_file_is_looked_at(
    job: FinalizeJob,
    stage: FinalizeStage,
    event: FinalizeEvent,
    now_millis: i64,
    next: FinalizeStage,
    action: FinalizeAction,
)
    requires
        leads_to(job, stage, event, now_millis, next, action),
    ensures
        action matches FinalizeAction::Sync(p) ==> match stage {
            FinalizeStage::CheckingReady { path } => p@ == path@,
            _ => p@ == job.target@ + ".remuxing"@,
        },
        action matches FinalizeAction::ReadFile(p) ==> match next {
            FinalizeStage::CheckingReady { path } => p@ == path@,
            FinalizeStage::CheckingSource => p@ == job.source@,
            FinalizeStage::CheckingTemp => p@ == job.target@ + ".remuxing"@,
            _ => p@ == job.target@,
        },
        action matches FinalizeAction::LookForTemp(p) ==> p@ == job.target@ + ".remuxing"@,
        next is CheckingReady || next is CheckingSource || next is CheckingTemp
            || next is CheckingTarget ==> action is ReadFile,
        next is SyncingReady || next is SyncingTemp ==> action is Sync,
        next is Remuxing <==> action is Remux,
        next is ClearingTemp <==> action is Remove,
        next is LookingForTemp <==> action is LookForTemp,
        next is Quarantining || next is Committing <==> action is Move,
{
}

/// A failure tells what went wrong, and with which file.
pub proof fn law_failures_tell_why(
    job: FinalizeJob,
    stage: FinalizeStage,
    event: FinalizeEvent,
    now_millis: i64,
    next: FinalizeStage,
    action: FinalizeAction,
)
    requires
        leads_to(job, stage, event, now_millis, next, action),
    ensures
        action matches FinalizeAction::Fail(m) ==> match event {
            FinalizeEvent::FileRead(Err(e)) => e@.is_suffix_of(m@),
            FinalizeEvent::Synced(Err(e)) => e@.is_suffix_of(m@),
            FinalizeEvent::Moved(Err(e)) => e@.is_suffix_of(m@),
            FinalizeEvent::Removed(Err(e)) => e@.is_suffix_of(m@),
            FinalizeEvent::Remuxed(Err(e)) => e@.is_suffix_of(m@),
            FinalizeEvent::Remuxed(Ok(produced)) => produced@.is_suffix_of(m@),
            _ => true,
        },
{
    if let FinalizeAction::Fail(m) = action {
        let tail = match event {
            FinalizeEvent::FileRead(Err(e)) => e@,
            FinalizeEvent::Synced(Err(e)) => e@,
            FinalizeEvent::Moved(Err(e)) => e@,
            FinalizeEvent::Removed(Err(e)) => e@,
            FinalizeEvent::Remuxed(Err(e)) => e@,
            FinalizeEvent::Remuxed(Ok(produced)) => produced@,
            _ => m@,
        };
        assert(m@.skip(m@.len() - tail.len()) =~= tail);
    }
}

} // verus!
