//! The local files of a part: how they are prepared for the upload, and what becomes of them when
//! the part is verified.

use crate::lists::{first_index, lemma_first_index, lemma_first_index_found};
use crate::naming::{join_path, path_in};
use crate::paths::{
    extension, extension_is, extension_of, file_name, file_name_of, file_stem, has_extension,
    is_same_path, same_path, stem_of, with_extension, with_extension_of,
};
use crate::replay_rows::{SegmentRow, SessionRow};
use crate::text::{
    concat, decimal_i64, decimal_int, lower, lowered, opt_text, prefix_of, push_text, same,
    take_chars, texts,
};
use vstd::prelude::*;

verus! {

/// A step of the processing that a streamer has configured.
#[derive(Debug)]
pub enum HookStep {
    /// Move the files into the directory `mv`.
    Move { mv: String },
    /// Change the container of the file.
    Remux,
    /// Run a command.
    Run,
    /// Remove files, by this command.
    Remove(String),
}

/// A file that is to be moved.
#[derive(Debug)]
pub struct FileMove {
    pub source: String,
    pub destination: String,
}

/// The file of a part that is uploaded.
pub open spec fn upload_path_of(segment: SegmentRow) -> Seq<char> {
    match segment.processed_file_path {
        Some(p) => p@,
        None => segment.file_path@,
    }
}

/// The file of a part that is uploaded, followed by its danmaku file.
pub open spec fn prepared(segment: SegmentRow) -> Seq<Seq<char>> {
    match segment.danmaku_file_path {
        Some(p) => seq![upload_path_of(segment), p@],
        None => seq![upload_path_of(segment)],
    }
}

/// The file of a part that is uploaded, followed by its danmaku file.
pub fn prepared_paths(segment: &SegmentRow) -> (r: Vec<String>)
    ensures
        texts(r@) == prepared(*segment),
{
    let mut paths: Vec<String> = Vec::new();
    match &segment.processed_file_path {
        Some(path) => paths.push(path.clone()),
        None => paths.push(segment.file_path.clone()),
    }
    if let Some(path) = &segment.danmaku_file_path {
        paths.push(path.clone());
    }
    assert(texts(paths@) =~= prepared(*segment));
    paths
}

/// Whether a recording has to be put into an MP4 container before it is uploaded.
pub fn needs_remux(path: &str) -> (r: bool)
    ensures
        r == !has_extension(path@, "mp4"@),
{
    !extension_is(path, "mp4")
}

/// Where the MP4 of a recording goes.
pub fn remux_target(source: &str) -> (r: String)
    ensures
        r@ == with_extension_of(source@, "mp4"@),
{
    with_extension(source, "mp4")
}

/// True for the containers whose audio has to be rewritten for an MP4.
pub open spec fn is_transport_stream(path: Seq<char>) -> bool {
    extension_of(path) matches Some(e) && (lowered(e) == "ts"@ || lowered(e) == "m2ts"@)
}

/// The arguments with which ffmpeg puts `source` into the MP4 `destination`.
pub open spec fn remux_arguments(source: Seq<char>, destination: Seq<char>) -> Seq<Seq<char>> {
    seq!["-hide_banner"@, "-loglevel"@, "warning"@, "-y"@, "-i"@, source] + seq![
        "-map"@,
        "0:v?"@,
        "-map"@,
        "0:a?"@,
        "-c"@,
        "copy"@,
    ] + (if is_transport_stream(source) {
        seq!["-bsf:a"@, "aac_adtstoasc"@]
    } else {
        Seq::empty()
    }) + seq!["-movflags"@, "+faststart"@, "-avoid_negative_ts"@, "make_zero"@, destination]
}

fn push_argument(arguments: &mut Vec<String>, argument: &str)
    ensures
        texts(final(arguments)@) == texts(old(arguments)@).push(argument@),
{
    arguments.push(argument.to_owned());
    assert(texts(arguments@) =~= texts(old(arguments)@).push(argument@));
}

/// The arguments with which ffmpeg puts `source` into the MP4 `destination`.
pub fn remux_args(source: &str, destination: &str) -> (r: Vec<String>)
    ensures
        texts(r@) == remux_arguments(source@, destination@),
{
    let transport_stream = match extension(source) {
        Some(e) => {
            let e = lower(e.as_str());
            same(e.as_str(), "ts") || same(e.as_str(), "m2ts")
        },
        None => false,
    };
    let mut args: Vec<String> = Vec::new();
    push_argument(&mut args, "-hide_banner");
    push_argument(&mut args, "-loglevel");
    push_argument(&mut args, "warning");
    push_argument(&mut args, "-y");
    push_argument(&mut args, "-i");
    push_argument(&mut args, source);
    push_argument(&mut args, "-map");
    push_argument(&mut args, "0:v?");
    push_argument(&mut args, "-map");
    push_argument(&mut args, "0:a?");
    push_argument(&mut args, "-c");
    push_argument(&mut args, "copy");
    if transport_stream {
        push_argument(&mut args, "-bsf:a");
        push_argument(&mut args, "aac_adtstoasc");
    }
    push_argument(&mut args, "-movflags");
    push_argument(&mut args, "+faststart");
    push_argument(&mut args, "-avoid_negative_ts");
    push_argument(&mut args, "make_zero");
    push_argument(&mut args, destination);
    assert(texts(args@) =~= remux_arguments(source@, destination@));
    args
}

/// Whether an MP4 that exists already, with `existing` bytes, is taken in place of a new one.
pub fn reuses_remux(existing: Option<u64>) -> (r: bool)
    ensures
        r == (existing matches Some(n) && n > 0),
{
    match existing {
        Some(n) => n > 0,
        None => false,
    }
}

/// Checks what ffmpeg did with `source`: `bytes` is the size of the MP4 that it wrote.
pub fn check_remuxed(source: &str, success: bool, bytes: u64) -> (r: Result<(), String>)
    ensures
        r is Ok <==> success && bytes > 0,
        r matches Err(m) ==> m@ == if !success {
            "ffmpeg remux failed for "@ + source@
        } else {
            "ffmpeg produced an empty MP4"@
        },
{
    if !success {
        return Err(concat("ffmpeg remux failed for ", source));
    }
    if bytes == 0 {
        return Err("ffmpeg produced an empty MP4".to_owned());
    }
    Ok(())
}

/// The files of a part that go through the processing: `upload`, the recording in an MP4
/// container, and the danmaku file.
pub fn initial_paths(segment: &SegmentRow, upload: String) -> (r: Vec<String>)
    ensures
        texts(r@) == match segment.danmaku_file_path {
            Some(p) => seq![upload@, p@],
            None => seq![upload@],
        },
{
    let mut paths: Vec<String> = Vec::new();
    paths.push(upload);
    if let Some(path) = &segment.danmaku_file_path {
        paths.push(path.clone());
        assert(texts(paths@) =~= seq![upload@, path@]);
    } else {
        assert(texts(paths@) =~= seq![upload@]);
    }
    paths
}

/// What a processing step does with the files of a part.
#[derive(Debug)]
pub struct HookPlan {
    /// A directory that has to exist first.
    pub directory: Option<String>,
    /// The files to move, in this order.
    pub moves: Vec<FileMove>,
    /// The files afterwards, or why the step cannot be done.
    pub outcome: Result<Vec<String>, String>,
}

/// The predicate of a path without a file name.
pub open spec fn is_unnamed() -> spec_fn(Seq<char>) -> bool {
    |path: Seq<char>| file_name_of(path) is None
}

/// Where a file goes that is moved into a directory.
pub open spec fn moved_into(directory: Seq<char>, path: Seq<char>) -> Seq<char> {
    match file_name_of(path) {
        Some(name) => path_in(directory, name),
        None => directory,
    }
}

/// The message for processing that could not be repeated after a failure.
pub open spec fn refused_hook() -> Seq<char> {
    "上传前处理器不允许 run/rm；它们无法保证路径和重试幂等，请改到上传后手动处理"@
}

/// Whether `plan` is what a step of the preparation does with the files.
pub open spec fn is_hook_plan(paths: Seq<String>, step: HookStep, plan: HookPlan) -> bool {
    match step {
        HookStep::Remux => {
            &&& plan.directory is None
            &&& plan.moves@.len() == 0
            &&& plan.outcome matches Ok(next) && texts(next@) == texts(paths)
        },
        HookStep::Run | HookStep::Remove(_) => {
            &&& plan.directory is None
            &&& plan.moves@.len() == 0
            &&& plan.outcome matches Err(m) && m@ == refused_hook()
        },
        HookStep::Move { mv } => {
            let named = first_index(texts(paths), is_unnamed());
            &&& plan.directory matches Some(d) && d@ == mv@
            &&& plan.moves@.len() == named
            &&& forall|i: int|
                0 <= i < named ==> (#[trigger] plan.moves@[i]).source@ == paths[i]@
                    && plan.moves@[i].destination@ == moved_into(mv@, paths[i]@)
            &&& if named < paths.len() {
                plan.outcome matches Err(m) && m@ == "invalid processor path"@
            } else {
                plan.outcome matches Ok(next) && texts(next@) == texts(paths).map_values(
                    |p: Seq<char>| moved_into(mv@, p),
                )
            }
        },
    }
}

/// Decides what a processing step does with the files of a part.
pub fn plan_hook(paths: &Vec<String>, step: &HookStep) -> (r: HookPlan)
    ensures
        is_hook_plan(paths@, *step, r),
{
    match step {
        HookStep::Remux => {
            let mut next: Vec<String> = Vec::new();
            let mut i: usize = 0;
            while i < paths.len()
                invariant
                    i <= paths.len(),
                    next@ == paths@.take(i as int),
                decreases paths.len() - i,
            {
                next.push(paths[i].clone());
                i = i + 1;
                assert(next@ =~= paths@.take(i as int));
            }
            assert(next@ =~= paths@);
            HookPlan { directory: None, moves: Vec::new(), outcome: Ok(next) }
        },
        HookStep::Run | HookStep::Remove(_) => HookPlan {
            directory: None,
            moves: Vec::new(),
            outcome: Err(
                "上传前处理器不允许 run/rm；它们无法保证路径和重试幂等，请改到上传后手动处理".to_owned(),
            ),
        },
        HookStep::Move { mv } => plan_move(paths, mv.as_str()),
    }
}

fn plan_move(paths: &Vec<String>, mv: &str) -> (r: HookPlan)
    ensures
        ({
            let named = first_index(texts(paths@), is_unnamed());
            &&& r.directory matches Some(d) && d@ == mv@
            &&& r.moves@.len() == named
            &&& forall|i: int|
                0 <= i < named ==> (#[trigger] r.moves@[i]).source@ == paths@[i]@
                    && r.moves@[i].destination@ == moved_into(mv@, paths@[i]@)
            &&& if named < paths@.len() {
                r.outcome matches Err(m) && m@ == "invalid processor path"@
            } else {
                r.outcome matches Ok(next) && texts(next@) == texts(paths@).map_values(
                    |p: Seq<char>| moved_into(mv@, p),
                )
            }
        }),
{
    let mut moves: Vec<FileMove> = Vec::new();
    let mut next: Vec<String> = Vec::new();
    let mut i: usize = 0;
    let ghost all = texts(paths@);
    while i < paths.len()
        invariant
            i <= paths.len(),
            all == texts(paths@),
            moves@.len() == i,
            next@.len() == i,
            forall|k: int| 0 <= k < i ==> !is_unnamed()(#[trigger] all[k]),
            forall|k: int|
                0 <= k < i ==> (#[trigger] moves@[k]).source@ == paths@[k]@
                    && moves@[k].destination@ == moved_into(mv@, paths@[k]@),
            forall|k: int| 0 <= k < i ==> (#[trigger] next@[k])@ == moved_into(mv@, paths@[k]@),
        decreases paths.len() - i,
    {
        assert(all[i as int] == paths@[i as int]@);
        match file_name(paths[i].as_str()) {
            Some(name) => {
                let destination = join_path(mv, name.as_str());
                moves.push(
                    FileMove { source: paths[i].clone(), destination: destination.clone() },
                );
                next.push(destination);
            },
            None => {
                proof {
                    lemma_first_index(all, is_unnamed(), i as int);
                }
                return HookPlan {
                    directory: Some(mv.to_owned()),
                    moves,
                    outcome: Err("invalid processor path".to_owned()),
                };
            },
        }
        i = i + 1;
    }
    proof {
        lemma_first_index(all, is_unnamed(), i as int);
        assert(texts(next@) =~= all.map_values(|p: Seq<char>| moved_into(mv@, p)));
    }
    HookPlan { directory: Some(mv.to_owned()), moves, outcome: Ok(next) }
}

/// The predicate of a danmaku file.
pub open spec fn is_danmaku() -> spec_fn(Seq<char>) -> bool {
    |path: Seq<char>| extension_of(path) == Some("xml"@)
}

fn danmaku_file(path: &str) -> (r: bool)
    ensures
        r == is_danmaku()(path@),
{
    match extension(path) {
        Some(e) => same(e.as_str(), "xml"),
        None => false,
    }
}

/// What the processing leaves of a part: the file to upload, which is the first one, and the first
/// danmaku file behind it.
pub fn processing_result(paths: &Vec<String>) -> (r: Result<(String, Option<String>), String>)
    ensures
        match r {
            Ok((upload, danmaku)) => {
                let rest = texts(paths@).drop_first();
                let k = first_index(rest, is_danmaku());
                &&& paths@.len() > 0
                &&& upload@ == paths@[0]@
                &&& opt_text(danmaku) == if k < rest.len() {
                    Some(rest[k])
                } else {
                    None
                }
            },
            Err(m) => paths@.len() == 0 && m@ == "processor removed upload path"@,
        },
{
    if paths.len() == 0 {
        return Err("processor removed upload path".to_owned());
    }
    let ghost rest = texts(paths@).drop_first();
    let mut i: usize = 1;
    while i < paths.len()
        invariant
            1 <= i <= paths.len(),
            rest == texts(paths@).drop_first(),
            forall|k: int| 0 <= k < i - 1 ==> !is_danmaku()(#[trigger] rest[k]),
        decreases paths.len() - i,
    {
        assert(rest[i - 1] == paths@[i as int]@);
        if danmaku_file(paths[i].as_str()) {
            proof {
                lemma_first_index(rest, is_danmaku(), i - 1);
            }
            return Ok((paths[0].clone(), Some(paths[i].clone())));
        }
        i = i + 1;
    }
    proof {
        lemma_first_index(rest, is_danmaku(), rest.len() as int);
    }
    Ok((paths[0].clone(), None))
}

/// The files that belong to a part.
pub open spec fn part_files(segment: SegmentRow) -> Seq<Seq<char>> {
    seq![segment.file_path@] + (match segment.processed_file_path {
        Some(p) => seq![p@],
        None => Seq::empty(),
    }) + prepared(segment)
}

/// Some of these is the same path.
pub open spec fn has_path(paths: Seq<Seq<char>>, path: Seq<char>) -> bool {
    exists|i: int| 0 <= i < paths.len() && #[trigger] same_path(paths[i], path)
}

/// The paths without those that are the same as an earlier one.
pub open spec fn distinct_paths(paths: Seq<Seq<char>>) -> Seq<Seq<char>>
    decreases paths.len(),
{
    if paths.len() == 0 {
        Seq::empty()
    } else {
        let earlier = distinct_paths(paths.drop_last());
        if has_path(earlier, paths.last()) {
            earlier
        } else {
            earlier.push(paths.last())
        }
    }
}

/// The paths without those of danmaku files, where these are preserved.
pub open spec fn without_preserved(paths: Seq<Seq<char>>, preserve_danmaku: bool) -> Seq<Seq<char>>
    decreases paths.len(),
{
    if paths.len() == 0 {
        Seq::empty()
    } else {
        let earlier = without_preserved(paths.drop_last(), preserve_danmaku);
        if preserve_danmaku && is_danmaku()(paths.last()) {
            earlier
        } else {
            earlier.push(paths.last())
        }
    }
}

/// The files of a part that are deleted, each once.
pub open spec fn deleted_files(segment: SegmentRow, preserve_danmaku: bool) -> Seq<Seq<char>> {
    without_preserved(distinct_paths(part_files(segment)), preserve_danmaku)
}

fn add_path(paths: &mut Vec<String>, path: &str, Ghost(added): Ghost<Seq<Seq<char>>>)
    requires
        texts(old(paths)@) == distinct_paths(added),
    ensures
        texts(final(paths)@) == distinct_paths(added.push(path@)),
{
    let ghost before = texts(paths@);
    assert(added.push(path@).drop_last() =~= added);
    let mut i: usize = 0;
    while i < paths.len()
        invariant
            i <= paths.len(),
            before == texts(paths@),
            before == distinct_paths(added),
            added.push(path@).drop_last() == added,
            forall|k: int| 0 <= k < i ==> !#[trigger] same_path(before[k], path@),
        decreases paths.len() - i,
    {
        assert(before[i as int] == paths@[i as int]@);
        if is_same_path(paths[i].as_str(), path) {
            assert(has_path(before, path@));
            return;
        }
        i = i + 1;
    }
    paths.push(path.to_owned());
    assert(texts(paths@) =~= before.push(path@));
}

/// The files of a verified part that are deleted, each once.
pub fn paths_to_delete(segment: &SegmentRow, preserve_danmaku: bool) -> (r: Vec<String>)
    ensures
        texts(r@) == deleted_files(*segment, preserve_danmaku),
{
    let ghost mut added: Seq<Seq<char>> = Seq::empty();
    let mut paths: Vec<String> = Vec::new();
    assert(texts(paths@) =~= Seq::empty());
    add_path(&mut paths, segment.file_path.as_str(), Ghost(added));
    proof {
        added = added.push(segment.file_path@);
    }
    if let Some(path) = &segment.processed_file_path {
        add_path(&mut paths, path.as_str(), Ghost(added));
        proof {
            added = added.push(path@);
        }
    }
    let upload = match &segment.processed_file_path {
        Some(path) => path.as_str(),
        None => segment.file_path.as_str(),
    };
    add_path(&mut paths, upload, Ghost(added));
    proof {
        added = added.push(upload@);
    }
    if let Some(path) = &segment.danmaku_file_path {
        add_path(&mut paths, path.as_str(), Ghost(added));
        proof {
            added = added.push(path@);
        }
    }
    assert(added =~= part_files(*segment));
    let ghost all = texts(paths@);
    let mut kept: Vec<String> = Vec::new();
    let mut i: usize = 0;
    assert(texts(kept@) =~= Seq::empty());
    assert(all.take(0) =~= Seq::empty());
    while i < paths.len()
        invariant
            i <= paths.len(),
            all == texts(paths@),
            texts(kept@) == without_preserved(all.take(i as int), preserve_danmaku),
        decreases paths.len() - i,
    {
        let ghost before = texts(kept@);
        proof {
            assert(all.take(i + 1).drop_last() =~= all.take(i as int));
            assert(all.take(i + 1).last() == paths@[i as int]@);
        }
        if !(preserve_danmaku && danmaku_file(paths[i].as_str())) {
            let path = paths[i].clone();
            kept.push(path);
            assert(texts(kept@) =~= before.push(path@));
        }
        i = i + 1;
    }
    assert(all.take(i as int) =~= all);
    kept
}

/// What is done with the local files of a verified part.
#[derive(Debug)]
pub enum CleanupPlan {
    /// They are kept, but for this one.
    Retain { remove: Option<String> },
    /// These are deleted.
    Delete { paths: Vec<String> },
}

/// True when a streamer has processing behind the upload that is more than removing the files.
pub open spec fn has_custom_steps(steps: Seq<HookStep>) -> bool {
    exists|i: int|
        0 <= i < steps.len() && !((#[trigger] steps[i]) matches HookStep::Remove(command)
            && command@ == "rm"@)
}

/// Whether a streamer has processing behind the upload that is more than removing the files.
pub fn custom_postprocessor(steps: &Vec<HookStep>) -> (r: bool)
    ensures
        r == has_custom_steps(steps@),
{
    let mut i: usize = 0;
    while i < steps.len()
        invariant
            i <= steps.len(),
            forall|k: int|
                0 <= k < i ==> ((#[trigger] steps@[k]) matches HookStep::Remove(command)
                    && command@ == "rm"@),
        decreases steps.len() - i,
    {
        let plain = match &steps[i] {
            HookStep::Remove(command) => same(command.as_str(), "rm"),
            _ => false,
        };
        if !plain {
            return true;
        }
        i = i + 1;
    }
    false
}

/// Whether `plan` is what becomes of the files of a part that the service has.
pub open spec fn is_cleanup(
    session: SessionRow,
    segment: SegmentRow,
    postprocessor: Seq<HookStep>,
    plan: CleanupPlan,
) -> bool {
    if !session.delete_after_success {
        plan matches CleanupPlan::Retain { remove } && opt_text(remove) == match
            segment.processed_file_path {
            Some(p) if !same_path(p@, segment.file_path@) => Some(segment.file_path@),
            _ => None,
        }
    } else if has_custom_steps(postprocessor) {
        plan matches CleanupPlan::Retain { remove } && remove is None
    } else {
        plan matches CleanupPlan::Delete { paths } && texts(paths@) == deleted_files(
            segment,
            session.preserve_danmaku,
        )
    }
}

/// Decides what is done with the local files of a verified part. Nothing is deleted unless the
/// session says so and the streamer has no processing of its own behind the upload; only a
/// recording that was replaced by an MP4 goes in any case.
pub fn cleanup_plan(
    session: &SessionRow,
    segment: &SegmentRow,
    postprocessor: &Vec<HookStep>,
) -> (r: CleanupPlan)
    ensures
        is_cleanup(*session, *segment, postprocessor@, r),
{
    if !session.delete_after_success {
        let remove = match &segment.processed_file_path {
            Some(path) => if is_same_path(path.as_str(), segment.file_path.as_str()) {
                None
            } else {
                Some(segment.file_path.clone())
            },
            None => None,
        };
        return CleanupPlan::Retain { remove };
    }
    if custom_postprocessor(postprocessor) {
        return CleanupPlan::Retain { remove: None };
    }
    CleanupPlan::Delete { paths: paths_to_delete(segment, session.preserve_danmaku) }
}

proof fn lemma_distinct_paths(paths: Seq<Seq<char>>)
    ensures
        forall|i: int|
            0 <= i < distinct_paths(paths).len() ==> paths.contains(
                #[trigger] distinct_paths(paths)[i],
            ),
        forall|i: int, j: int|
            0 <= i < j < distinct_paths(paths).len() ==> !#[trigger] same_path(
                distinct_paths(paths)[i],
                distinct_paths(paths)[j],
            ),
        forall|p: Seq<char>| #[trigger]
            paths.contains(p) ==> has_path(distinct_paths(paths), p),
    decreases paths.len(),
{
    if paths.len() > 0 {
        let rest = paths.drop_last();
        let last = paths.last();
        let earlier = distinct_paths(rest);
        let all = distinct_paths(paths);
        lemma_distinct_paths(rest);
        assert forall|i: int| 0 <= i < all.len() implies paths.contains(#[trigger] all[i]) by {
            if i < earlier.len() {
                assert(rest.contains(earlier[i]));
                let k = rest.index_of(earlier[i]);
                assert(paths[k] == all[i]);
            } else {
                assert(paths[paths.len() - 1] == all[i]);
            }
        }
        assert forall|i: int, j: int| 0 <= i < j < all.len() implies !#[trigger] same_path(
            all[i],
            all[j],
        ) by {
            if j < earlier.len() {
                assert(!same_path(earlier[i], earlier[j]));
            } else {
                assert(!has_path(earlier, last));
                assert(!same_path(earlier[i], last));
            }
        }
        assert forall|p: Seq<char>| #[trigger] paths.contains(p) implies has_path(all, p) by {
            let k = paths.index_of(p);
            if k < rest.len() {
                assert(rest[k] == p);
                assert(rest.contains(p));
                let i = choose|i: int| 0 <= i < earlier.len() && #[trigger] same_path(
                    earlier[i],
                    p,
                );
                assert(same_path(all[i], p));
            } else if has_path(earlier, last) {
                let i = choose|i: int| 0 <= i < earlier.len() && #[trigger] same_path(
                    earlier[i],
                    last,
                );
                assert(same_path(all[i], p));
            } else {
                assert(same_path(all[earlier.len() as int], p));
            }
        }
    }
}

proof fn lemma_without_preserved(paths: Seq<Seq<char>>, preserve_danmaku: bool)
    ensures
        forall|i: int|
            0 <= i < without_preserved(paths, preserve_danmaku).len() ==> {
                &&& paths.contains(#[trigger] without_preserved(paths, preserve_danmaku)[i])
                &&& !(preserve_danmaku && is_danmaku()(
                    without_preserved(paths, preserve_danmaku)[i],
                ))
            },
    decreases paths.len(),
{
    if paths.len() > 0 {
        let rest = paths.drop_last();
        let kept = without_preserved(paths, preserve_danmaku);
        lemma_without_preserved(rest, preserve_danmaku);
        assert forall|i: int| 0 <= i < kept.len() implies {
            &&& paths.contains(#[trigger] kept[i])
            &&& !(preserve_danmaku && is_danmaku()(kept[i]))
        } by {
            let earlier = without_preserved(rest, preserve_danmaku);
            if i < earlier.len() {
                assert(rest.contains(earlier[i]));
                let k = rest.index_of(earlier[i]);
                assert(paths[k] == kept[i]);
            } else {
                assert(paths[paths.len() - 1] == kept[i]);
            }
        }
    }
}

/// With danmaku preserved, no danmaku file is among the files that are deleted.
pub proof fn law_danmaku_preserved(segment: SegmentRow, path: Seq<char>)
    requires
        deleted_files(segment, true).contains(path),
    ensures
        extension_of(path) != Some("xml"@),
{
    let all = deleted_files(segment, true);
    lemma_without_preserved(distinct_paths(part_files(segment)), true);
    let k = all.index_of(path);
    assert(all[k] == path);
}

/// Only files of the part itself are deleted.
pub proof fn law_only_own_files_deleted(
    segment: SegmentRow,
    preserve_danmaku: bool,
    path: Seq<char>,
)
    requires
        deleted_files(segment, preserve_danmaku).contains(path),
    ensures
        path == segment.file_path@ || (segment.processed_file_path matches Some(p) && path == p@)
            || (segment.danmaku_file_path matches Some(p) && path == p@),
{
    let files = part_files(segment);
    let distinct = distinct_paths(files);
    let all = deleted_files(segment, preserve_danmaku);
    lemma_distinct_paths(files);
    lemma_without_preserved(distinct, preserve_danmaku);
    let k = all.index_of(path);
    assert(all[k] == path);
    let j = distinct.index_of(path);
    assert(distinct[j] == path);
    let i = files.index_of(path);
    assert(files[i] == path);
}

/// Where nothing is preserved, every file of the part is deleted, and none of them twice.
pub proof fn law_own_files_deleted_once(segment: SegmentRow)
    ensures
        forall|p: Seq<char>| #[trigger]
            part_files(segment).contains(p) ==> has_path(deleted_files(segment, false), p),
        forall|i: int, j: int|
            0 <= i < j < deleted_files(segment, false).len() ==> !#[trigger] same_path(
                deleted_files(segment, false)[i],
                deleted_files(segment, false)[j],
            ),
{
    let distinct = distinct_paths(part_files(segment));
    lemma_distinct_paths(part_files(segment));
    lemma_nothing_preserved(distinct);
}

proof fn lemma_nothing_preserved(paths: Seq<Seq<char>>)
    ensures
        without_preserved(paths, false) == paths,
    decreases paths.len(),
{
    if paths.len() > 0 {
        lemma_nothing_preserved(paths.drop_last());
        assert(paths.drop_last().push(paths.last()) =~= paths);
    } else {
        assert(paths =~= Seq::empty());
    }
}

/// The message for a file that could not be deleted.
pub fn delete_failed(path: &str, error: &str) -> (r: String)
    ensures
        r@ == "failed to delete verified file "@ + path@ + ": "@ + error@,
{
    let mut message = "failed to delete verified file ".to_owned();
    push_text(&mut message, path);
    push_text(&mut message, ": ");
    push_text(&mut message, error);
    message
}

/// Number of characters that the title of a part may have.
pub const PART_TITLE_CHARS: usize = 80;

/// The title of a part.
pub open spec fn part_title_of(segment: SegmentRow) -> Seq<char> {
    let stem = match stem_of(upload_path_of(segment)) {
        Some(s) => s,
        None => "直播回放"@,
    };
    prefix_of(
        "P"@ + decimal_int(segment.part_number as int) + " "@ + stem,
        PART_TITLE_CHARS as nat,
    )
}

/// The title of a part: its number, and the stem of the file that is uploaded.
pub fn part_title(segment: &SegmentRow) -> (r: String)
    ensures
        r@ == part_title_of(*segment),
{
    let path = match &segment.processed_file_path {
        Some(path) => path.as_str(),
        None => segment.file_path.as_str(),
    };
    let stem = match file_stem(path) {
        Some(stem) => stem,
        None => "直播回放".to_owned(),
    };
    let mut title = "P".to_owned();
    push_text(&mut title, decimal_i64(segment.part_number).as_str());
    push_text(&mut title, " ");
    push_text(&mut title, stem.as_str());
    take_chars(title.as_str(), PART_TITLE_CHARS)
}

/// The files of a part are kept unless the session says that they go, and where a step of the user's
/// own follows; else its own files are deleted. Of two files of a kept part the unprocessed one goes.
pub proof fn law_files_are_kept_as_asked(
    session: SessionRow,
    segment: SegmentRow,
    postprocessor: Seq<HookStep>,
    plan: CleanupPlan,
)
    requires
        is_cleanup(session, segment, postprocessor, plan),
    ensures
        !session.delete_after_success ==> plan is Retain,
        session.delete_after_success && !has_custom_steps(postprocessor) ==> plan is Delete,
        has_custom_steps(postprocessor) ==> plan is Retain,
        plan matches CleanupPlan::Retain { remove } ==> (remove matches Some(path) ==> path@
            == segment.file_path@ && (segment.processed_file_path matches Some(p) && !same_path(
            p@,
            path@,
        )) && upload_path_of(segment) != path@),
        plan matches CleanupPlan::Delete { paths } ==> (session.preserve_danmaku ==> forall|i: int|
            0 <= i < paths@.len() ==> extension_of((#[trigger] paths@[i])@) != Some("xml"@)),
        plan matches CleanupPlan::Delete { paths } ==> (!session.preserve_danmaku ==> has_path(
            texts(paths@),
            segment.file_path@,
        ) && has_path(texts(paths@), upload_path_of(segment)) && (
        segment.danmaku_file_path matches Some(d) ==> has_path(texts(paths@), d@))),
{
    law_own_files_deleted_once(segment);
    assert(part_files(segment)[0] == segment.file_path@);
    assert(part_files(segment).contains(segment.file_path@));
    let own = part_files(segment);
    let k: int = match segment.processed_file_path {
        Some(_) => 2,
        None => 1,
    };
    assert(own[k] == upload_path_of(segment));
    assert(own.contains(upload_path_of(segment)));
    if segment.danmaku_file_path is Some {
        assert(own[k + 1] == segment.danmaku_file_path->0@);
        assert(own.contains(segment.danmaku_file_path->0@));
    }
    if let CleanupPlan::Delete { paths } = plan {
        if session.preserve_danmaku {
            assert forall|i: int| 0 <= i < paths@.len() implies extension_of(
                (#[trigger] paths@[i])@,
            ) != Some("xml"@) by {
                assert(texts(paths@)[i] == paths@[i]@);
                assert(deleted_files(segment, true).contains(paths@[i]@));
                law_danmaku_preserved(segment, paths@[i]@);
            }
        }
    }
}

/// A part is uploaded from its processed file where there is one, with its danmaku file behind it.
pub proof fn law_uploaded_file(segment: SegmentRow)
    ensures
        segment.processed_file_path is None ==> upload_path_of(segment) == segment.file_path@,
        segment.processed_file_path matches Some(p) ==> upload_path_of(segment) == p@,
        prepared(segment)[0] == upload_path_of(segment),
        segment.danmaku_file_path is None ==> prepared(segment).len() == 1,
        segment.danmaku_file_path matches Some(p) ==> prepared(segment).len() == 2 && prepared(
            segment,
        )[1] == p@,
{
}

/// The files that are deleted are the files of the part: with a preserved danmaku all but those.
pub proof fn law_deleted_files(segment: SegmentRow, path: Seq<char>)
    requires
        deleted_files(segment, false).contains(path),
    ensures
        extension_of(path) != Some("xml"@) ==> deleted_files(segment, true).contains(path),
{
    let all = distinct_paths(part_files(segment));
    if extension_of(path) != Some("xml"@) {
        lemma_without_preserved_keeps(all, path);
    }
}

proof fn lemma_without_preserved_keeps(paths: Seq<Seq<char>>, path: Seq<char>)
    requires
        without_preserved(paths, false).contains(path),
        extension_of(path) != Some("xml"@),
    ensures
        without_preserved(paths, true).contains(path),
    decreases paths.len(),
{
    if paths.len() > 0 {
        let rest = paths.drop_last();
        let earlier = without_preserved(rest, false);
        let kept = without_preserved(rest, true);
        let k = without_preserved(paths, false).index_of(path);
        if k < earlier.len() {
            assert(earlier[k] == path);
            lemma_without_preserved_keeps(rest, path);
            assert(without_preserved(paths, true)[kept.index_of(path)] == path);
        } else {
            assert(paths.last() == path);
            assert(without_preserved(paths, true)[kept.len() as int] == path);
        }
    }
}

/// A file is remuxed from the source to the destination, without being encoded again.
pub proof fn law_remux_arguments(source: Seq<char>, destination: Seq<char>)
    ensures
        ({
            let a = remux_arguments(source, destination);
            &&& a[4] == "-i"@ && a[5] == source
            &&& a.last() == destination
            &&& a[10] == "-c"@ && a[11] == "copy"@
            &&& a.len() == 17 || a.len() == 19
            &&& a.len() == 19 <==> is_transport_stream(source)
        }),
        is_transport_stream(source) <==> has_extension(source, "ts"@) || has_extension(
            source,
            "m2ts"@,
        ),
{
    reveal_strlit("ts");
    reveal_strlit("m2ts");
    assert(lowered("ts"@) =~= "ts"@);
    assert(lowered("m2ts"@) =~= "m2ts"@);
}

/// A step of the preparation moves every file into its directory under its own name, in order, or
/// leaves them; steps that could harm a repetition are refused.
pub proof fn law_preparation_steps(paths: Seq<String>, step: HookStep, plan: HookPlan)
    requires
        is_hook_plan(paths, step, plan),
    ensures
        step is Run || step is Remove ==> plan.outcome is Err && plan.moves@.len() == 0,
        plan.directory is Some <==> step is Move,
        step matches HookStep::Move { mv } ==> (plan.directory matches Some(d) && d@ == mv@),
        step is Remux ==> (plan.outcome matches Ok(next) && texts(next@) == texts(paths))
            && plan.moves@.len() == 0,
        step is Move && (forall|i: int|
            0 <= i < paths.len() ==> file_name_of((#[trigger] paths[i])@) is Some) ==> {
            &&& plan.outcome is Ok
            &&& plan.moves@.len() == paths.len()
        },
        step matches HookStep::Move { mv } ==> forall|i: int|
            0 <= i < plan.moves@.len() ==> (#[trigger] plan.moves@[i]).source@ == paths[i]@ && (
            file_name_of(paths[i]@) matches Some(name) && plan.moves@[i].destination@ == path_in(
                mv@,
                name,
            )),
        step is Move && (exists|i: int|
            0 <= i < paths.len() && file_name_of((#[trigger] paths[i])@) is None)
            ==> plan.outcome is Err,
{
    let all = texts(paths);
    lemma_first_index_found(all, is_unnamed());
    assert(forall|i: int| 0 <= i < paths.len() ==> #[trigger] all[i] == paths[i]@);
    let k = first_index(all, is_unnamed());
    if k < all.len() {
        assert(file_name_of(paths[k]@) is None);
    }
    if step is Move {
        assert forall|i: int| 0 <= i < k implies file_name_of((#[trigger] paths[i])@) is Some by {
            assert(!is_unnamed()(all[i]));
        }
    }
}

/// The title of a part begins with its number, names its file and is short enough for the service.
pub proof fn law_part_title_of(segment: SegmentRow)
    ensures
        part_title_of(segment).len() <= 80,
        ({
            let head = "P"@ + decimal_int(segment.part_number as int) + " "@;
            head.len() <= 80 ==> head.is_prefix_of(part_title_of(segment))
        }),
        stem_of(upload_path_of(segment)) matches Some(stem) ==> ("P"@ + decimal_int(
            segment.part_number as int,
        ) + " "@ + stem).len() <= 80 ==> part_title_of(segment) == "P"@ + decimal_int(
            segment.part_number as int,
        ) + " "@ + stem,
{
    let head = "P"@ + decimal_int(segment.part_number as int) + " "@;
    if head.len() <= 80 {
        assert(part_title_of(segment).take(head.len() as int) =~= head);
    }
}

} // verus!
