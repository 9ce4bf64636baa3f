//! The lines over which files are uploaded, and how fast uploads may be: recordings come first, and
//! an upload slows down when a recording falls behind.

use crate::json::{
    json_has_member, json_member_given, json_member_number, json_member_text, json_string_member,
    json_u64_member,
};
use crate::lists::{first_index, lemma_first_index, lemma_first_index_found};
use crate::paths::{file_stem, stem_of};
use crate::text::{concat, decimal, decimal_u64, occurs_at, opt_text, prefix_of, same, take_chars};
use vstd::prelude::*;

verus! {

/// The kinds of storage that there are.
#[derive(Clone, Copy, Debug, PartialEq, Eq, Structural)]
pub enum Uploader {
    Upos,
}

/// A line over which files are uploaded.
#[derive(Debug)]
pub struct Line {
    pub os: Uploader,
    /// The address that shows how fast the line is, without the scheme.
    pub probe_url: String,
    /// What selects the line in a request.
    pub query: String,
    /// How long the line took to answer, in milliseconds.
    pub cost: u128,
}

/// A line with this query, this address and this cost.
pub open spec fn is_line(line: Line, query: Seq<char>, probe_url: Seq<char>, cost: u128) -> bool {
    &&& line.os == Uploader::Upos
    &&& line.query@ == query
    &&& line.probe_url@ == probe_url
    &&& line.cost == cost
}

fn line(query: &str, probe_url: &str) -> (r: Line)
    ensures
        is_line(r, query@, probe_url@, 0),
{
    Line {
        os: Uploader::Upos,
        probe_url: probe_url.to_owned(),
        query: query.to_owned(),
        cost: 0,
    }
}

/// The line `bldsa`.
pub fn bldsa() -> (r: Line)
    ensures
        is_line(
            r,
            "zone=cs&upcdn=bldsa&probe_version=20221109"@,
            "//upos-cs-upcdnbldsa.bilivideo.com/OK"@,
            0,
        ),
{
    line("zone=cs&upcdn=bldsa&probe_version=20221109", "//upos-cs-upcdnbldsa.bilivideo.com/OK")
}

/// The line `cnbldsa`.
pub fn cnbldsa() -> (r: Line)
    ensures
        is_line(
            r,
            "zone=cs&upcdn=cnbldsa&probe_version=20221109"@,
            "//upos-cs-upcdnbldsa.bilivideo.cn/OK"@,
            0,
        ),
{
    line("zone=cs&upcdn=cnbldsa&probe_version=20221109", "//upos-cs-upcdnbldsa.bilivideo.cn/OK")
}

/// The line `andsa`.
pub fn andsa() -> (r: Line)
    ensures
        is_line(
            r,
            "zone=cs&upcdn=andsa&probe_version=20221109"@,
            "//c3350892csdsa.anitama.cn/OK"@,
            0,
        ),
{
    line("zone=cs&upcdn=andsa&probe_version=20221109", "//c3350892csdsa.anitama.cn/OK")
}

/// The line `atdsa`.
pub fn atdsa() -> (r: Line)
    ensures
        is_line(
            r,
            "zone=cs&upcdn=atdsa&probe_version=20221109"@,
            "//c3350892csdsa.anitama.net/OK"@,
            0,
        ),
{
    line("zone=cs&upcdn=atdsa&probe_version=20221109", "//c3350892csdsa.anitama.net/OK")
}

/// The line `bda2`.
pub fn bda2() -> (r: Line)
    ensures
        is_line(
            r,
            "probe_version=20221109&upcdn=bda2&zone=cs"@,
            "//upos-cs-upcdnbda2.bilivideo.com/OK"@,
            0,
        ),
{
    line("probe_version=20221109&upcdn=bda2&zone=cs", "//upos-cs-upcdnbda2.bilivideo.com/OK")
}

/// The line `cnbd`.
pub fn cnbd() -> (r: Line)
    ensures
        is_line(
            r,
            "probe_version=20221109&upcdn=cnbd&zone=cs"@,
            "//upos-cs-upcdnbd.bilivideo.cn/OK"@,
            0,
        ),
{
    line("probe_version=20221109&upcdn=cnbd&zone=cs", "//upos-cs-upcdnbd.bilivideo.cn/OK")
}

/// The line `anbd`.
pub fn anbd() -> (r: Line)
    ensures
        is_line(
            r,
            "probe_version=20221109&upcdn=anbd&zone=cs"@,
            "//c3350892csbd.anitama.cn/OK"@,
            0,
        ),
{
    line("probe_version=20221109&upcdn=anbd&zone=cs", "//c3350892csbd.anitama.cn/OK")
}

/// The line `atbd`.
pub fn atbd() -> (r: Line)
    ensures
        is_line(
            r,
            "probe_version=20221109&upcdn=atbd&zone=cs"@,
            "//c3350892csbd.anitama.net/OK"@,
            0,
        ),
{
    line("probe_version=20221109&upcdn=atbd&zone=cs", "//c3350892csbd.anitama.net/OK")
}

/// The line `tx`.
pub fn tx() -> (r: Line)
    ensures
        is_line(
            r,
            "zone=cs&upcdn=tx&probe_version=20221109"@,
            "//upos-cs-upcdntx.bilivideo.com/OK"@,
            0,
        ),
{
    line("zone=cs&upcdn=tx&probe_version=20221109", "//upos-cs-upcdntx.bilivideo.com/OK")
}

/// The line `cntx`.
pub fn cntx() -> (r: Line)
    ensures
        is_line(
            r,
            "zone=cs&upcdn=cntx&probe_version=20221109"@,
            "//upos-cs-upcdntx.bilivideo.com/OK"@,
            0,
        ),
{
    line("zone=cs&upcdn=cntx&probe_version=20221109", "//upos-cs-upcdntx.bilivideo.com/OK")
}

/// The line `antx`.
pub fn antx() -> (r: Line)
    ensures
        is_line(
            r,
            "zone=cs&upcdn=antx&probe_version=20221109"@,
            "//c3350892cstx.anitama.cn/OK"@,
            0,
        ),
{
    line("zone=cs&upcdn=antx&probe_version=20221109", "//c3350892cstx.anitama.cn/OK")
}

/// The line `attx`.
pub fn attx() -> (r: Line)
    ensures
        is_line(
            r,
            "zone=cs&upcdn=attx&probe_version=20221109"@,
            "//c3350892cstx.anitama.net/OK"@,
            0,
        ),
{
    line("zone=cs&upcdn=attx&probe_version=20221109", "//c3350892cstx.anitama.net/OK")
}

/// The line `bda`.
pub fn bda() -> (r: Line)
    ensures
        is_line(
            r,
            "zone=cs&upcdn=bda&probe_version=20221109"@,
            "//upos-cs-upcdnbda.bilivideo.com/OK"@,
            0,
        ),
{
    line("zone=cs&upcdn=bda&probe_version=20221109", "//upos-cs-upcdnbda.bilivideo.com/OK")
}

/// The line `txa`.
pub fn txa() -> (r: Line)
    ensures
        is_line(
            r,
            "zone=cs&upcdn=txa&probe_version=20221109"@,
            "//upos-cs-upcdntxa.bilivideo.com/OK"@,
            0,
        ),
{
    line("zone=cs&upcdn=txa&probe_version=20221109", "//upos-cs-upcdntxa.bilivideo.com/OK")
}

/// The line `alia`.
pub fn alia() -> (r: Line)
    ensures
        is_line(
            r,
            "zone=cs&upcdn=alia&probe_version=20221109"@,
            "//upos-cs-upcdnalia.bilivideo.com/OK"@,
            0,
        ),
{
    line("zone=cs&upcdn=alia&probe_version=20221109", "//upos-cs-upcdnalia.bilivideo.com/OK")
}

impl Default for Line {
    fn default() -> (r: Self)
        ensures
            is_line(
                r,
                "zone=cs&upcdn=bldsa&probe_version=20221109"@,
                "//upos-cs-upcdnbldsa.bilivideo.com/OK"@,
                u128::MAX,
            ),
    {
        let mut line = bldsa();
        line.cost = u128::MAX;
        line
    }
}

/// The query and the probe address of the line with a name.
pub open spec fn line_named(selected: Seq<char>) -> Option<(Seq<char>, Seq<char>)> {
    if selected == "bda2"@ {
        Some(
            (
                "probe_version=20221109&upcdn=bda2&zone=cs"@,
                "//upos-cs-upcdnbda2.bilivideo.com/OK"@,
            ),
        )
    } else if selected == "bda"@ {
        Some(
            (
                "zone=cs&upcdn=bda&probe_version=20221109"@,
                "//upos-cs-upcdnbda.bilivideo.com/OK"@,
            ),
        )
    } else if selected == "tx"@ {
        Some(("zone=cs&upcdn=tx&probe_version=20221109"@, "//upos-cs-upcdntx.bilivideo.com/OK"@))
    } else if selected == "txa"@ {
        Some(
            (
                "zone=cs&upcdn=txa&probe_version=20221109"@,
                "//upos-cs-upcdntxa.bilivideo.com/OK"@,
            ),
        )
    } else if selected == "bldsa"@ {
        Some(
            (
                "zone=cs&upcdn=bldsa&probe_version=20221109"@,
                "//upos-cs-upcdnbldsa.bilivideo.com/OK"@,
            ),
        )
    } else if selected == "alia"@ {
        Some(
            (
                "zone=cs&upcdn=alia&probe_version=20221109"@,
                "//upos-cs-upcdnalia.bilivideo.com/OK"@,
            ),
        )
    } else {
        None
    }
}

/// The line that a configuration names; nothing where the fastest one is to be found out.
pub fn get_upload_line(selected: &str) -> (r: Option<Line>)
    ensures
        match line_named(selected@) {
            Some((query, probe_url)) => r matches Some(l) && is_line(l, query, probe_url, 0),
            None => r is None,
        },
{
    if same(selected, "bda2") {
        Some(bda2())
    } else if same(selected, "bda") {
        Some(bda())
    } else if same(selected, "tx") {
        Some(tx())
    } else if same(selected, "txa") {
        Some(txa())
    } else if same(selected, "bldsa") {
        Some(bldsa())
    } else if same(selected, "alia") {
        Some(alia())
    } else {
        None
    }
}

/// The address that shows how fast a line is.
pub fn probe_address(line: &Line) -> (r: String)
    ensures
        r@ == "https:"@ + line.probe_url@,
{
    concat("https:", line.probe_url.as_str())
}

/// How a line is tried out.
#[derive(Clone, Copy, Debug, PartialEq, Eq, Structural)]
pub enum Ping {
    /// By asking for its address.
    Get,
    /// By sending so many bytes to its address.
    Post { bytes: usize },
}

/// Bytes that are sent to a line to try it out.
pub const PING_BYTES: usize = 10_485_760;

/// How the lines are tried out; `probe` is what the service says of it, as JSON.
pub fn ping(probe: &str) -> (r: Ping)
    ensures
        r == if json_member_given(probe@, "get"@) {
            Ping::Get
        } else {
            Ping::Post { bytes: PING_BYTES }
        },
{
    if json_has_member(probe, "get") {
        Ping::Get
    } else {
        Ping::Post { bytes: PING_BYTES }
    }
}

/// A line that was tried: `cost` tells how long it took to answer, in milliseconds, where it did.
#[derive(Debug)]
pub struct ProbedLine {
    pub line: Line,
    pub cost: Option<u128>,
}

/// The first of the fastest lines among those tried, if one answered in less than `bound`
/// milliseconds: its place, counted from zero.
pub open spec fn fastest(probed: Seq<ProbedLine>, bound: int) -> Option<int>
    decreases probed.len(),
{
    if probed.len() == 0 {
        None
    } else {
        let before = fastest(probed.drop_last(), bound);
        match probed.last().cost {
            Some(cost) => {
                let best = match before {
                    Some(k) => probed[k].cost->Some_0 as int,
                    None => bound,
                };
                if cost < best {
                    Some(probed.len() - 1)
                } else {
                    before
                }
            },
            None => before,
        }
    }
}

/// Chooses the line that answered fastest, the first of several; where none answered, the default
/// one.
pub fn choose_line(probed: Vec<ProbedLine>) -> (r: Line)
    ensures
        match fastest(probed@, u128::MAX as int) {
            Some(k) => 0 <= k < probed@.len() && r == (Line {
                cost: probed@[k].cost->Some_0,
                ..probed@[k].line
            }),
            None => is_line(
                r,
                "zone=cs&upcdn=bldsa&probe_version=20221109"@,
                "//upos-cs-upcdnbldsa.bilivideo.com/OK"@,
                u128::MAX,
            ),
        },
{
    let ghost all = probed@;
    let mut left = probed;
    let mut choice = Line::default();
    let ghost mut seen: int = 0;
    while left.len() > 0
        invariant
            0 <= seen <= all.len(),
            left@ == all.skip(seen),
            match fastest(all.take(seen), u128::MAX as int) {
                Some(k) => 0 <= k < seen && all[k].cost is Some && choice == (Line {
                    cost: all[k].cost->Some_0,
                    ..all[k].line
                }),
                None => is_line(
                    choice,
                    "zone=cs&upcdn=bldsa&probe_version=20221109"@,
                    "//upos-cs-upcdnbldsa.bilivideo.com/OK"@,
                    u128::MAX,
                ),
            },
        decreases left.len(),
    {
        proof {
            assert(all.take(seen + 1).drop_last() =~= all.take(seen));
            assert(all.take(seen + 1).last() == all[seen]);
        }
        let next = left.remove(0);
        assert(next == all[seen]);
        assert(left@ =~= all.skip(seen + 1));
        if let Some(cost) = next.cost {
            if choice.cost > cost {
                choice = Line {
                    os: next.line.os,
                    probe_url: next.line.probe_url,
                    query: next.line.query,
                    cost,
                };
            }
        }
        proof {
            seen = seen + 1;
        }
    }
    assert(all.take(seen) =~= all);
    choice
}

proof fn lemma_fastest(probed: Seq<ProbedLine>, bound: int)
    ensures
        match fastest(probed, bound) {
            Some(k) => {
                &&& 0 <= k < probed.len()
                &&& probed[k].cost matches Some(cost) && cost < bound
                &&& forall|i: int|
                    0 <= i < probed.len() ==> ((#[trigger] probed[i]).cost matches Some(c)
                        ==> probed[k].cost->Some_0 <= c)
                &&& forall|i: int|
                    0 <= i < k ==> ((#[trigger] probed[i]).cost matches Some(c)
                        ==> probed[k].cost->Some_0 < c)
            },
            None => forall|i: int|
                0 <= i < probed.len() ==> ((#[trigger] probed[i]).cost matches Some(c)
                    ==> c >= bound),
        },
    decreases probed.len(),
{
    if probed.len() > 0 {
        let rest = probed.drop_last();
        lemma_fastest(rest, bound);
        assert forall|i: int| 0 <= i < rest.len() implies #[trigger] probed[i] == rest[i] by {}
    }
}

/// No line that was tried answered faster than the chosen one, and none before it as fast.
pub proof fn law_fastest_line_chosen(probed: Seq<ProbedLine>, k: int, i: int)
    requires
        fastest(probed, u128::MAX as int) == Some(k),
        0 <= i < probed.len(),
        probed[i].cost is Some,
    ensures
        probed[k].cost->Some_0 <= probed[i].cost->Some_0,
        i < k ==> probed[k].cost->Some_0 < probed[i].cost->Some_0,
{
    lemma_fastest(probed, u128::MAX as int);
    assert(probed[i].cost matches Some(c) ==> probed[k].cost->Some_0 <= c);
}

/// A file that is to be uploaded.
#[derive(Debug)]
pub struct VideoFile {
    pub file_name: String,
    pub filepath: String,
    pub total_size: u64,
}

/// A file with the place that it was given on a line.
#[derive(Debug)]
pub struct Parcel {
    /// The place, as the service describes it.
    pub bucket: String,
    pub video_file: VideoFile,
}

impl Parcel {
    /// The title of the uploaded file: its own, or the stem of the file, at most eighty characters
    /// of it.
    pub fn title(&self, title: Option<String>) -> (r: Option<String>)
        ensures
            opt_text(r) == match title {
                Some(t) => Some(t@),
                None => match stem_of(self.video_file.filepath@) {
                    Some(stem) => Some(prefix_of(stem, 80)),
                    None => None,
                },
            },
    {
        match title {
            Some(title) => Some(title),
            None => match file_stem(self.video_file.filepath.as_str()) {
                Some(stem) => Some(take_chars(stem.as_str(), 80)),
                None => None,
            },
        }
    }
}

/// A name with its value.
#[derive(Debug)]
pub struct QueryItem {
    pub name: &'static str,
    pub value: String,
}

impl Line {
    /// What is asked of the service before a file is uploaded over a line.
    pub fn pre_upload_query(&self, video_file: &VideoFile) -> (r: Vec<QueryItem>)
        ensures
            r@.len() == 7,
            r@[0].name@ == "name"@ && r@[0].value@ == video_file.file_name@,
            r@[1].name@ == "r"@ && r@[1].value@ == "upos"@,
            r@[2].name@ == "profile"@ && r@[2].value@ == "ugcupos/bup"@,
            r@[3].name@ == "ssl"@ && r@[3].value@ == "0"@,
            r@[4].name@ == "version"@ && r@[4].value@ == "2.14.0"@,
            r@[5].name@ == "build"@ && r@[5].value@ == "2140000"@,
            r@[6].name@ == "size"@ && r@[6].value@ == decimal(video_file.total_size as nat),
    {
        let os = match self.os {
            Uploader::Upos => "upos",
        };
        let mut items: Vec<QueryItem> = Vec::new();
        items.push(QueryItem { name: "name", value: video_file.file_name.clone() });
        items.push(QueryItem { name: "r", value: os.to_owned() });
        items.push(QueryItem { name: "profile", value: "ugcupos/bup".to_owned() });
        items.push(QueryItem { name: "ssl", value: "0".to_owned() });
        items.push(QueryItem { name: "version", value: "2.14.0".to_owned() });
        items.push(QueryItem { name: "build", value: "2140000".to_owned() });
        items.push(QueryItem { name: "size", value: decimal_u64(video_file.total_size) });
        items
    }

    /// The address that is asked before a file is uploaded over a line.
    pub fn pre_upload_address(&self) -> (r: String)
        ensures
            r@ == "https://member.bilibili.com/preupload?"@ + self.query@,
    {
        concat("https://member.bilibili.com/preupload?", self.query.as_str())
    }
}

/// Why a file was not given a place on a line.
#[derive(Debug)]
pub enum PreUploadFailure {
    /// Too much has been uploaded in too short a time.
    RateLimit { code: i64, message: String },
    /// Something else.
    Other(String),
}

/// Number that the service gives an answer that refuses an upload as too soon.
pub const RATE_LIMIT_CODE: u64 = 601;

/// Tells what an answer means that refuses a file a place. `code` and `message` are what the
/// answer holds under these names, `text` the whole of it.
pub fn pre_upload_failure_of(code: Option<u64>, message: Option<String>, text: &str) -> (r:
    PreUploadFailure)
    ensures
        if code == Some(RATE_LIMIT_CODE) {
            r matches PreUploadFailure::RateLimit { code, message: m } && code == 601 && m@ == match
                message {
                Some(given) => given@,
                None => "上传过快"@,
            }
        } else {
            r matches PreUploadFailure::Other(m) && m@ == "Failed to pre_upload from "@ + text@
        },
{
    if let Some(code) = code {
        if code == RATE_LIMIT_CODE {
            let message = match message {
                Some(message) => message,
                None => "上传过快".to_owned(),
            };
            return PreUploadFailure::RateLimit { code: 601, message };
        }
    }
    PreUploadFailure::Other(concat("Failed to pre_upload from ", text))
}

/// Tells what an answer means that refuses a file a place.
pub fn pre_upload_failure(text: &str) -> (r: PreUploadFailure)
    ensures
        if json_member_number(text@, "code"@) == Some(RATE_LIMIT_CODE) {
            r matches PreUploadFailure::RateLimit { code, message } && code == 601 && message@
                == match json_member_text(text@, "message"@) {
                Some(given) => given,
                None => "上传过快"@,
            }
        } else {
            r matches PreUploadFailure::Other(m) && m@ == "Failed to pre_upload from "@ + text@
        },
{
    pre_upload_failure_of(json_u64_member(text, "code"), json_string_member(text, "message"), text)
}

/// Number of recordings that run.
#[derive(Clone, Copy, Debug, PartialEq, Eq, Structural)]
pub struct ActiveRecordings {
    pub count: usize,
}

/// Notes that a recording has begun.
pub fn recording_started(active: &mut ActiveRecordings)
    requires
        old(active).count < usize::MAX,
    ensures
        final(active).count == old(active).count + 1,
{
    active.count = active.count + 1;
}

/// Notes that a recording has ended.
pub fn recording_finished(active: &mut ActiveRecordings)
    ensures
        final(active).count == if old(active).count == 0 {
            0
        } else {
            old(active).count - 1
        },
{
    if active.count > 0 {
        active.count = active.count - 1;
    }
}

/// Whether a recording runs.
pub fn is_recording_active(active: &ActiveRecordings) -> (r: bool)
    ensures
        r == (active.count > 0),
{
    active.count > 0
}

/// How a recorded stream fares.
#[derive(Clone, Copy, Debug, PartialEq, Eq, Structural)]
pub struct DownloadHealth {
    /// The stream.
    pub id: u64,
    /// When it last fell behind, in milliseconds since the Unix epoch, or zero.
    pub last_pressure_ms: u64,
}

/// The recorded streams.
#[derive(Debug)]
pub struct DownloadHealthRegistry {
    pub next_id: u64,
    pub streams: Vec<DownloadHealth>,
}

/// The predicate of being the stream `id`.
pub open spec fn is_stream(id: u64) -> spec_fn(DownloadHealth) -> bool {
    |h: DownloadHealth| h.id == id
}

impl DownloadHealthRegistry {
    /// No two streams have the same number, and all numbers have been given out.
    pub open spec fn wf(self) -> bool {
        &&& forall|i: int, j: int|
            0 <= i < j < self.streams@.len() ==> (#[trigger] self.streams@[i]).id != (
            #[trigger] self.streams@[j]).id
        &&& forall|i: int|
            0 <= i < self.streams@.len() ==> (#[trigger] self.streams@[i]).id < self.next_id
    }

    /// No stream is recorded.
    pub fn new() -> (r: Self)
        ensures
            r.wf(),
            r.next_id == 1,
            r.streams@.len() == 0,
    {
        DownloadHealthRegistry { next_id: 1, streams: Vec::new() }
    }
}

/// A recorded stream. Each has its own state: that others fare well does not change it.
#[derive(Debug)]
pub struct DownloadPressureGuard {
    pub id: u64,
}

/// The streams after one fell behind at `now_ms`.
pub open spec fn with_pressure(streams: Seq<DownloadHealth>, id: u64, now_ms: u64) -> Seq<
    DownloadHealth,
> {
    let k = first_index(streams, is_stream(id));
    if k < streams.len() {
        streams.update(k, DownloadHealth { id, last_pressure_ms: now_ms })
    } else {
        streams
    }
}

fn find_stream(streams: &Vec<DownloadHealth>, id: u64) -> (r: usize)
    ensures
        r == first_index(streams@, is_stream(id)),
        r <= streams@.len(),
        r < streams@.len() ==> streams@[r as int].id == id,
{
    let mut i: usize = 0;
    while i < streams.len() && streams[i].id != id
        invariant
            i <= streams.len(),
            forall|k: int| 0 <= k < i ==> !is_stream(id)(#[trigger] streams@[k]),
        decreases streams.len() - i,
    {
        i = i + 1;
    }
    proof {
        lemma_first_index(streams@, is_stream(id), i as int);
    }
    i
}

impl DownloadPressureGuard {
    /// Takes note of a stream that is going to be recorded.
    pub fn new(registry: &mut DownloadHealthRegistry) -> (r: Self)
        requires
            old(registry).wf(),
            old(registry).next_id < u64::MAX,
        ensures
            final(registry).wf(),
            r.id == old(registry).next_id,
            final(registry).next_id == old(registry).next_id + 1,
            final(registry).streams@ == old(registry).streams@.push(
                DownloadHealth { id: r.id, last_pressure_ms: 0 },
            ),
    {
        let id: u64 = registry.next_id;
        registry.next_id = id + 1;
        registry.streams.push(DownloadHealth { id, last_pressure_ms: 0 });
        DownloadPressureGuard { id }
    }

    /// Notes that `bytes` bytes of the stream came in; none at all is a sign that it falls behind.
    pub fn report_progress(
        &self,
        registry: &mut DownloadHealthRegistry,
        bytes: usize,
        now_ms: u64,
    )
        requires
            old(registry).wf(),
        ensures
            final(registry).wf(),
            final(registry).next_id == old(registry).next_id,
            final(registry).streams@ == if bytes == 0 {
                with_pressure(old(registry).streams@, self.id, now_ms)
            } else {
                old(registry).streams@
            },
    {
        if bytes == 0 {
            self.report_pressure(registry, now_ms);
        }
    }

    /// Notes that the stream fell behind at `now_ms`.
    pub fn report_pressure(&self, registry: &mut DownloadHealthRegistry, now_ms: u64)
        requires
            old(registry).wf(),
        ensures
            final(registry).wf(),
            final(registry).next_id == old(registry).next_id,
            final(registry).streams@ == with_pressure(old(registry).streams@, self.id, now_ms),
    {
        let k: usize = find_stream(&registry.streams, self.id);
        if k < registry.streams.len() {
            registry.streams.set(k, DownloadHealth { id: self.id, last_pressure_ms: now_ms });
        }
    }

    /// Notes that the stream is no longer recorded.
    pub fn release(self, registry: &mut DownloadHealthRegistry)
        requires
            old(registry).wf(),
        ensures
            final(registry).wf(),
            final(registry).next_id == old(registry).next_id,
            ({
                let k = first_index(old(registry).streams@, is_stream(self.id));
                final(registry).streams@ == if k < old(registry).streams@.len() {
                    old(registry).streams@.remove(k)
                } else {
                    old(registry).streams@
                }
            }),
    {
        let k: usize = find_stream(&registry.streams, self.id);
        if k < registry.streams.len() {
            registry.streams.remove(k);
        }
    }
}

/// The limit of uploads, in Mbit/s, so many milliseconds after a recording fell behind.
pub open spec fn pressure_limit(age_ms: int) -> Option<u64> {
    if age_ms < 15_000 {
        Some(5)
    } else if age_ms < 30_000 {
        Some(10)
    } else if age_ms < 60_000 {
        Some(25)
    } else if age_ms < 120_000 {
        Some(50)
    } else {
        None
    }
}

/// The limit of uploads, in Mbit/s, so many milliseconds after a recording fell behind.
pub fn pressure_limit_for_age_ms(age_ms: u64) -> (r: Option<u64>)
    ensures
        r == pressure_limit(age_ms as int),
{
    if age_ms < 15_000 {
        Some(5)
    } else if age_ms < 30_000 {
        Some(10)
    } else if age_ms < 60_000 {
        Some(25)
    } else if age_ms < 120_000 {
        Some(50)
    } else {
        None
    }
}

/// When a stream last fell behind, or zero.
pub open spec fn latest_pressure(streams: Seq<DownloadHealth>) -> u64
    decreases streams.len(),
{
    if streams.len() == 0 {
        0
    } else {
        let rest = latest_pressure(streams.drop_last());
        if streams.last().last_pressure_ms > rest {
            streams.last().last_pressure_ms
        } else {
            rest
        }
    }
}

/// The limit of uploads, in Mbit/s, while streams are recorded that fared so.
pub open spec fn current_limit(streams: Seq<DownloadHealth>, now_ms: u64) -> Option<u64> {
    let latest = latest_pressure(streams);
    if latest == 0 {
        None
    } else if latest >= now_ms {
        pressure_limit(0)
    } else {
        pressure_limit(now_ms - latest)
    }
}

/// The limit of uploads, in Mbit/s, that a stream which fell behind calls for at `now_ms`.
pub fn current_pressure_limit_mbps(registry: &DownloadHealthRegistry, now_ms: u64) -> (r: Option<
    u64,
>)
    ensures
        r == current_limit(registry.streams@, now_ms),
{
    let mut latest: u64 = 0;
    let mut i: usize = 0;
    while i < registry.streams.len()
        invariant
            i <= registry.streams.len(),
            latest == latest_pressure(registry.streams@.take(i as int)),
        decreases registry.streams.len() - i,
    {
        proof {
            assert(registry.streams@.take(i + 1).drop_last() =~= registry.streams@.take(i as int));
        }
        if registry.streams[i].last_pressure_ms > latest {
            latest = registry.streams[i].last_pressure_ms;
        }
        i = i + 1;
    }
    assert(registry.streams@.take(i as int) =~= registry.streams@);
    if latest == 0 {
        return None;
    }
    pressure_limit_for_age_ms(now_ms.saturating_sub(latest))
}

proof fn lemma_latest_pressure(streams: Seq<DownloadHealth>, i: int)
    requires
        0 <= i < streams.len(),
    ensures
        latest_pressure(streams) >= streams[i].last_pressure_ms,
    decreases streams.len(),
{
    if i < streams.len() - 1 {
        lemma_latest_pressure(streams.drop_last(), i);
    }
}

/// As soon as a recording falls behind, uploads are limited to five Mbit/s, whatever the other
/// recordings do.
pub proof fn law_pressure_slows_uploads_at_once(
    registry: DownloadHealthRegistry,
    id: u64,
    now_ms: u64,
)
    requires
        registry.wf(),
        now_ms > 0,
        first_index(registry.streams@, is_stream(id)) < registry.streams@.len(),
    ensures
        current_limit(with_pressure(registry.streams@, id, now_ms), now_ms) == Some(5u64),
{
    let k = first_index(registry.streams@, is_stream(id));
    lemma_first_index_found(registry.streams@, is_stream(id));
    let after = with_pressure(registry.streams@, id, now_ms);
    lemma_latest_pressure(after, k);
}

/// The limit that a recording which fell behind calls for never falls as time goes on.
pub proof fn law_recovery_is_gradual(streams: Seq<DownloadHealth>, earlier: u64, later: u64)
    requires
        earlier <= later,
    ensures
        match (current_limit(streams, earlier), current_limit(streams, later)) {
            (Some(a), Some(b)) => a <= b,
            (Some(_), None) => true,
            (None, Some(_)) => false,
            (None, None) => true,
        },
{
}

/// Where the limit of uploads is configured, and what it is where it is not.
#[derive(Clone, Copy, Debug, PartialEq, Eq, Structural)]
pub struct RateSetting {
    /// The environment variable.
    pub key: RateKey,
    /// The limit in Mbit/s; zero stands for none.
    pub default_mbps: u64,
}

/// The environment variables that limit uploads.
#[derive(Clone, Copy, Debug, PartialEq, Eq, Structural)]
pub enum RateKey {
    /// While a recording falls behind.
    Pressure,
    /// While a recording runs.
    Recording,
    /// While none runs.
    Idle,
}

impl RateKey {
    /// The name of the variable.
    pub fn name(self) -> (r: &'static str)
        ensures
            r@ == match self {
                RateKey::Pressure => "LIVE_REPLAY_PRESSURE_UPLOAD_LIMIT_MBPS"@,
                RateKey::Recording => "LIVE_REPLAY_RECORDING_UPLOAD_LIMIT_MBPS"@,
                RateKey::Idle => "LIVE_REPLAY_UPLOAD_LIMIT_MBPS"@,
            },
    {
        match self {
            RateKey::Pressure => "LIVE_REPLAY_PRESSURE_UPLOAD_LIMIT_MBPS",
            RateKey::Recording => "LIVE_REPLAY_RECORDING_UPLOAD_LIMIT_MBPS",
            RateKey::Idle => "LIVE_REPLAY_UPLOAD_LIMIT_MBPS",
        }
    }
}

/// The limit that holds for uploads at `now_ms`.
pub open spec fn rate_of(
    active: ActiveRecordings,
    streams: Seq<DownloadHealth>,
    now_ms: u64,
) -> RateSetting {
    if active.count > 0 {
        match current_limit(streams, now_ms) {
            Some(limit) => RateSetting { key: RateKey::Pressure, default_mbps: limit },
            None => RateSetting { key: RateKey::Recording, default_mbps: 100 },
        }
    } else {
        RateSetting { key: RateKey::Idle, default_mbps: 0 }
    }
}

/// The limit of uploads that applies at `now_ms`: without a recording none, with one a hundred
/// Mbit/s, and with one that fell behind what that calls for.
pub fn rate_setting(
    active: &ActiveRecordings,
    registry: &DownloadHealthRegistry,
    now_ms: u64,
) -> (r: RateSetting)
    ensures
        r == rate_of(*active, registry.streams@, now_ms),
{
    if is_recording_active(active) {
        match current_pressure_limit_mbps(registry, now_ms) {
            Some(limit) => RateSetting { key: RateKey::Pressure, default_mbps: limit },
            None => RateSetting { key: RateKey::Recording, default_mbps: 100 },
        }
    } else {
        RateSetting { key: RateKey::Idle, default_mbps: 0 }
    }
}

/// The plan by which the pieces of all uploads are sent one after another: when the next one may
/// go, in nanoseconds of some clock.
#[derive(Clone, Copy, Debug, PartialEq, Eq, Structural)]
pub struct UploadSchedule {
    pub next: u64,
}

/// When the next request may begin that is asked for at `now`.
pub open spec fn start_of(next: u64, now: u64) -> u64 {
    if next < now {
        now
    } else {
        next
    }
}

/// When a further request may begin, `spacing` behind the one asked for at `now`.
pub open spec fn following(next: u64, now: u64, spacing: u64) -> u64 {
    if start_of(next, now) + spacing > u64::MAX {
        u64::MAX
    } else {
        (start_of(next, now) + spacing) as u64
    }
}

impl UploadSchedule {
    /// Gives a piece that takes `spacing` nanoseconds its place in the plan. Returns how long it
    /// has to wait.
    pub fn reserve(&mut self, now: u64, spacing: u64) -> (r: u64)
        ensures
            r == start_of(old(self).next, now) - now,
            final(self).next == following(old(self).next, now, spacing),
    {
        if self.next < now {
            self.next = now;
        }
        let wait: u64 = self.next - now;
        self.next = match self.next.checked_add(spacing) {
            Some(next) => next,
            None => u64::MAX,
        };
        wait
    }

    /// Forgets the plan, where there is no limit any more.
    pub fn reset(&mut self, now: u64)
        ensures
            final(self).next == now,
    {
        self.next = now;
    }
}

/// The fastest line is one of those that answered, and there is one as soon as any answered.
pub proof fn law_some_line_chosen(probed: Seq<ProbedLine>, bound: int, i: int)
    requires
        0 <= i < probed.len(),
        probed[i].cost matches Some(c) && c < bound,
    ensures
        fastest(probed, bound) matches Some(k) && 0 <= k < probed.len() && probed[k].cost is Some,
    decreases probed.len(),
{
    if i < probed.len() - 1 {
        law_some_line_chosen(probed.drop_last(), bound, i);
    } else {
        lemma_fastest_within(probed.drop_last(), bound);
    }
}

proof fn lemma_fastest_within(probed: Seq<ProbedLine>, bound: int)
    ensures
        fastest(probed, bound) matches Some(k) ==> 0 <= k < probed.len() && (
        probed[k].cost matches Some(c) && c < bound),
    decreases probed.len(),
{
    if probed.len() > 0 {
        lemma_fastest_within(probed.drop_last(), bound);
    }
}

/// Uploads are slowed to five megabits for fifteen seconds after a download was short of bandwidth,
/// to ten until half a minute, to twenty-five until a minute, to fifty until two, and then no more.
pub proof fn law_pressure_steps(age_ms: int)
    ensures
        age_ms < 15_000 <==> pressure_limit(age_ms) == Some(5u64),
        15_000 <= age_ms < 30_000 <==> pressure_limit(age_ms) == Some(10u64),
        30_000 <= age_ms < 60_000 <==> pressure_limit(age_ms) == Some(25u64),
        60_000 <= age_ms < 120_000 <==> pressure_limit(age_ms) == Some(50u64),
        age_ms >= 120_000 <==> pressure_limit(age_ms) is None,
{
}

/// The latest pressure is the highest of all streams.
pub proof fn law_latest_pressure(streams: Seq<DownloadHealth>, i: int)
    requires
        0 <= i < streams.len(),
    ensures
        streams[i].last_pressure_ms <= latest_pressure(streams),
        exists|k: int|
            0 <= k < streams.len() && (#[trigger] streams[k]).last_pressure_ms == latest_pressure(
                streams,
            ),
    decreases streams.len(),
{
    let rest = streams.drop_last();
    if rest.len() == 0 {
        assert(latest_pressure(rest) == 0);
        assert(streams[0].last_pressure_ms == latest_pressure(streams));
    } else {
        let j = if i < rest.len() {
            i
        } else {
            0
        };
        law_latest_pressure(rest, j);
        let k = choose|k: int|
            0 <= k < rest.len() && (#[trigger] rest[k]).last_pressure_ms == latest_pressure(rest);
        assert(streams[k].last_pressure_ms == latest_pressure(rest));
        assert(streams[streams.len() - 1] == streams.last());
    }
}

/// Pressure is noted for the stream that felt it, and for no other.
pub proof fn law_pressure_is_noted(streams: Seq<DownloadHealth>, id: u64, now_ms: u64, i: int)
    requires
        0 <= i < streams.len(),
        forall|a: int, b: int|
            0 <= a < b < streams.len() ==> (#[trigger] streams[a]).id != (#[trigger] streams[b]).id,
    ensures
        with_pressure(streams, id, now_ms).len() == streams.len(),
        streams[i].id != id ==> with_pressure(streams, id, now_ms)[i] == streams[i],
        streams[i].id == id ==> with_pressure(streams, id, now_ms)[i] == (DownloadHealth {
            id,
            last_pressure_ms: now_ms,
        }),
{
    if streams[i].id == id {
        assert forall|k: int| 0 <= k < i implies !is_stream(id)(#[trigger] streams[k]) by {
            assert(streams[k].id != streams[i].id);
        }
        lemma_first_index(streams, is_stream(id), i);
    } else {
        lemma_first_index_found(streams, is_stream(id));
    }
}

/// Without pressure on record there is no limit for it; uploads are limited while something is
/// recorded, and else not.
pub proof fn law_upload_limits(active: ActiveRecordings, streams: Seq<DownloadHealth>, now_ms: u64)
    ensures
        latest_pressure(streams) == 0 ==> current_limit(streams, now_ms) is None,
        latest_pressure(streams) > 0 && now_ms < latest_pressure(streams) + 120_000
            ==> current_limit(streams, now_ms) is Some,
        now_ms >= latest_pressure(streams) + 120_000 ==> current_limit(streams, now_ms) is None,
        active.count == 0 ==> rate_of(active, streams, now_ms) == (RateSetting {
            key: RateKey::Idle,
            default_mbps: 0,
        }),
        active.count > 0 && current_limit(streams, now_ms) is None ==> rate_of(
            active,
            streams,
            now_ms,
        ) == (RateSetting { key: RateKey::Recording, default_mbps: 100 }),
        active.count > 0 ==> (current_limit(streams, now_ms) matches Some(limit) ==> rate_of(
            active,
            streams,
            now_ms,
        ) == (RateSetting { key: RateKey::Pressure, default_mbps: limit })),
{
}

/// Requests are spaced: the next one may not begin before `spacing` has passed since this one, and
/// none begins before it is asked for.
pub proof fn law_requests_are_spaced(next: u64, now: u64, spacing: u64, later: u64)
    requires
        next + spacing <= u64::MAX,
        now + spacing <= u64::MAX,
    ensures
        start_of(next, now) >= now && start_of(next, now) >= next,
        start_of(next, now) == now || start_of(next, now) == next,
        start_of(following(next, now, spacing), later) >= start_of(next, now) + spacing,
        later >= start_of(next, now) + spacing ==> start_of(following(next, now, spacing), later)
            == later,
{
}

/// A line is what it was made from.
pub proof fn law_lines(line: Line, query: Seq<char>, probe_url: Seq<char>, cost: u128)
    requires
        is_line(line, query, probe_url, cost),
    ensures
        line.os == Uploader::Upos,
        line.query@ == query,
        line.probe_url@ == probe_url,
        line.cost == cost,
{
}

/// Whether a query asks for the network with a name.
pub open spec fn asks_for(query: Seq<char>, network: Seq<char>) -> bool {
    exists|i: int| #[trigger] occurs_at(query, i, "upcdn="@ + network + "&"@)
}

/// A line that is selected by its name asks for the network of that name, and is probed there.
pub proof fn law_selected_line(selected: Seq<char>)
    ensures
        line_named(selected) is Some <==> selected == "bda2"@ || selected == "bda"@ || selected
            == "tx"@ || selected == "txa"@ || selected == "bldsa"@ || selected == "alia"@,
        line_named(selected) matches Some((query, _)) ==> asks_for(query, selected),
        line_named(selected) matches Some((_, probe_url)) ==> ("//upos-cs-upcdn"@ + selected
            + "."@).is_prefix_of(probe_url),
{
    reveal_strlit("bda2");
    reveal_strlit("bda");
    reveal_strlit("tx");
    reveal_strlit("txa");
    reveal_strlit("bldsa");
    reveal_strlit("alia");
    reveal_strlit("upcdn=");
    reveal_strlit("&");
    reveal_strlit(".");
    reveal_strlit("//upos-cs-upcdn");
    assert("bda2"@[0] != "alia"@[0] && "bda"@[0] != "txa"@[0]);
    if selected == "bda2"@ {
        reveal_strlit("probe_version=20221109&upcdn=bda2&zone=cs");
        reveal_strlit("//upos-cs-upcdnbda2.bilivideo.com/OK");
        let query = "probe_version=20221109&upcdn=bda2&zone=cs"@;
        let probe_url = "//upos-cs-upcdnbda2.bilivideo.com/OK"@;
        lemma_line_parts(query, 23, probe_url, selected);
        assert(line_named(selected) == Some((query, probe_url)));
    } else if selected == "bda"@ {
        reveal_strlit("zone=cs&upcdn=bda&probe_version=20221109");
        reveal_strlit("//upos-cs-upcdnbda.bilivideo.com/OK");
        let query = "zone=cs&upcdn=bda&probe_version=20221109"@;
        let probe_url = "//upos-cs-upcdnbda.bilivideo.com/OK"@;
        lemma_line_parts(query, 8, probe_url, selected);
        assert(line_named(selected) == Some((query, probe_url)));
    } else if selected == "tx"@ {
        reveal_strlit("zone=cs&upcdn=tx&probe_version=20221109");
        reveal_strlit("//upos-cs-upcdntx.bilivideo.com/OK");
        let query = "zone=cs&upcdn=tx&probe_version=20221109"@;
        let probe_url = "//upos-cs-upcdntx.bilivideo.com/OK"@;
        lemma_line_parts(query, 8, probe_url, selected);
        assert(line_named(selected) == Some((query, probe_url)));
    } else if selected == "txa"@ {
        reveal_strlit("zone=cs&upcdn=txa&probe_version=20221109");
        reveal_strlit("//upos-cs-upcdntxa.bilivideo.com/OK");
        let query = "zone=cs&upcdn=txa&probe_version=20221109"@;
        let probe_url = "//upos-cs-upcdntxa.bilivideo.com/OK"@;
        lemma_line_parts(query, 8, probe_url, selected);
        assert(line_named(selected) == Some((query, probe_url)));
    } else if selected == "bldsa"@ {
        reveal_strlit("zone=cs&upcdn=bldsa&probe_version=20221109");
        reveal_strlit("//upos-cs-upcdnbldsa.bilivideo.com/OK");
        let query = "zone=cs&upcdn=bldsa&probe_version=20221109"@;
        let probe_url = "//upos-cs-upcdnbldsa.bilivideo.com/OK"@;
        lemma_line_parts(query, 8, probe_url, selected);
        assert(line_named(selected) == Some((query, probe_url)));
    } else if selected == "alia"@ {
        reveal_strlit("zone=cs&upcdn=alia&probe_version=20221109");
        reveal_strlit("//upos-cs-upcdnalia.bilivideo.com/OK");
        let query = "zone=cs&upcdn=alia&probe_version=20221109"@;
        let probe_url = "//upos-cs-upcdnalia.bilivideo.com/OK"@;
        lemma_line_parts(query, 8, probe_url, selected);
        assert(line_named(selected) == Some((query, probe_url)));
    }
}

proof fn lemma_line_parts(query: Seq<char>, at: int, probe_url: Seq<char>, selected: Seq<char>)
    requires
        0 <= at,
        ({
            let mark = "upcdn="@ + selected + "&"@;
            let head = "//upos-cs-upcdn"@ + selected + "."@;
            &&& at + mark.len() <= query.len()
            &&& forall|i: int| 0 <= i < mark.len() ==> query[at + i] == #[trigger] mark[i]
            &&& head.len() <= probe_url.len()
            &&& forall|i: int| 0 <= i < head.len() ==> #[trigger] probe_url[i] == head[i]
        }),
    ensures
        asks_for(query, selected),
        ("//upos-cs-upcdn"@ + selected + "."@).is_prefix_of(probe_url),
{
    let mark = "upcdn="@ + selected + "&"@;
    assert(query.subrange(at, at + mark.len()) =~= mark);
    assert(occurs_at(query, at, mark));
    let head = "//upos-cs-upcdn"@ + selected + "."@;
    assert(probe_url.take(head.len() as int) =~= head);
}

} // verus!
