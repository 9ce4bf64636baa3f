//! Downloads of streams that come as HLS playlists: which variant is taken, which parts of a
//! playlist are new, and when the playlist is asked for again.

use crate::text::concat;
use m3u8_rs::Playlist as AnyPlaylist;
use vstd::prelude::*;

verus! {

/// A variant of a stream.
#[derive(Debug)]
pub struct Variant {
    pub uri: String,
    pub bandwidth: u64,
    /// Width and height, where they are given.
    pub resolution: Option<(u64, u64)>,
    /// It holds nothing but single pictures.
    pub is_i_frame: bool,
}

/// A part of a stream.
#[derive(Debug)]
pub struct MediaPart {
    pub uri: String,
    /// It does not continue the part before it.
    pub discontinuity: bool,
    /// Its length, in full seconds.
    pub duration_secs: u64,
    /// Its length, as the bits of a floating-point number of seconds.
    pub duration_bits: u32,
}

/// A playlist of parts.
#[derive(Debug)]
pub struct MediaList {
    /// Number of its first part.
    pub media_sequence: u64,
    pub parts: Vec<MediaPart>,
    /// No more parts will follow.
    pub end_list: bool,
}

/// A playlist.
#[derive(Debug)]
pub enum Playlist {
    /// One of variants.
    Master(Vec<Variant>),
    /// One of parts.
    Media(MediaList),
}

/// What a variant is.
pub struct VariantModel {
    pub uri: Seq<char>,
    pub bandwidth: u64,
    pub resolution: Option<(u64, u64)>,
    pub is_i_frame: bool,
}

/// What a part is.
pub struct PartModel {
    pub uri: Seq<char>,
    pub discontinuity: bool,
    pub duration_secs: u64,
    pub duration_bits: u32,
}

/// What a playlist of parts holds.
pub struct MediaModel {
    pub media_sequence: u64,
    pub parts: Seq<PartModel>,
    pub end_list: bool,
}

/// What a playlist holds.
pub enum PlaylistModel {
    Master(Seq<VariantModel>),
    Media(MediaModel),
}

impl View for Variant {
    type V = VariantModel;

    open spec fn view(&self) -> VariantModel {
        VariantModel {
            uri: self.uri@,
            bandwidth: self.bandwidth,
            resolution: self.resolution,
            is_i_frame: self.is_i_frame,
        }
    }
}

impl View for MediaPart {
    type V = PartModel;

    open spec fn view(&self) -> PartModel {
        PartModel {
            uri: self.uri@,
            discontinuity: self.discontinuity,
            duration_secs: self.duration_secs,
            duration_bits: self.duration_bits,
        }
    }
}

impl View for MediaList {
    type V = MediaModel;

    open spec fn view(&self) -> MediaModel {
        MediaModel {
            media_sequence: self.media_sequence,
            parts: self.parts@.map_values(|p: MediaPart| p@),
            end_list: self.end_list,
        }
    }
}

impl View for Playlist {
    type V = PlaylistModel;

    open spec fn view(&self) -> PlaylistModel {
        match self {
            Playlist::Master(variants) => PlaylistModel::Master(variant_models(variants@)),
            Playlist::Media(list) => PlaylistModel::Media(list@),
        }
    }
}

/// What a playlist holds, as `m3u8_rs` reads it, or its error.
pub uninterp spec fn parsed_playlist(bytes: Seq<u8>) -> Result<PlaylistModel, Seq<char>>;

/// `m3u8_rs::parse_playlist`, its result turned into values of this library. The result is named by
/// `parsed_playlist`; what a playlist is, is not stated here.
#[verifier::external_body]
pub(crate) fn parse_playlist(bytes: &[u8]) -> (r: Result<Playlist, String>)
    ensures
        match r {
            Ok(list) => parsed_playlist(bytes@) == Ok::<PlaylistModel, Seq<char>>(list@),
            Err(e) => parsed_playlist(bytes@) == Err::<PlaylistModel, Seq<char>>(e@),
        },
{
    match m3u8_rs::parse_playlist(bytes) {
        Ok((_, AnyPlaylist::MasterPlaylist(list))) => Ok(Playlist::Master(list.variants.into_iter()
            .map(|v| Variant {
                uri: v.uri, bandwidth: v.bandwidth, is_i_frame: v.is_i_frame,
                resolution: v.resolution.map(|r| (r.width, r.height)),
            }).collect())),
        Ok((_, AnyPlaylist::MediaPlaylist(list))) => Ok(Playlist::Media(MediaList {
            media_sequence: list.media_sequence, end_list: list.end_list,
            parts: list.segments.into_iter().map(|s| MediaPart {
                uri: s.uri, discontinuity: s.discontinuity,
                duration_secs: s.duration as u64, duration_bits: s.duration.to_bits(),
            }).collect(),
        })),
        Err(error) => Err(error.to_string()),
    }
}

/// What a playlist of parts holds, as `m3u8_rs` reads it, or its error.
pub uninterp spec fn parsed_media_playlist(bytes: Seq<u8>) -> Result<MediaModel, Seq<char>>;

/// `m3u8_rs::parse_media_playlist`, its result turned into values of this library. The result is
/// named by `parsed_media_playlist`; what a playlist is, is not stated here.
#[verifier::external_body]
pub(crate) fn parse_media_playlist(bytes: &[u8]) -> (r: Result<MediaList, String>)
    ensures
        match r {
            Ok(list) => parsed_media_playlist(bytes@) == Ok::<MediaModel, Seq<char>>(list@),
            Err(e) => parsed_media_playlist(bytes@) == Err::<MediaModel, Seq<char>>(e@),
        },
{
    match m3u8_rs::parse_media_playlist(bytes) {
        Ok((_, list)) => Ok(MediaList {
            media_sequence: list.media_sequence,
            end_list: list.end_list,
            parts: list.segments.into_iter().map(|s| MediaPart {
                uri: s.uri, discontinuity: s.discontinuity,
                duration_secs: s.duration as u64, duration_bits: s.duration.to_bits(),
            }).collect(),
        }),
        Err(error) => Err(error.to_string()),
    }
}

/// An absolute address, as `url` reads and writes it, or its error.
pub uninterp spec fn absolute_url(address: Seq<char>) -> Result<Seq<char>, Seq<char>>;

/// `url::Url::parse`, and the text of its result. The result is named by `absolute_url`.
#[verifier::external_body]
pub(crate) fn parse_url(address: &str) -> (r: Result<String, String>)
    ensures
        match r {
            Ok(u) => absolute_url(address@) == Ok::<Seq<char>, Seq<char>>(u@),
            Err(e) => absolute_url(address@) == Err::<Seq<char>, Seq<char>>(e@),
        },
{
    match url::Url::parse(address) {
        Ok(parsed) => Ok(parsed.to_string()),
        Err(error) => Err(error.to_string()),
    }
}

/// What a reference stands for in a document with an absolute address, as `url` resolves it, or its
/// error.
pub uninterp spec fn joined_url(base: Seq<char>, reference: Seq<char>) -> Result<
    Seq<char>,
    Seq<char>,
>;

/// `url::Url::join`, on a `base` that is taken over from its text, and the text of its result. The
/// result is named by `joined_url`.
#[verifier::external_body]
fn join_parsed(base: &str, reference: &str) -> (r: Result<String, String>)
    requires
        absolute_url(base@) is Ok,
    ensures
        match r {
            Ok(u) => joined_url(base@, reference@) == Ok::<Seq<char>, Seq<char>>(u@),
            Err(e) => joined_url(base@, reference@) == Err::<Seq<char>, Seq<char>>(e@),
        },
{
    match url::Url::parse(base).and_then(|parsed| parsed.join(reference)) {
        Ok(joined) => Ok(joined.to_string()),
        Err(error) => Err(error.to_string()),
    }
}

/// The address that a reference stands for in a document, or why there is none: the address of the
/// document has to be absolute.
pub open spec fn resolved_url(base: Seq<char>, reference: Seq<char>) -> Result<
    Seq<char>,
    Seq<char>,
> {
    match absolute_url(base) {
        Ok(_) => joined_url(base, reference),
        Err(e) => Err(e),
    }
}

/// The address that a reference stands for in a document.
pub fn join_url(base: &str, reference: &str) -> (r: Result<String, String>)
    ensures
        match r {
            Ok(u) => resolved_url(base@, reference@) == Ok::<Seq<char>, Seq<char>>(u@),
            Err(e) => resolved_url(base@, reference@) == Err::<Seq<char>, Seq<char>>(e@),
        },
{
    match parse_url(base) {
        Ok(_) => join_parsed(base, reference),
        Err(error) => Err(error),
    }
}

/// True for a variant that shows moving pictures; `sized` asks for one with a resolution.
pub open spec fn is_eligible(variant: VariantModel, sized: bool) -> bool {
    !variant.is_i_frame && (sized ==> variant.resolution is Some)
}

/// `k` is the last of the eligible variants with the highest bandwidth.
pub open spec fn is_widest(variants: Seq<VariantModel>, sized: bool, k: int) -> bool {
    &&& 0 <= k < variants.len()
    &&& is_eligible(variants[k], sized)
    &&& forall|i: int|
        0 <= i < variants.len() && is_eligible(#[trigger] variants[i], sized)
            ==> variants[i].bandwidth <= variants[k].bandwidth
    &&& forall|i: int|
        k < i < variants.len() && is_eligible(#[trigger] variants[i], sized)
            ==> variants[i].bandwidth < variants[k].bandwidth
}

/// No variant is eligible.
pub open spec fn none_eligible(variants: Seq<VariantModel>, sized: bool) -> bool {
    forall|i: int| 0 <= i < variants.len() ==> !is_eligible(#[trigger] variants[i], sized)
}

/// `k` is the variant that is taken: the last of those with the highest bandwidth among the ones
/// with a resolution, or where there are none, among all that show moving pictures.
pub open spec fn is_taken(variants: Seq<VariantModel>, k: int) -> bool {
    is_widest(variants, true, k) || (none_eligible(variants, true) && is_widest(
        variants,
        false,
        k,
    ))
}

/// What variants are.
pub open spec fn variant_models(variants: Seq<Variant>) -> Seq<VariantModel> {
    variants.map_values(|v: Variant| v@)
}

fn widest(variants: &Vec<Variant>, sized: bool) -> (r: Option<usize>)
    ensures
        match r {
            Some(k) => is_widest(variant_models(variants@), sized, k as int),
            None => none_eligible(variant_models(variants@), sized),
        },
{
    let ghost models = variant_models(variants@);
    let mut best: Option<usize> = None;
    let mut i: usize = 0;
    while i < variants.len()
        invariant
            i <= variants.len(),
            models == variant_models(variants@),
            match best {
                Some(k) => {
                    &&& k < i
                    &&& is_eligible(models[k as int], sized)
                    &&& forall|j: int|
                        0 <= j < i && is_eligible(#[trigger] models[j], sized)
                            ==> models[j].bandwidth <= models[k as int].bandwidth
                    &&& forall|j: int|
                        k < j < i && is_eligible(#[trigger] models[j], sized)
                            ==> models[j].bandwidth < models[k as int].bandwidth
                },
                None => forall|j: int| 0 <= j < i ==> !is_eligible(#[trigger] models[j], sized),
            },
        decreases variants.len() - i,
    {
        assert(models[i as int] == variants@[i as int]@);
        let variant = &variants[i];
        if !variant.is_i_frame && (!sized || variant.resolution.is_some()) {
            let better = match best {
                Some(k) => {
                    assert(models[k as int] == variants@[k as int]@);
                    variant.bandwidth >= variants[k].bandwidth
                },
                None => true,
            };
            if better {
                best = Some(i);
            }
        }
        i = i + 1;
    }
    best
}

/// Chooses the variant with the highest bandwidth, the last of several; one with a resolution
/// comes before all others, and one of single pictures is never taken.
pub fn choose_variant(variants: &Vec<Variant>) -> (r: Result<usize, String>)
    ensures
        match r {
            Ok(k) => is_taken(variant_models(variants@), k as int),
            Err(m) => none_eligible(variant_models(variants@), false) && m@ == no_variant(),
        },
{
    match widest(variants, true) {
        Some(k) => Ok(k),
        None => match widest(variants, false) {
            Some(k) => Ok(k),
            None => Err("HLS master playlist 没有可用视频变体。".to_owned()),
        },
    }
}

/// The message for a stream without a variant to take.
pub open spec fn no_variant() -> Seq<char> {
    "HLS master playlist 没有可用视频变体。"@
}

/// What the first answer of a stream leads to.
#[derive(Debug)]
pub enum FirstAnswer {
    /// It is a playlist of parts; `media_url` is its address.
    Parts { media_url: String, list: MediaList },
    /// It is a playlist of variants; the playlist at `media_url` has to be fetched.
    Fetch { media_url: String },
    /// The download fails.
    Fail(String),
}

/// What a playlist of variants at `media_url` leads to.
pub open spec fn variants_lead_to(
    media_url: Seq<char>,
    variants: Seq<VariantModel>,
    answer: FirstAnswer,
) -> bool {
    if none_eligible(variants, false) {
        answer matches FirstAnswer::Fail(m) && m@ == no_variant()
    } else {
        exists|k: int| #[trigger]
            is_taken(variants, k) && match resolved_url(media_url, variants[k].uri) {
                Ok(u) => answer matches FirstAnswer::Fetch { media_url: m } && m@ == u,
                Err(e) => answer matches FirstAnswer::Fail(m) && m@ == e,
            }
    }
}

/// What the answer at `media_url` leads to, given what it was read as.
pub open spec fn playlist_leads_to(
    media_url: Seq<char>,
    parsed: Result<PlaylistModel, Seq<char>>,
    answer: FirstAnswer,
) -> bool {
    match parsed {
        Ok(PlaylistModel::Media(list)) => answer matches FirstAnswer::Parts {
            media_url: m,
            list: l,
        } && m@ == media_url && l@ == list,
        Ok(PlaylistModel::Master(variants)) => variants_lead_to(media_url, variants, answer),
        Err(e) => answer matches FirstAnswer::Fail(m) && m@ == "Parsing playlist error: "@ + e,
    }
}

/// Decides what the first answer of the stream at `media_url` leads to: `playlist` is what it was
/// read as.
pub fn on_first_playlist(media_url: String, playlist: Result<Playlist, String>) -> (r: FirstAnswer)
    ensures
        playlist_leads_to(
            media_url@,
            match playlist {
                Ok(p) => Ok(p@),
                Err(e) => Err(e@),
            },
            r,
        ),
{
    match playlist {
        Ok(Playlist::Media(list)) => FirstAnswer::Parts { media_url, list },
        Ok(Playlist::Master(variants)) => match choose_variant(&variants) {
            Ok(k) => {
                let ghost models = variant_models(variants@);
                assert(is_taken(models, k as int));
                assert(is_eligible(models[k as int], false));
                assert(models[k as int] == variants@[k as int]@);
                match join_url(media_url.as_str(), variants[k].uri.as_str()) {
                    Ok(address) => FirstAnswer::Fetch { media_url: address },
                    Err(error) => FirstAnswer::Fail(error),
                }
            },
            Err(message) => FirstAnswer::Fail(message),
        },
        Err(error) => FirstAnswer::Fail(concat("Parsing playlist error: ", error.as_str())),
    }
}

/// Reads the answer to the first request of the stream at `address`.
pub fn read_first_answer(address: &str, bytes: &[u8]) -> (r: FirstAnswer)
    ensures
        match absolute_url(address@) {
            Err(e) => r matches FirstAnswer::Fail(m) && m@ == e,
            Ok(media_url) => playlist_leads_to(media_url, parsed_playlist(bytes@), r),
        },
{
    let media_url = match parse_url(address) {
        Ok(media_url) => media_url,
        Err(error) => {
            return FirstAnswer::Fail(error);
        },
    };
    let playlist = parse_playlist(bytes);
    on_first_playlist(media_url, playlist)
}

/// Two variants are never both the one that is taken.
pub proof fn law_one_variant_taken(variants: Seq<VariantModel>, a: int, b: int)
    requires
        is_taken(variants, a),
        is_taken(variants, b),
    ensures
        a == b,
{
    let sized = !none_eligible(variants, true);
    assert(is_widest(variants, sized, a) && is_widest(variants, sized, b)) by {
        if sized {
        } else {
            assert(!is_widest(variants, true, a)) by {
                assert(0 <= a < variants.len() ==> !is_eligible(variants[a], true));
            }
            assert(!is_widest(variants, true, b)) by {
                assert(0 <= b < variants.len() ==> !is_eligible(variants[b], true));
            }
        }
    }
    assert(is_eligible(variants[a], sized) && is_eligible(variants[b], sized));
}

/// Reads the playlist of the variant that was taken.
pub fn read_variant_list(bytes: &[u8]) -> (r: Result<MediaList, String>)
    ensures
        match parsed_media_playlist(bytes@) {
            Ok(list) => r matches Ok(l) && l@ == list,
            Err(e) => r matches Err(m) && m@ == "Unable to parse media playlist content: "@ + e,
        },
{
    match parse_media_playlist(bytes) {
        Ok(list) => Ok(list),
        Err(error) => Err(concat("Unable to parse media playlist content: ", error.as_str())),
    }
}

/// Reads a playlist that was asked for again.
pub fn read_refreshed_list(bytes: &[u8]) -> (r: Result<MediaList, String>)
    ensures
        match parsed_media_playlist(bytes@) {
            Ok(list) => r matches Ok(l) && l@ == list,
            Err(e) => r matches Err(m) && m@ == "Unable to refresh HLS playlist: "@ + e,
        },
{
    match parse_media_playlist(bytes) {
        Ok(list) => Ok(list),
        Err(error) => Err(concat("Unable to refresh HLS playlist: ", error.as_str())),
    }
}

/// The address of a part of the playlist at `media_url`.
pub fn part_address(media_url: &str, part: &MediaPart) -> (r: Result<String, String>)
    ensures
        match r {
            Ok(u) => resolved_url(media_url@, part.uri@) == Ok::<Seq<char>, Seq<char>>(u@),
            Err(e) => resolved_url(media_url@, part.uri@) == Err::<Seq<char>, Seq<char>>(e@),
        },
{
    join_url(media_url, part.uri.as_str())
}

/// How far a download has come.
#[derive(Clone, Copy, Debug, PartialEq, Eq, Structural)]
pub struct HlsCursor {
    /// Number of the last part that was fetched, or zero.
    pub previous: u64,
}

/// A part that is to be fetched.
#[derive(Clone, Copy, Debug, PartialEq, Eq, Structural)]
pub struct DuePart {
    /// Its place in the playlist.
    pub index: usize,
    /// Its number.
    pub sequence: u64,
    /// Parts before it were missed.
    pub gap: bool,
}

/// The first place in a playlist whose part was not fetched yet.
pub open spec fn first_new(list: MediaList, previous: u64) -> int {
    let new = previous + 1 - list.media_sequence;
    if new < 0 {
        0
    } else if new > list.parts@.len() {
        list.parts@.len() as int
    } else {
        new
    }
}

/// Whether `due` are the parts of a list that come behind the part `previous`, and `last` is the
/// last part that was seen then.
pub open spec fn is_advanced(
    list: MediaList,
    previous: u64,
    due: Seq<DuePart>,
    last: u64,
) -> bool {
    let k = first_new(list, previous);
    &&& due.len() == list.parts@.len() - k
    &&& forall|i: int|
        0 <= i < due.len() ==> (#[trigger] due[i]) == (DuePart {
            index: (k + i) as usize,
            sequence: (list.media_sequence + k + i) as u64,
            gap: i == 0 && previous > 0 && list.media_sequence + k > previous + 1,
        })
    &&& last == if k < list.parts@.len() {
        (list.media_sequence + list.parts@.len() - 1) as u64
    } else {
        previous
    }
}

impl HlsCursor {
    /// Tells which parts of a playlist are to be fetched, in order, and takes note that they are.
    pub fn advance(&mut self, list: &MediaList) -> (r: Vec<DuePart>)
        requires
            list.media_sequence + list.parts@.len() <= u64::MAX,
        ensures
            is_advanced(*list, old(self).previous, r@, final(self).previous),
    {
        let ghost k = first_new(*list, self.previous);
        let ghost start = self.previous;
        let mut due: Vec<DuePart> = Vec::new();
        let mut sequence: u64 = list.media_sequence;
        let mut i: usize = 0;
        while i < list.parts.len()
            invariant
                i <= list.parts.len(),
                list.media_sequence + list.parts@.len() <= u64::MAX,
                sequence == list.media_sequence + i,
                k == first_new(*list, start),
                i <= k ==> due@.len() == 0 && self.previous == start,
                i > k ==> due@.len() == i - k && self.previous == list.media_sequence + i - 1,
                forall|j: int|
                    0 <= j < due@.len() ==> (#[trigger] due@[j]) == (DuePart {
                        index: (k + j) as usize,
                        sequence: (list.media_sequence + k + j) as u64,
                        gap: j == 0 && start > 0 && list.media_sequence + k > start + 1,
                    }),
            decreases list.parts.len() - i,
        {
            if sequence > self.previous {
                let gap = self.previous > 0 && sequence - self.previous > 1;
                due.push(DuePart { index: i, sequence, gap });
                self.previous = sequence;
            }
            sequence = sequence + 1;
            i = i + 1;
        }
        due
    }
}

/// What follows when the new parts of a playlist were fetched.
#[derive(Clone, Copy, Debug, PartialEq, Eq, Structural)]
pub enum AfterParts {
    /// The stream is over.
    Ended,
    /// The playlist is asked for again, after a second where it is empty, and after the pause that
    /// the last part calls for.
    AskAgain { empty: bool, last_duration_bits: Option<u32> },
}

/// What follows once the parts of a list are fetched.
pub open spec fn parts_done(list: MediaList) -> AfterParts {
    if list.end_list {
        AfterParts::Ended
    } else {
        AfterParts::AskAgain {
            empty: list.parts@.len() == 0,
            last_duration_bits: if list.parts@.len() == 0 {
                None
            } else {
                Some(list.parts@.last().duration_bits)
            },
        }
    }
}

/// Decides what follows when the new parts of a playlist were fetched.
pub fn after_parts(list: &MediaList) -> (r: AfterParts)
    ensures
        r == parts_done(*list),
{
    if list.end_list {
        return AfterParts::Ended;
    }
    let n: usize = list.parts.len();
    if n == 0 {
        AfterParts::AskAgain { empty: true, last_duration_bits: None }
    } else {
        AfterParts::AskAgain {
            empty: false,
            last_duration_bits: Some(list.parts[n - 1].duration_bits),
        }
    }
}

/// What came of reading a part.
#[derive(Debug)]
pub enum PartRead {
    /// So many bytes.
    Chunk(usize),
    /// Its end.
    End,
    /// An error.
    Failed(String),
    /// Nothing, for half a minute.
    TimedOut,
}

/// What follows a read.
#[derive(Debug)]
pub enum AfterRead {
    /// Write what was read, and read on.
    WriteAndGoOn,
    /// The part is there in full.
    Complete,
    /// The download fails; the stream has fallen behind.
    Fail(String),
}

/// Decides what follows a read of the part at `address`. `length` counts its bytes.
pub fn after_read(length: &mut u64, read: PartRead, address: &str) -> (r: AfterRead)
    requires
        read matches PartRead::Chunk(n) ==> *old(length) + n <= u64::MAX,
    ensures
        match read {
            PartRead::Chunk(n) => r is WriteAndGoOn && *final(length) == *old(length) + n,
            PartRead::End => r is Complete && *final(length) == *old(length),
            PartRead::Failed(e) => r == AfterRead::Fail(e) && *final(length) == *old(length),
            PartRead::TimedOut => (r matches AfterRead::Fail(m) && m@
                == "HLS segment read timed out: "@ + address@) && *final(length) == *old(length),
        },
{
    match read {
        PartRead::Chunk(n) => {
            *length = *length + n as u64;
            AfterRead::WriteAndGoOn
        },
        PartRead::End => AfterRead::Complete,
        PartRead::Failed(error) => AfterRead::Fail(error),
        PartRead::TimedOut => AfterRead::Fail(concat("HLS segment read timed out: ", address)),
    }
}

/// No part is fetched twice: what is due of a later playlist has higher numbers than everything
/// that was fetched before.
pub proof fn law_parts_fetched_once(list: MediaList, previous: u64, i: int)
    requires
        first_new(list, previous) <= i < list.parts@.len(),
    ensures
        list.media_sequence + i > previous,
{
}

/// Every part of a playlist that is newer than what was fetched before is due.
pub proof fn law_new_parts_are_due(list: MediaList, previous: u64, i: int)
    requires
        0 <= i < list.parts@.len(),
        list.media_sequence + i > previous,
    ensures
        first_new(list, previous) <= i,
{
}

/// The file that parts of a stream are written to.
#[derive(Clone, Copy, Debug, PartialEq, Eq, Structural)]
pub struct HlsFile {
    /// Number of bytes in it.
    pub bytes: u64,
    /// Seconds that it plays, each part counted in whole seconds.
    pub secs: u64,
}

/// When files are cut: at a size, at a length, at either or at neither.
#[derive(Clone, Copy, Debug, PartialEq, Eq, Structural)]
pub struct CutLimits {
    pub bytes: Option<u64>,
    pub secs: Option<u64>,
}

/// A sum, or the largest number.
pub open spec fn summed(a: u64, b: u64) -> u64 {
    if a + b > u64::MAX {
        u64::MAX
    } else {
        (a + b) as u64
    }
}

/// The file after another part of so many bytes.
pub open spec fn grown(file: HlsFile, part: MediaPart, length: u64) -> HlsFile {
    HlsFile {
        bytes: summed(file.bytes, length),
        secs: summed(file.secs, part.duration_secs),
    }
}

/// A file has reached a limit.
pub open spec fn is_full(file: HlsFile, limits: CutLimits) -> bool {
    ||| limits.bytes matches Some(l) && file.bytes >= l
    ||| limits.secs matches Some(l) && file.secs >= l
}

fn sum_of(a: u64, b: u64) -> (r: u64)
    ensures
        r == summed(a, b),
{
    match a.checked_add(b) {
        Some(sum) => sum,
        None => u64::MAX,
    }
}

impl HlsFile {
    /// An empty file.
    pub fn new() -> (r: Self)
        ensures
            r == (HlsFile { bytes: 0, secs: 0 }),
    {
        HlsFile { bytes: 0, secs: 0 }
    }

    /// Whether a new file has to be begun before a part: only if the part does not continue the one
    /// before it.
    pub fn before_part(&mut self, part: &MediaPart) -> (r: bool)
        ensures
            r == part.discontinuity,
            *final(self) == if part.discontinuity {
                HlsFile { bytes: 0, secs: 0 }
            } else {
                *old(self)
            },
    {
        if part.discontinuity {
            self.bytes = 0;
            self.secs = 0;
        }
        part.discontinuity
    }

    /// Whether a new file has to be begun after a part of `length` bytes: if the file has reached
    /// a limit. A file ends only between two parts.
    pub fn after_part(&mut self, part: &MediaPart, length: u64, limits: CutLimits) -> (r: bool)
        ensures
            r == is_full(grown(*old(self), *part, length), limits),
            *final(self) == if r {
                HlsFile { bytes: 0, secs: 0 }
            } else {
                grown(*old(self), *part, length)
            },
    {
        self.bytes = sum_of(self.bytes, length);
        self.secs = sum_of(self.secs, part.duration_secs);
        let large = match limits.bytes {
            Some(limit) => self.bytes >= limit,
            None => false,
        };
        let long = match limits.secs {
            Some(limit) => self.secs >= limit,
            None => false,
        };
        if large || long {
            self.bytes = 0;
            self.secs = 0;
        }
        large || long
    }
}

/// Of the variants with a picture the widest is taken, and of these one whose size is known wherever
/// there is one.
pub proof fn law_widest_variant_taken(variants: Seq<VariantModel>, k: int, i: int)
    requires
        is_taken(variants, k),
        0 <= i < variants.len(),
        !variants[i].is_i_frame,
    ensures
        0 <= k < variants.len(),
        !variants[k].is_i_frame,
        variants[i].resolution is Some ==> variants[k].resolution is Some && variants[i].bandwidth
            <= variants[k].bandwidth,
        variants[k].resolution is None ==> variants[i].resolution is None && variants[i].bandwidth
            <= variants[k].bandwidth,
{
    if variants[i].resolution is Some {
        assert(is_eligible(variants[i], true));
    }
    assert(is_eligible(variants[i], false));
}

/// Where there is a variant with a picture, one is taken.
pub proof fn law_some_variant_taken(variants: Seq<VariantModel>, i: int) -> (k: int)
    requires
        0 <= i < variants.len(),
        !variants[i].is_i_frame,
    ensures
        is_taken(variants, k),
        !none_eligible(variants, false),
{
    assert(is_eligible(variants[i], false));
    if none_eligible(variants, true) {
        lemma_some_widest(variants, false, variants.len() as int)
    } else {
        lemma_some_widest(variants, true, variants.len() as int)
    }
}

proof fn lemma_some_widest(variants: Seq<VariantModel>, sized: bool, n: int) -> (k: int)
    requires
        0 <= n <= variants.len(),
        exists|i: int| 0 <= i < n && is_eligible(#[trigger] variants[i], sized),
    ensures
        is_widest(variants.take(n), sized, k),
        n == variants.len() ==> is_widest(variants, sized, k),
    decreases n,
{
    let head = variants.take(n);
    assert(n == variants.len() ==> head =~= variants);
    assert(forall|i: int| 0 <= i < n ==> #[trigger] head[i] == variants[i]);
    let last = variants[n - 1];
    if exists|i: int| 0 <= i < n - 1 && is_eligible(#[trigger] variants[i], sized) {
        let k = lemma_some_widest(variants, sized, n - 1);
        let shorter = variants.take(n - 1);
        assert(forall|i: int| 0 <= i < n - 1 ==> #[trigger] shorter[i] == head[i]);
        if is_eligible(last, sized) && last.bandwidth >= variants[k].bandwidth {
            assert forall|i: int| 0 <= i < n && is_eligible(#[trigger] head[i], sized) implies
                head[i].bandwidth <= last.bandwidth by {
                if i < n - 1 {
                    assert(is_eligible(shorter[i], sized));
                }
            }
            assert(is_widest(head, sized, n - 1));
            n - 1
        } else {
            assert forall|i: int| 0 <= i < n && is_eligible(#[trigger] head[i], sized) implies
                head[i].bandwidth <= head[k].bandwidth by {
                if i < n - 1 {
                    assert(is_eligible(shorter[i], sized));
                }
            }
            assert forall|i: int| k < i < n && is_eligible(#[trigger] head[i], sized) implies
                head[i].bandwidth < head[k].bandwidth by {
                if i < n - 1 {
                    assert(is_eligible(shorter[i], sized));
                }
            }
            assert(is_widest(head, sized, k));
            k
        }
    } else {
        assert(is_eligible(variants[n - 1], sized));
        assert(is_widest(head, sized, n - 1));
        n - 1
    }
}

/// Every part of a list that was not seen yet is due, in order and under its own number; a gap is
/// told where parts were missed, and what was seen is not due again.
pub proof fn law_new_parts_in_order(
    list: MediaList,
    previous: u64,
    due: Seq<DuePart>,
    last: u64,
    i: int,
)
    requires
        is_advanced(list, previous, due, last),
        list.media_sequence + list.parts@.len() <= u64::MAX,
        list.parts@.len() <= usize::MAX,
        0 <= i < due.len(),
    ensures
        due[i].sequence > previous,
        due[i].sequence == list.media_sequence + due[i].index,
        due[i].index < list.parts@.len(),
        i > 0 ==> due[i].sequence == due[i - 1].sequence + 1,
        due.last().index == list.parts@.len() - 1,
        last == due.last().sequence,
        due[i].gap <==> i == 0 && previous > 0 && due[0].sequence > previous + 1,
{
}

/// Where nothing is due, everything was seen.
pub proof fn law_nothing_new(list: MediaList, previous: u64, due: Seq<DuePart>, last: u64, i: int)
    requires
        is_advanced(list, previous, due, last),
        due.len() == 0,
        0 <= i < list.parts@.len(),
    ensures
        list.media_sequence + i <= previous,
        last == previous,
{
}

/// A file grows by the bytes and the time of a part, and is full once it has reached one of its
/// limits; without limits it never is.
pub proof fn law_files_fill_up(file: HlsFile, part: MediaPart, length: u64, limits: CutLimits)
    requires
        file.bytes + length <= u64::MAX,
        file.secs + part.duration_secs <= u64::MAX,
    ensures
        grown(file, part, length).bytes == file.bytes + length,
        grown(file, part, length).secs == file.secs + part.duration_secs,
        limits.bytes is None && limits.secs is None ==> !is_full(file, limits),
        limits.bytes matches Some(l) ==> (file.bytes >= l ==> is_full(file, limits)),
        limits.secs matches Some(l) ==> (file.secs >= l ==> is_full(file, limits)),
        is_full(file, limits) ==> (limits.bytes is Some && file.bytes >= limits.bytes->0) || (
        limits.secs is Some && file.secs >= limits.secs->0),
{
}

/// An address in a list is read against the address of the list; a list with an address that is none
/// has no parts.
pub proof fn law_addresses_resolve(base: Seq<char>, reference: Seq<char>)
    ensures
        absolute_url(base) is Ok ==> resolved_url(base, reference) == joined_url(base, reference),
        absolute_url(base) matches Err(e) ==> resolved_url(base, reference) == Err::<
            Seq<char>,
            Seq<char>,
        >(e),
{
}

/// A list of parts is fetched as it is, a list of variants through the variant that is taken, and
/// what is neither fails.
pub proof fn law_first_answer(
    media_url: Seq<char>,
    parsed: Result<PlaylistModel, Seq<char>>,
    answer: FirstAnswer,
)
    requires
        playlist_leads_to(media_url, parsed, answer),
    ensures
        answer is Parts <==> (parsed matches Ok(list) && list is Media),
        answer matches FirstAnswer::Parts { media_url: m, list } ==> m@ == media_url && (
        parsed matches Ok(PlaylistModel::Media(parts)) && list@ == parts),
        parsed is Err ==> answer is Fail,
        parsed matches Ok(PlaylistModel::Master(variants)) ==> (answer matches FirstAnswer::Fetch {
            media_url: m,
        } ==> exists|k: int|
            is_taken(variants, k) && #[trigger] resolved_url(media_url, variants[k].uri) == Ok::<
                Seq<char>,
                Seq<char>,
            >(m@)),
{
}

/// A list that says it is complete is not asked for again; any other is, after the time of its last
/// part.
pub proof fn law_lists_are_asked_for_again(list: MediaList)
    ensures
        parts_done(list) is Ended <==> list.end_list,
        parts_done(list) matches AfterParts::AskAgain { empty, last_duration_bits } ==> {
            &&& empty <==> list.parts@.len() == 0
            &&& last_duration_bits is None <==> list.parts@.len() == 0
            &&& list.parts@.len() > 0 ==> last_duration_bits == Some(
                list.parts@[list.parts@.len() - 1].duration_bits,
            )
        },
{
}

} // verus!
