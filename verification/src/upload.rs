//! Submissions: what is sent for one, how it is found again, and what the answers of the service
//! mean.

use crate::bilibili_worker::BilibiliSubmissionRef;
use crate::json::{
    json_inner_text, json_member_number, json_member_text, json_string_inner, json_string_member,
    json_u64_member,
};
use crate::text::{concat, opt_text, prefix_of, take_chars, to_chars};
use vstd::prelude::*;

verus! {

/// A submission, by either of its identifiers.
#[derive(Debug)]
pub struct SubmissionRef {
    pub aid: Option<u64>,
    pub bvid: Option<String>,
}

/// What a submission is made of.
#[derive(Debug)]
pub struct SubmissionMeta {
    pub title: String,
    pub description: String,
    pub tag: String,
    pub source: String,
    pub tid: u16,
    pub only_self: bool,
}

/// The identifier by which a submission is asked for.
#[derive(Debug)]
pub enum Vid {
    Aid(u64),
    Bvid(String),
}

/// Whether `r` is the video that a submission refers to.
pub open spec fn is_vid(reference: SubmissionRef, r: Result<Vid, String>) -> bool {
    match reference.aid {
        Some(aid) => r == Ok::<Vid, String>(Vid::Aid(aid)),
        None => match reference.bvid {
            Some(bvid) => r == Ok::<Vid, String>(Vid::Bvid(bvid)),
            None => r matches Err(m) && m@
                == "B站投稿成功响应中没有 aid/bvid；无法安全确认，保留本地文件。"@,
        },
    }
}

/// The identifier by which a submission is asked for: the number, or else the name.
pub fn as_vid(reference: &SubmissionRef) -> (r: Result<Vid, String>)
    ensures
        is_vid(*reference, r),
{
    if let Some(aid) = reference.aid {
        return Ok(Vid::Aid(aid));
    }
    if let Some(bvid) = &reference.bvid {
        return Ok(Vid::Bvid(bvid.clone()));
    }
    Err("B站投稿成功响应中没有 aid/bvid；无法安全确认，保留本地文件。".to_owned())
}

/// The identifier by which the submission of a session is read before a part is appended: its
/// name, or its number where it has none.
pub fn append_vid(aid: u64, bvid: Option<&str>) -> (r: Vid)
    ensures
        match bvid {
            Some(b) if b@.len() > 0 => r matches Vid::Bvid(v) && v@ == b@,
            _ => r == Vid::Aid(aid),
        },
{
    match bvid {
        Some(bvid) => if bvid.is_empty() {
            Vid::Aid(aid)
        } else {
            Vid::Bvid(bvid.to_owned())
        },
        None => Vid::Aid(aid),
    }
}

/// A text of at most `max` characters: the text itself, or its beginning and three dots.
pub open spec fn truncated(input: Seq<char>, max: nat) -> Seq<char> {
    if input.len() <= max {
        input
    } else {
        prefix_of(
            input,
            if max < 3 {
                0
            } else {
                (max - 3) as nat
            },
        ) + "..."@
    }
}

/// Shortens a text to at most `max` characters, dots included.
pub fn truncate(input: &str, max: usize) -> (r: String)
    ensures
        r@ == truncated(input@, max as nat),
{
    if to_chars(input).len() <= max {
        return input.to_owned();
    }
    let kept = take_chars(input, max.saturating_sub(3));
    concat(kept.as_str(), "...")
}

/// A shortened text has no more characters than were asked for, unless not even the dots fit.
pub proof fn law_truncated_fits(input: Seq<char>, max: nat)
    requires
        max >= 3,
    ensures
        truncated(input, max).len() <= max,
{
    reveal_strlit("...");
}

/// The fields of a submission.
#[derive(Debug)]
pub struct SubmissionFields {
    pub copyright: u8,
    pub source: String,
    pub tid: u16,
    pub title: String,
    pub desc: String,
    pub tag: String,
    /// Whether only the account itself sees the submission; nothing leaves it to the service.
    pub is_only_self: Option<u8>,
}

/// The fields of a submission with this description: a repost, with a title of at most eighty
/// characters.
pub open spec fn describes(meta: SubmissionMeta, fields: SubmissionFields) -> bool {
    &&& fields.copyright == 2
    &&& fields.source@ == meta.source@
    &&& fields.tid == meta.tid
    &&& fields.title@ == truncated(meta.title@, 80)
    &&& fields.desc@ == meta.description@
    &&& fields.tag@ == meta.tag@
    &&& fields.is_only_self == Some(
        if meta.only_self {
            1u8
        } else {
            0u8
        },
    )
}

/// The fields of a submission with this description.
pub fn make_studio(meta: &SubmissionMeta) -> (r: SubmissionFields)
    ensures
        describes(*meta, r),
{
    SubmissionFields {
        copyright: 2,
        source: meta.source.clone(),
        tid: meta.tid,
        title: truncate(meta.title.as_str(), 80),
        desc: meta.description.clone(),
        tag: meta.tag.clone(),
        is_only_self: Some(
            if meta.only_self {
                1
            } else {
                0
            },
        ),
    }
}

/// The fields that a first part is submitted with. A submission without a category is refused.
pub fn submit_first_part(meta: &SubmissionMeta) -> (r: Result<SubmissionFields, String>)
    ensures
        if meta.tid == 0 {
            r matches Err(m) && m@ == "B站投稿分区尚未设置。"@
        } else {
            r matches Ok(fields) && describes(*meta, fields)
        },
{
    if meta.tid == 0 {
        return Err("B站投稿分区尚未设置。".to_owned());
    }
    Ok(make_studio(meta))
}

/// The category of the submissions of live sessions.
pub const LIVE_REPLAY_TID: u16 = 171;

/// The submission of a live session.
#[derive(Debug)]
pub struct LiveReplayStudio {
    pub fields: SubmissionFields,
    pub cover: String,
    pub desc_format_id: u32,
    pub dynamic: String,
    pub open_subtitle: bool,
    pub interactive: u8,
    pub dolby: u8,
    pub lossless_music: u8,
    pub no_reprint: u8,
    pub charging_pay: u8,
    pub up_selection_reply: bool,
    pub up_close_reply: bool,
    pub up_close_danmu: bool,
}

/// The submission of a live session: a repost of its room, with everything else left plain.
pub fn build_live_replay_studio(
    title: &str,
    room_url: &str,
    description: &str,
    only_self: bool,
) -> (r: LiveReplayStudio)
    ensures
        r.fields.copyright == 2,
        r.fields.source@ == room_url@,
        r.fields.tid == LIVE_REPLAY_TID,
        r.fields.title@ == title@,
        r.fields.desc@ == description@,
        r.fields.tag@ == "直播回放"@,
        r.fields.is_only_self == if only_self {
            Some(1u8)
        } else {
            None
        },
        r.cover@ == ""@ && r.dynamic@ == ""@,
        r.desc_format_id == 0 && r.interactive == 0,
        r.dolby == 0 && r.lossless_music == 0 && r.no_reprint == 0 && r.charging_pay == 0,
        !r.open_subtitle && !r.up_selection_reply && !r.up_close_reply && !r.up_close_danmu,
{
    LiveReplayStudio {
        fields: SubmissionFields {
            copyright: 2,
            source: room_url.to_owned(),
            tid: LIVE_REPLAY_TID,
            title: title.to_owned(),
            desc: description.to_owned(),
            tag: "直播回放".to_owned(),
            is_only_self: if only_self {
                Some(1)
            } else {
                None
            },
        },
        cover: "".to_owned(),
        desc_format_id: 0,
        dynamic: "".to_owned(),
        open_subtitle: false,
        interactive: 0,
        dolby: 0,
        lossless_music: 0,
        no_reprint: 0,
        charging_pay: 0,
        up_selection_reply: false,
        up_close_reply: false,
        up_close_danmu: false,
    }
}

/// Checks that the service has one part more than before.
pub fn check_appended(before: usize, after: usize) -> (r: Result<(), String>)
    ensures
        r is Ok <==> after > before,
        r matches Err(m) ==> m@ == "B站接口返回成功，但远端分P数量没有增加；本地文件将保留。"@,
{
    if after <= before {
        return Err("B站接口返回成功，但远端分P数量没有增加；本地文件将保留。".to_owned());
    }
    Ok(())
}

/// The name of the account in an answer about it. `code` is the number of the answer, `name` the
/// name in it, `shown` the whole of it.
pub fn account_name_of(code: Option<u64>, name: Option<String>, shown: &str) -> (r: Result<
    String,
    String,
>)
    ensures
        if code == Some(0u64) {
            r matches Ok(n) && n@ == match name {
                Some(given) => given@,
                None => "已登录账号"@,
            }
        } else {
            r matches Err(m) && m@ == "B站登录状态无效: "@ + shown@
        },
{
    let valid = match code {
        Some(code) => code == 0,
        None => false,
    };
    if !valid {
        return Err(concat("B站登录状态无效: ", shown));
    }
    match name {
        Some(name) => Ok(name),
        None => Ok("已登录账号".to_owned()),
    }
}

/// Reads the name of the account from an answer about it, or why the login is not valid.
pub fn validate_bilibili_login(info: &str, shown: &str) -> (r: Result<String, String>)
    ensures
        if json_member_number(info@, "code"@) == Some(0u64) {
            r matches Ok(n) && n@ == match json_inner_text(info@, "data"@, "name"@) {
                Some(given) => given,
                None => "已登录账号"@,
            }
        } else {
            r matches Err(m) && m@ == "B站登录状态无效: "@ + shown@
        },
{
    account_name_of(json_u64_member(info, "code"), json_string_inner(info, "data", "name"), shown)
}

/// The identifiers in the data of the answer to a first submission; without data there are none.
pub fn first_submission(data: Option<&str>) -> (r: SubmissionRef)
    ensures
        r.aid == match data {
            Some(d) => json_member_number(d@, "aid"@),
            None => None,
        },
        opt_text(r.bvid) == match data {
            Some(d) => json_member_text(d@, "bvid"@),
            None => None,
        },
{
    match data {
        Some(data) => SubmissionRef {
            aid: json_u64_member(data, "aid"),
            bvid: json_string_member(data, "bvid"),
        },
        None => SubmissionRef { aid: None, bvid: None },
    }
}

/// The submission that an answer names. Without a number it is not known whether there is one.
pub fn created_submission(aid: Option<u64>, bvid: Option<String>, shown: &str) -> (r: Result<
    BilibiliSubmissionRef,
    String,
>)
    ensures
        match aid {
            Some(n) => r == Ok::<BilibiliSubmissionRef, String>(
                BilibiliSubmissionRef { aid: n, bvid },
            ),
            None => r matches Err(m) && m@ == "B站投稿响应缺少 aid，状态不明确: "@ + shown@,
        },
{
    match aid {
        Some(aid) => Ok(BilibiliSubmissionRef { aid, bvid }),
        None => Err(concat("B站投稿响应缺少 aid，状态不明确: ", shown)),
    }
}

/// Reads the submission from the data of the answer to its creation.
pub fn create_submission(data: Option<&str>) -> (r: Result<BilibiliSubmissionRef, String>)
    ensures
        match data {
            None => r matches Err(m) && m@ == "B站投稿成功响应缺少 data，状态不明确。"@,
            Some(d) => match json_member_number(d@, "aid"@) {
                Some(n) => r matches Ok(s) && s.aid == n && opt_text(s.bvid) == json_member_text(
                    d@,
                    "bvid"@,
                ),
                None => r matches Err(m) && m@ == "B站投稿响应缺少 aid，状态不明确: "@ + d@,
            },
        },
{
    match data {
        None => Err("B站投稿成功响应缺少 data，状态不明确。".to_owned()),
        Some(data) => created_submission(
            json_u64_member(data, "aid"),
            json_string_member(data, "bvid"),
            data,
        ),
    }
}

/// A text that fits is left alone; a longer one begins as it did and ends with an ellipsis.
pub proof fn law_truncated(input: Seq<char>, max: nat)
    ensures
        input.len() <= max ==> truncated(input, max) == input,
        input.len() > max && max >= 3 ==> truncated(input, max).len() == max && input.take(
            max - 3,
        ).is_prefix_of(truncated(input, max)) && "..."@.is_suffix_of(truncated(input, max)),
{
    reveal_strlit("...");
    if input.len() > max && max >= 3 {
        let t = truncated(input, max);
        assert(t.take(max - 3) =~= input.take(max - 3));
        assert(t.skip(t.len() - 3) =~= "..."@);
    }
}

/// A submission says of a broadcast what was given of it, as a reprint; only the title may be cut.
pub proof fn law_submission_says_what_was_given(meta: SubmissionMeta, fields: SubmissionFields)
    requires
        describes(meta, fields),
    ensures
        fields.copyright == 2,
        fields.source@ == meta.source@,
        fields.tid == meta.tid,
        fields.desc@ == meta.description@,
        fields.tag@ == meta.tag@,
        fields.title@.len() <= 80,
        meta.title@.len() <= 80 ==> fields.title@ == meta.title@,
        meta.only_self <==> fields.is_only_self == Some(1u8),
        !meta.only_self <==> fields.is_only_self == Some(0u8),
{
    law_truncated(meta.title@, 80);
    law_truncated_fits(meta.title@, 80);
}

/// A submission is referred to by its number where it has one, and else by its name; without either
/// nothing can be said of it.
pub proof fn law_submissions_are_referred_to(reference: SubmissionRef, r: Result<Vid, String>)
    requires
        is_vid(reference, r),
    ensures
        r is Ok <==> reference.aid is Some || reference.bvid is Some,
        r matches Ok(Vid::Aid(n)) ==> reference.aid == Some(n),
        r matches Ok(Vid::Bvid(b)) ==> reference.aid is None && reference.bvid == Some(b),
{
}

} // verus!
