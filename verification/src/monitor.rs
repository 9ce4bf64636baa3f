//! The rooms that are watched: which there are, and what is done about each when it is looked at.

use crate::clock::{format_id, id_text, now_millis, now_seconds, IdCounter, MAX_TIMESTAMP};
use crate::lists::{first_index, law_filtered_members, lemma_first_index};
use crate::text::{
    find_from, law_found_where_it_occurs, lower, lowered, occurs_at, opt_text, same, split_once,
    starts_with, trim, trimmed,
};
use vstd::prelude::*;

verus! {

/// Pause between two rounds of looking at all rooms.
pub const MONITOR_INTERVAL_SECS: u64 = 20;

/// A room that is watched.
#[derive(Debug)]
pub struct MonitorTarget {
    pub id: String,
    pub url: String,
    pub name: String,
    pub enabled: bool,
    pub last_state: String,
    pub last_error: Option<String>,
    pub last_checked_at: Option<i64>,
}

impl Clone for MonitorTarget {
    fn clone(&self) -> (r: Self)
        ensures
            r == *self,
    {
        MonitorTarget {
            id: self.id.clone(),
            url: self.url.clone(),
            name: self.name.clone(),
            enabled: self.enabled,
            last_state: self.last_state.clone(),
            last_error: match &self.last_error {
                Some(error) => Some(error.clone()),
                None => None,
            },
            last_checked_at: self.last_checked_at,
        }
    }
}

/// What a watched room is.
#[verifier::ext_equal]
pub struct TargetModel {
    pub id: Seq<char>,
    pub url: Seq<char>,
    pub name: Seq<char>,
    pub enabled: bool,
    pub last_state: Seq<char>,
    pub last_error: Option<Seq<char>>,
    pub last_checked_at: Option<i64>,
}

impl View for MonitorTarget {
    type V = TargetModel;

    open spec fn view(&self) -> TargetModel {
        TargetModel {
            id: self.id@,
            url: self.url@,
            name: self.name@,
            enabled: self.enabled,
            last_state: self.last_state@,
            last_error: opt_text(self.last_error),
            last_checked_at: self.last_checked_at,
        }
    }
}

/// What watched rooms are.
pub open spec fn target_models(targets: Seq<MonitorTarget>) -> Seq<TargetModel> {
    targets.map_values(|t: MonitorTarget| t@)
}

/// The rooms that are watched.
#[derive(Debug)]
pub struct MonitorStore {
    pub targets: Vec<MonitorTarget>,
}

impl Default for MonitorStore {
    fn default() -> (r: Self)
        ensures
            r.targets@.len() == 0,
    {
        MonitorStore { targets: Vec::new() }
    }
}

/// `s` holds `p` somewhere.
pub open spec fn contains(s: Seq<char>, p: Seq<char>) -> bool {
    find_from(s, p, 0) >= 0
}

fn text_contains(s: &str, p: &str) -> (r: bool)
    ensures
        r == contains(s@, p@),
{
    split_once(s, p).is_some()
}

/// Why a room cannot be watched, if it cannot.
pub open spec fn url_fault(url: Seq<char>) -> Option<Seq<char>> {
    let lower = lowered(url);
    if !contains(lower, "bilibili.com"@) && !contains(lower, "douyin.com"@) {
        Some("当前录制源只支持 B站和抖音直播间地址。"@)
    } else if !"http://"@.is_prefix_of(lower) && !"https://"@.is_prefix_of(lower) {
        Some("请输入完整的 http/https 直播间地址。"@)
    } else {
        None
    }
}

/// Checks the address of a room.
pub fn validate_url(url: &str) -> (r: Result<(), String>)
    ensures
        match url_fault(url@) {
            Some(m) => r matches Err(e) && e@ == m,
            None => r is Ok,
        },
{
    let lower = lower(url);
    if !(text_contains(lower.as_str(), "bilibili.com") || text_contains(
        lower.as_str(),
        "douyin.com",
    )) {
        return Err("当前录制源只支持 B站和抖音直播间地址。".to_owned());
    }
    if !(starts_with(lower.as_str(), "http://") || starts_with(lower.as_str(), "https://")) {
        return Err("请输入完整的 http/https 直播间地址。".to_owned());
    }
    Ok(())
}

/// Some watched room has this address.
pub open spec fn is_watched(targets: Seq<TargetModel>, url: Seq<char>) -> bool {
    exists|i: int| 0 <= i < targets.len() && (#[trigger] targets[i]).url == url
}

/// A room that is newly watched.
pub open spec fn new_target(id: Seq<char>, url: Seq<char>, name: Option<Seq<char>>) -> TargetModel {
    let given = match name {
        Some(n) => trimmed(n),
        None => ""@,
    };
    TargetModel {
        id,
        url,
        name: if given.len() == 0 {
            "Live Replay"@
        } else {
            given
        },
        enabled: true,
        last_state: "正在检测"@,
        last_error: None,
        last_checked_at: None,
    }
}

/// Why a room cannot be added, if it cannot.
pub open spec fn add_fault(targets: Seq<TargetModel>, url: Seq<char>) -> Option<Seq<char>> {
    match url_fault(trimmed(url)) {
        Some(m) => Some(m),
        None => if is_watched(targets, trimmed(url)) {
            Some("这个直播间已经在监控列表里。"@)
        } else {
            None
        },
    }
}

/// What adding a room leads to: `added` are the rooms afterwards, or the refusal.
pub open spec fn is_added(
    targets: Seq<TargetModel>,
    id: Seq<char>,
    url: Seq<char>,
    name: Option<Seq<char>>,
    after: Seq<TargetModel>,
    result: Result<MonitorTarget, String>,
) -> bool {
    match add_fault(targets, url) {
        Some(m) => (result matches Err(e) && e@ == m) && after == targets,
        None => {
            let target = new_target(id, trimmed(url), name);
            (result matches Ok(t) && t@ == target) && after == targets.push(target)
        },
    }
}

impl MonitorStore {
    fn watches(&self, url: &str) -> (r: bool)
        ensures
            r == is_watched(target_models(self.targets@), url@),
    {
        let ghost models = target_models(self.targets@);
        let mut i: usize = 0;
        while i < self.targets.len()
            invariant
                i <= self.targets.len(),
                models == target_models(self.targets@),
                forall|k: int| 0 <= k < i ==> (#[trigger] models[k]).url != url@,
            decreases self.targets.len() - i,
        {
            assert(models[i as int] == self.targets@[i as int]@);
            if same(self.targets[i].url.as_str(), url) {
                return true;
            }
            i = i + 1;
        }
        false
    }

    /// The address under which a room may be added, or why it may not.
    fn check_address(&self, url: &str) -> (r: Result<String, String>)
        ensures
            match add_fault(target_models(self.targets@), url@) {
                Some(m) => r matches Err(e) && e@ == m,
                None => r matches Ok(address) && address@ == trimmed(url@),
            },
    {
        let url = trim(url);
        match validate_url(url.as_str()) {
            Ok(_) => {},
            Err(error) => {
                return Err(error);
            },
        }
        if self.watches(url.as_str()) {
            return Err("这个直播间已经在监控列表里。".to_owned());
        }
        Ok(url)
    }

    /// Adds a room under the identifier `id`. It has to be looked at right away.
    pub fn add_at(&mut self, id: String, url: &str, name: Option<String>) -> (r: Result<
        MonitorTarget,
        String,
    >)
        ensures
            is_added(
                target_models(old(self).targets@),
                id@,
                url@,
                opt_text(name),
                target_models(final(self).targets@),
                r,
            ),
    {
        proof {
            reveal_strlit("");
        }
        let url = match self.check_address(url) {
            Ok(url) => url,
            Err(error) => {
                return Err(error);
            },
        };
        let given = match name {
            Some(name) => trim(name.as_str()),
            None => "".to_owned(),
        };
        let display_name = if given.as_str().is_empty() {
            "Live Replay".to_owned()
        } else {
            given
        };
        let target = MonitorTarget {
            id,
            url,
            name: display_name,
            enabled: true,
            last_state: "正在检测".to_owned(),
            last_error: None,
            last_checked_at: None,
        };
        let ghost before = target_models(self.targets@);
        let copy = target.clone();
        self.targets.push(target);
        assert(target_models(self.targets@) =~= before.push(copy@));
        Ok(copy)
    }

    /// Adds a room. It has to be looked at right away. A number is drawn only for a room that is
    /// added.
    pub fn add_target(&mut self, counter: &mut IdCounter, url: &str, name: Option<String>) -> (r:
        Result<MonitorTarget, String>)
        ensures
            exists|millis: int|
                0 <= millis < MAX_TIMESTAMP * 1000 && #[trigger] is_added(
                    target_models(old(self).targets@),
                    id_text("monitor"@, millis, old(counter).next as nat),
                    url@,
                    opt_text(name),
                    target_models(final(self).targets@),
                    r,
                ),
            match add_fault(target_models(old(self).targets@), url@) {
                Some(_) => *final(counter) == *old(counter),
                None => final(counter).next == (old(counter).next + 1) % 0x1_0000_0000_0000_0000,
            },
    {
        if let Err(error) = self.check_address(url) {
            assert(is_added(
                target_models(old(self).targets@),
                id_text("monitor"@, 0, old(counter).next as nat),
                url@,
                opt_text(name),
                target_models(self.targets@),
                Err(error),
            ));
            return Err(error);
        }
        let number: u64 = counter.take();
        let millis: i64 = now_millis();
        let id = format_id("monitor", millis, number);
        assert(id@ == id_text("monitor"@, millis as int, old(counter).next as nat));
        self.add_at(id, url, name)
    }
}

/// A room after it was switched on or off.
pub open spec fn switched(target: TargetModel, enabled: bool) -> TargetModel {
    TargetModel {
        enabled,
        last_state: if enabled {
            "正在检测"@
        } else {
            "已暂停"@
        },
        last_error: None,
        ..target
    }
}

/// A room after a look at it.
pub open spec fn checked_as(
    target: TargetModel,
    state: Seq<char>,
    error: Option<Seq<char>>,
    now: i64,
) -> TargetModel {
    TargetModel {
        last_state: state,
        last_error: error,
        last_checked_at: Some(now),
        ..target
    }
}

/// The predicate of being another room.
pub open spec fn is_other_target(id: Seq<char>) -> spec_fn(MonitorTarget) -> bool {
    |t: MonitorTarget| t.id@ != id
}

/// The predicate of being the room `id`.
pub open spec fn is_target(id: Seq<char>) -> spec_fn(MonitorTarget) -> bool {
    |t: MonitorTarget| t.id@ == id
}

proof fn lemma_filter_len<T>(s: Seq<T>, p: spec_fn(T) -> bool)
    ensures
        s.filter(p).len() <= s.len(),
        s.filter(p).len() == s.len() <==> forall|i: int| 0 <= i < s.len() ==> p(#[trigger] s[i]),
    decreases s.len(),
{
    reveal(Seq::filter);
    if s.len() > 0 {
        let rest = s.drop_last();
        lemma_filter_len(rest, p);
        if s.filter(p).len() == s.len() {
            assert(p(s.last()));
            assert forall|i: int| 0 <= i < s.len() implies p(#[trigger] s[i]) by {
                if i < s.len() - 1 {
                    assert(s[i] == rest[i]);
                }
            }
        }
        if forall|i: int| 0 <= i < s.len() ==> p(#[trigger] s[i]) {
            assert(p(s[s.len() - 1]));
            assert forall|i: int| 0 <= i < rest.len() implies p(#[trigger] rest[i]) by {
                assert(rest[i] == s[i]);
            }
        }
    }
}

impl MonitorStore {
    /// Takes a room off the list.
    pub fn remove_target(&mut self, id: &str) -> (r: Result<(), String>)
        ensures
            final(self).targets@ == old(self).targets@.filter(is_other_target(id@)),
            r is Ok <==> exists|i: int|
                0 <= i < old(self).targets@.len() && is_target(id@)(
                    #[trigger] old(self).targets@[i],
                ),
            r matches Err(m) ==> m@ == "监控任务不存在。"@,
    {
        let ghost all = self.targets@;
        let ghost keep = is_other_target(id@);
        let ghost mut read: int = 0;
        let before: usize = self.targets.len();
        let mut i: usize = 0;
        proof {
            reveal(Seq::filter);
            assert(all.take(0) =~= Seq::empty());
            assert(all.take(0).filter(keep) + all.skip(0) =~= all);
        }
        while i < self.targets.len()
            invariant
                i <= self.targets.len(),
                keep == is_other_target(id@),
                0 <= read <= all.len(),
                all.take(read).filter(keep).len() == i,
                self.targets@ == all.take(read).filter(keep) + all.skip(read),
            decreases self.targets.len() - i,
        {
            proof {
                reveal(Seq::filter);
                assert(all.take(read + 1).drop_last() =~= all.take(read));
                assert(all.take(read + 1).last() == all[read]);
                assert(self.targets@[i as int] == all[read]);
            }
            if same(self.targets[i].id.as_str(), id) {
                self.targets.remove(i);
                assert(self.targets@ =~= all.take(read + 1).filter(keep) + all.skip(read + 1));
            } else {
                i = i + 1;
                assert(self.targets@ =~= all.take(read + 1).filter(keep) + all.skip(read + 1));
            }
            proof {
                read = read + 1;
            }
        }
        proof {
            assert(all.take(read) =~= all);
            assert(self.targets@ =~= all.filter(keep));
            lemma_filter_len(all, keep);
        }
        if self.targets.len() == before {
            assert(forall|k: int| 0 <= k < all.len() ==> keep(#[trigger] all[k]));
            return Err("监控任务不存在。".to_owned());
        }
        proof {
            let k = choose|k: int| 0 <= k < all.len() && !keep(#[trigger] all[k]);
            assert(is_target(id@)(all[k]));
        }
        Ok(())
    }

    fn find(&self, id: &str) -> (r: usize)
        ensures
            r == first_index(self.targets@, is_target(id@)),
            r <= self.targets@.len(),
    {
        let mut i: usize = 0;
        while i < self.targets.len() && !same(self.targets[i].id.as_str(), id)
            invariant
                i <= self.targets.len(),
                forall|k: int| 0 <= k < i ==> !is_target(id@)(#[trigger] self.targets@[k]),
            decreases self.targets.len() - i,
        {
            i = i + 1;
        }
        proof {
            lemma_first_index(self.targets@, is_target(id@), i as int);
        }
        i
    }

    /// Switches the watch on a room on or off. A room that is switched on has to be looked at right
    /// away.
    pub fn set_enabled(&mut self, id: &str, enabled: bool) -> (r: Result<MonitorTarget, String>)
        ensures
            ({
                let k = first_index(old(self).targets@, is_target(id@));
                if k >= old(self).targets@.len() {
                    (r matches Err(m) && m@ == "监控任务不存在。"@) && final(self).targets@
                        == old(self).targets@
                } else {
                    &&& r matches Ok(t) && t == final(self).targets@[k]
                    &&& final(self).targets@ == old(self).targets@.update(
                        k,
                        final(self).targets@[k],
                    )
                    &&& final(self).targets@[k]@ == switched(old(self).targets@[k]@, enabled)
                }
            }),
    {
        let k: usize = self.find(id);
        if k >= self.targets.len() {
            return Err("监控任务不存在。".to_owned());
        }
        let target = &mut self.targets[k];
        target.enabled = enabled;
        target.last_state = if enabled {
            "正在检测".to_owned()
        } else {
            "已暂停".to_owned()
        };
        target.last_error = None;
        Ok(self.targets[k].clone())
    }

    /// Notes what was found out about a room at `now`. A room that is no longer watched is left
    /// out.
    pub fn update_target_state_at(
        &mut self,
        id: &str,
        state: &str,
        error: Option<String>,
        now: i64,
    )
        ensures
            ({
                let k = first_index(old(self).targets@, is_target(id@));
                if k >= old(self).targets@.len() {
                    final(self).targets@ == old(self).targets@
                } else {
                    &&& final(self).targets@ == old(self).targets@.update(
                        k,
                        final(self).targets@[k],
                    )
                    &&& final(self).targets@[k]@ == checked_as(
                        old(self).targets@[k]@,
                        state@,
                        opt_text(error),
                        now,
                    )
                }
            }),
    {
        let k: usize = self.find(id);
        if k < self.targets.len() {
            let target = &mut self.targets[k];
            target.last_state = state.to_owned();
            target.last_error = error;
            target.last_checked_at = Some(now);
        }
    }

    /// Notes what was found out about a room just now.
    pub fn update_target_state(&mut self, id: &str, state: &str, error: Option<String>)
        ensures
            ({
                let k = first_index(old(self).targets@, is_target(id@));
                if k >= old(self).targets@.len() {
                    final(self).targets@ == old(self).targets@
                } else {
                    &&& final(self).targets@ == old(self).targets@.update(
                        k,
                        final(self).targets@[k],
                    )
                    &&& final(self).targets@[k].last_checked_at matches Some(now) && 0 <= now
                        < MAX_TIMESTAMP && final(self).targets@[k]@ == checked_as(
                        old(self).targets@[k]@,
                        state@,
                        opt_text(error),
                        now,
                    )
                }
            }),
    {
        let now: i64 = now_seconds();
        self.update_target_state_at(id, state, error, now);
    }

    /// The rooms whose watch is switched on.
    pub fn enabled_targets(&self) -> (r: Vec<MonitorTarget>)
        ensures
            r@ == self.targets@.filter(|t: MonitorTarget| t.enabled),
    {
        let ghost all = self.targets@;
        let ghost keep = |t: MonitorTarget| t.enabled;
        let mut enabled: Vec<MonitorTarget> = Vec::new();
        let mut i: usize = 0;
        reveal(Seq::filter);
        assert(all.take(0) =~= Seq::empty());
        while i < self.targets.len()
            invariant
                i <= self.targets.len(),
                all == self.targets@,
                keep == (|t: MonitorTarget| t.enabled),
                enabled@ == all.take(i as int).filter(keep),
            decreases self.targets.len() - i,
        {
            proof {
                reveal(Seq::filter);
                assert(all.take(i + 1).drop_last() =~= all.take(i as int));
                assert(all.take(i + 1).last() == all[i as int]);
            }
            if self.targets[i].enabled {
                enabled.push(self.targets[i].clone());
            }
            i = i + 1;
        }
        assert(all.take(i as int) =~= all);
        enabled
    }
}

/// What happened while a room was looked at.
#[derive(Debug)]
pub enum MonitorEvent {
    /// It is known whether the room is being recorded.
    RecordingChecked { recording: bool },
    /// The room was asked whether it is live.
    Probed(Result<bool, String>),
    /// A recording was to be started.
    Started(Result<(), String>),
}

/// What is done next about a room.
#[derive(Clone, Copy, Debug, PartialEq, Eq, Structural)]
pub enum MonitorNext {
    /// Ask whether it is live.
    Probe,
    /// Record it.
    Start,
    /// Nothing.
    Done,
}

/// Whether a room is shown in the state `noted`, and `next` is done, after an event of a look at it.
pub open spec fn follows_check(
    event: MonitorEvent,
    noted: Option<(&'static str, Option<String>)>,
    next: MonitorNext,
) -> bool {
    match event {
        MonitorEvent::RecordingChecked { recording } => if recording {
            (noted matches Some((s, e)) && s@ == "正在录制"@ && e is None) && next
                == MonitorNext::Done
        } else {
            (noted matches Some((s, e)) && s@ == "正在检测"@ && e is None) && next
                == MonitorNext::Probe
        },
        MonitorEvent::Probed(Ok(live)) => if live {
            noted is None && next == MonitorNext::Start
        } else {
            (noted matches Some((s, e)) && s@ == "等待开播"@ && e is None) && next
                == MonitorNext::Done
        },
        MonitorEvent::Probed(Err(error)) => (noted matches Some((s, e)) && s@ == "检测失败"@ && e
            == Some(error)) && next == MonitorNext::Done,
        MonitorEvent::Started(Ok(_)) => (noted matches Some((s, e)) && s@ == "正在录制"@ && e
            is None) && next == MonitorNext::Done,
        MonitorEvent::Started(Err(error)) => (noted matches Some((s, e)) && s@
            == "启动录制失败"@ && e == Some(error)) && next == MonitorNext::Done,
    }
}

/// Decides what is noted about a room, and what is done next. A live room is recorded; nothing is
/// noted between finding it live and starting its recording, for which `None` stands.
pub fn on_monitor_event(event: MonitorEvent) -> (r: (Option<(&'static str, Option<String>)>,
    MonitorNext))
    ensures
        follows_check(event, r.0, r.1),
{
    match event {
        MonitorEvent::RecordingChecked { recording } => if recording {
            (Some(("正在录制", None)), MonitorNext::Done)
        } else {
            (Some(("正在检测", None)), MonitorNext::Probe)
        },
        MonitorEvent::Probed(result) => match result {
            Ok(live) => if live {
                (None, MonitorNext::Start)
            } else {
                (Some(("等待开播", None)), MonitorNext::Done)
            },
            Err(error) => (Some(("检测失败", Some(error))), MonitorNext::Done),
        },
        MonitorEvent::Started(result) => match result {
            Ok(_) => (Some(("正在录制", None)), MonitorNext::Done),
            Err(error) => (Some(("启动录制失败", Some(error))), MonitorNext::Done),
        },
    }
}

/// No two watched rooms have the same address, if none had before: adding a room keeps it so.
pub proof fn law_rooms_watched_once(
    targets: Seq<TargetModel>,
    id: Seq<char>,
    url: Seq<char>,
    name: Option<Seq<char>>,
    after: Seq<TargetModel>,
    result: Result<MonitorTarget, String>,
)
    requires
        is_added(targets, id, url, name, after, result),
        forall|i: int, j: int|
            0 <= i < j < targets.len() ==> (#[trigger] targets[i]).url != (
            #[trigger] targets[j]).url,
    ensures
        forall|i: int, j: int|
            0 <= i < j < after.len() ==> (#[trigger] after[i]).url != (#[trigger] after[j]).url,
{
    if after.len() > targets.len() {
        assert forall|i: int, j: int| 0 <= i < j < after.len() implies (#[trigger] after[i]).url
            != (#[trigger] after[j]).url by {
            if j < targets.len() {
                assert(targets[i].url != targets[j].url);
            } else {
                assert(targets[i].url != trimmed(url));
            }
        }
    }
}

/// A room that is added is watched from then on, under its address without the spaces around it and
/// the name it was given; the others are still watched. A room that cannot be watched, or is watched
/// already, changes nothing.
pub proof fn law_added_room_is_watched(
    targets: Seq<TargetModel>,
    id: Seq<char>,
    url: Seq<char>,
    name: Option<Seq<char>>,
    after: Seq<TargetModel>,
    result: Result<MonitorTarget, String>,
)
    requires
        is_added(targets, id, url, name, after, result),
    ensures
        targets.is_prefix_of(after),
        result is Err <==> after == targets,
        result matches Ok(t) ==> {
            &&& after.len() == targets.len() + 1
            &&& after.last() == t@
            &&& t@.id == id
            &&& t@.url == trimmed(url)
            &&& t@.enabled
            &&& t@.last_error is None && t@.last_checked_at is None
            &&& t@.name.len() > 0
            &&& name matches Some(n) ==> trimmed(n).len() > 0 ==> t@.name == trimmed(n)
            &&& is_watched(after, trimmed(url))
        },
        result is Ok <==> url_fault(trimmed(url)) is None && !(exists|i: int|
            0 <= i < targets.len() && (#[trigger] targets[i]).url == trimmed(url)),
{
    assert(after.take(targets.len() as int) =~= targets);
    reveal_strlit("Live Replay");
    if result is Ok {
        assert(after[targets.len() as int].url == trimmed(url));
    }
}

/// An address is taken where it names one of the two platforms, anywhere in it and in any case, and
/// begins with one of the two schemes.
pub proof fn law_addresses_that_can_be_watched(url: Seq<char>)
    ensures
        url_fault(url) is None <==> {
            &&& (exists|i: int| occurs_at(lowered(url), i, "bilibili.com"@)) || (exists|i: int|
                occurs_at(lowered(url), i, "douyin.com"@))
            &&& "http://"@.is_prefix_of(lowered(url)) || "https://"@.is_prefix_of(lowered(url))
        },
{
    law_found_where_it_occurs(lowered(url), "bilibili.com"@, 0);
    law_found_where_it_occurs(lowered(url), "douyin.com"@, 0);
}

/// Switching a room on or off, and a look at it, leave it the same room; a look does not switch it.
pub proof fn law_room_stays_the_same(
    target: TargetModel,
    enabled: bool,
    state: Seq<char>,
    error: Option<Seq<char>>,
    now: i64,
)
    ensures
        ({
            let after = switched(target, enabled);
            &&& after.id == target.id && after.url == target.url && after.name == target.name
            &&& after.enabled == enabled
            &&& after.last_checked_at == target.last_checked_at
            &&& after.last_error is None
            &&& switched(after, enabled) == after
        }),
        ({
            let after = checked_as(target, state, error, now);
            &&& after.id == target.id && after.url == target.url && after.name == target.name
            &&& after.enabled == target.enabled
            &&& after.last_state == state
            &&& after.last_error == error
            &&& after.last_checked_at == Some(now)
        }),
        switched(target, true).last_state != switched(target, false).last_state,
{
    reveal_strlit("正在检测");
    reveal_strlit("已暂停");
    assert("正在检测"@.len() != "已暂停"@.len());
}

/// A room is recorded once it is live and not recorded yet, and only then; a failure is noted.
pub proof fn law_live_rooms_are_recorded(
    event: MonitorEvent,
    noted: Option<(&'static str, Option<String>)>,
    next: MonitorNext,
)
    requires
        follows_check(event, noted, next),
    ensures
        next == MonitorNext::Start <==> (event matches MonitorEvent::Probed(result)
            && result matches Ok(live) && live),
        next == MonitorNext::Probe <==> (event matches MonitorEvent::RecordingChecked { recording }
            && !recording),
        event matches MonitorEvent::Probed(Err(error)) ==> (noted matches Some((_, e)) && e == Some(
            error,
        )),
        event matches MonitorEvent::Started(Err(error)) ==> (noted matches Some((_, e)) && e
            == Some(error)),
        event matches MonitorEvent::Started(Ok(_)) ==> (noted matches Some((_, e)) && e is None),
        noted is None ==> next == MonitorNext::Start,
        noted matches Some((_, e)) ==> (e is Some <==> (event matches MonitorEvent::Probed(result)
            && result is Err) || (event matches MonitorEvent::Started(result) && result is Err)),
{
}

/// A removed room is gone; all others stay.
pub proof fn law_removed_room_is_gone(
    targets: Seq<MonitorTarget>,
    id: Seq<char>,
    other: MonitorTarget,
)
    ensures
        targets.filter(is_other_target(id)).contains(other) <==> targets.contains(other)
            && other.id@ != id,
        is_target(id)(other) <==> !is_other_target(id)(other),
{
    law_filtered_members(targets, is_other_target(id), other);
}

} // verus!
