//! The identity that the daemon returns, and the context that a caller sends.
use vstd::prelude::*;

use crate::json::{
    find_member, members_view, member, object_members_of, optional_u64_of, parse_object,
    parse_optional_u64, parse_u32, parse_string, string_literal_of, string_of, text_is, u32_of,
    write_string, check_json_value, is_json_value, keys_unique, well_formed_members,
};
use crate::error::GetMyIdError;

verus! {

/// Process and host details injected by the daemon, with the context that
/// the caller sent.
#[derive(Debug, Clone, PartialEq, Eq, Default)]
pub struct Runner {
    /// Application-level identity name.
    pub identity: String,
    /// Hostname where the process runs.
    pub hostname: String,
    /// Process name.
    pub process: String,
    /// Process ID.
    pub pid: u32,
    /// User ID.
    pub uid: u32,
    /// Group ID.
    pub gid: u32,
    /// Instance identifier sent by the caller, if the daemon returned one.
    pub instance_id: Option<u64>,
    /// Timestamp sent by the caller, if the daemon returned one.
    pub timestamp: Option<u64>,
    /// Every other member, as its key and the JSON text of its value.
    pub extra: Vec<(String, String)>,
}

impl Runner {
    /// The runner's invariant as decoding leaves it: its extra members have
    /// unique keys, and each value is the text of one JSON value.
    pub open spec fn wf(&self) -> bool {
        well_formed_members(members_view(self.extra@))
    }
}

/// A `Runner` as plain values.
pub struct RunnerView {
    pub identity: Seq<char>,
    pub hostname: Seq<char>,
    pub process: Seq<char>,
    pub pid: u32,
    pub uid: u32,
    pub gid: u32,
    pub instance_id: Option<u64>,
    pub timestamp: Option<u64>,
    pub extra: Seq<(Seq<char>, Seq<char>)>,
}

impl View for Runner {
    type V = RunnerView;

    open spec fn view(&self) -> RunnerView {
        RunnerView {
            identity: self.identity@,
            hostname: self.hostname@,
            process: self.process@,
            pid: self.pid,
            uid: self.uid,
            gid: self.gid,
            instance_id: self.instance_id,
            timestamp: self.timestamp,
            extra: members_view(self.extra@),
        }
    }
}

/// The members of a runner object that have a field of their own.
pub open spec fn is_runner_key(k: Seq<char>) -> bool {
    ||| k == "identity"@
    ||| k == "hostname"@
    ||| k == "process"@
    ||| k == "pid"@
    ||| k == "uid"@
    ||| k == "gid"@
    ||| k == "instance_id"@
    ||| k == "timestamp"@
}

/// The members without a field of their own, in order.
pub open spec fn extra_members(ms: Seq<(Seq<char>, Seq<char>)>) -> Seq<(Seq<char>, Seq<char>)>
    decreases ms.len(),
{
    if ms.len() == 0 {
        Seq::empty()
    } else {
        let rest = extra_members(ms.drop_last());
        if is_runner_key(ms.last().0) {
            rest
        } else {
            rest.push(ms.last())
        }
    }
}

/// A string member that may be absent (then empty).
pub open spec fn string_or_empty(ms: Seq<(Seq<char>, Seq<char>)>, key: Seq<char>) -> Option<Seq<char>> {
    match member(ms, key) {
        Some(raw) => string_of(raw),
        None => Some(Seq::empty()),
    }
}

/// An integer member that may be absent (then zero).
pub open spec fn u32_or_zero(ms: Seq<(Seq<char>, Seq<char>)>, key: Seq<char>) -> Option<u32> {
    match member(ms, key) {
        Some(raw) => u32_of(raw),
        None => Some(0),
    }
}

/// An optional integer member; absent reads as `None`.
pub open spec fn optional_u64_member(ms: Seq<(Seq<char>, Seq<char>)>, key: Seq<char>) -> Option<Option<u64>> {
    match member(ms, key) {
        Some(raw) => optional_u64_of(raw),
        None => Some(None),
    }
}

/// The runner that the members of a runner object describe, or `None` where
/// a member with a field of its own holds a value of the wrong kind.
pub open spec fn runner_from_members(ms: Seq<(Seq<char>, Seq<char>)>) -> Option<RunnerView> {
    match (
        string_or_empty(ms, "identity"@),
        string_or_empty(ms, "hostname"@),
        string_or_empty(ms, "process"@),
        u32_or_zero(ms, "pid"@),
        u32_or_zero(ms, "uid"@),
        u32_or_zero(ms, "gid"@),
        optional_u64_member(ms, "instance_id"@),
        optional_u64_member(ms, "timestamp"@),
    ) {
        (Some(identity), Some(hostname), Some(process), Some(pid), Some(uid), Some(gid), Some(
            instance_id,
        ), Some(timestamp)) => Some(
            RunnerView {
                identity,
                hostname,
                process,
                pid,
                uid,
                gid,
                instance_id,
                timestamp,
                extra: extra_members(ms),
            },
        ),
        _ => None,
    }
}

/// The runner that the JSON text of a runner object describes.
pub open spec fn runner_of(text: Seq<char>) -> Option<RunnerView> {
    match object_members_of(text) {
        Some(ms) => runner_from_members(ms),
        None => None,
    }
}

fn string_or_empty_member(ms: &Vec<(String, String)>, key: &str) -> (r: Option<String>)
    ensures
        match r {
            Some(s) => string_or_empty(members_view(ms@), key@) == Some(s@),
            None => string_or_empty(members_view(ms@), key@) is None,
        },
{
    match find_member(ms, key) {
        Some(i) => match parse_string(ms[i].1.as_str()) {
            Ok(s) => Some(s),
            Err(_) => None,
        },
        None => Some(String::new()),
    }
}

fn u32_or_zero_member(ms: &Vec<(String, String)>, key: &str) -> (r: Option<u32>)
    ensures
        r == u32_or_zero(members_view(ms@), key@),
{
    match find_member(ms, key) {
        Some(i) => parse_u32(ms[i].1.as_str()),
        None => Some(0),
    }
}

fn optional_u64_of_member(ms: &Vec<(String, String)>, key: &str) -> (r: Option<Option<u64>>)
    ensures
        r == optional_u64_member(members_view(ms@), key@),
{
    match find_member(ms, key) {
        Some(i) => parse_optional_u64(ms[i].1.as_str()),
        None => Some(None),
    }
}

fn is_runner_key_exec(k: &String) -> (r: bool)
    ensures
        r == is_runner_key(k@),
{
    text_is(k, "identity") || text_is(k, "hostname") || text_is(k, "process") || text_is(k, "pid")
        || text_is(k, "uid") || text_is(k, "gid") || text_is(k, "instance_id") || text_is(
        k,
        "timestamp",
    )
}

fn collect_extra(ms: &Vec<(String, String)>) -> (r: Vec<(String, String)>)
    ensures
        members_view(r@) == extra_members(members_view(ms@)),
        well_formed_members(members_view(ms@)) ==> well_formed_members(members_view(r@)),
{
    let ghost mv = members_view(ms@);
    let mut out: Vec<(String, String)> = Vec::new();
    let mut i: usize = 0;
    assert(mv.subrange(0, 0) =~= Seq::<(Seq<char>, Seq<char>)>::empty());
    while i < ms.len()
        invariant
            i <= ms@.len(),
            mv == members_view(ms@),
            members_view(out@) == extra_members(mv.subrange(0, i as int)),
            well_formed_members(mv) ==> well_formed_members(members_view(out@)),
            forall|k: int|
                0 <= k < out@.len() ==> exists|j: int|
                    0 <= j < i && #[trigger] members_view(out@)[k] == mv[j],
        decreases ms@.len() - i,
    {
        let ghost before = out@;
        assert(mv.subrange(0, i + 1).drop_last() =~= mv.subrange(0, i as int));
        assert(mv.subrange(0, i + 1).last() == mv[i as int]);
        if !is_runner_key_exec(&ms[i].0) {
            let k = ms[i].0.clone();
            let v = ms[i].1.clone();
            out.push((k, v));
            let ghost bv = members_view(before);
            let ghost ov = members_view(out@);
            assert(ov =~= bv.push(mv[i as int]));
            assert forall|k2: int| 0 <= k2 < out@.len() implies exists|j: int|
                0 <= j < i + 1 && #[trigger] ov[k2] == mv[j] by {
                if k2 < bv.len() {
                    assert(ov[k2] == bv[k2]);
                    let j = choose|j: int| 0 <= j < i && #[trigger] bv[k2] == mv[j];
                    assert(ov[k2] == mv[j]);
                } else {
                    assert(ov[k2] == mv[i as int]);
                }
            }
            proof {
                if well_formed_members(mv) {
                    assert forall|a: int, b: int| 0 <= a < b < ov.len() implies ov[a].0 != ov[b].0 by {
                        if b == bv.len() {
                            assert(ov[a] == bv[a]);
                            let j = choose|j: int| 0 <= j < i && #[trigger] bv[a] == mv[j];
                            assert(mv[j].0 != mv[i as int].0);
                        } else {
                            assert(ov[a] == bv[a] && ov[b] == bv[b]);
                        }
                    }
                    assert forall|c: int| 0 <= c < ov.len() implies is_json_value(#[trigger] ov[c].1) by {
                        if c < bv.len() {
                            assert(ov[c] == bv[c]);
                        } else {
                            assert(ov[c] == mv[i as int]);
                        }
                    }
                }
            }
        }
        i = i + 1;
    }
    assert(mv.subrange(0, ms@.len() as int) =~= mv);
    out
}

/// Decodes a runner object from its JSON text.
pub fn parse_runner(text: &str) -> (r: Option<Runner>)
    ensures
        match r {
            Some(run) => runner_of(text@) == Some(run@) && run.wf(),
            None => runner_of(text@) is None,
        },
{
    let ms = match parse_object(text) {
        Ok(ms) => ms,
        Err(_) => return None,
    };
    let identity = match string_or_empty_member(&ms, "identity") {
        Some(s) => s,
        None => return None,
    };
    let hostname = match string_or_empty_member(&ms, "hostname") {
        Some(s) => s,
        None => return None,
    };
    let process = match string_or_empty_member(&ms, "process") {
        Some(s) => s,
        None => return None,
    };
    let pid = match u32_or_zero_member(&ms, "pid") {
        Some(n) => n,
        None => return None,
    };
    let uid = match u32_or_zero_member(&ms, "uid") {
        Some(n) => n,
        None => return None,
    };
    let gid = match u32_or_zero_member(&ms, "gid") {
        Some(n) => n,
        None => return None,
    };
    let instance_id = match optional_u64_of_member(&ms, "instance_id") {
        Some(n) => n,
        None => return None,
    };
    let timestamp = match optional_u64_of_member(&ms, "timestamp") {
        Some(n) => n,
        None => return None,
    };
    let extra = collect_extra(&ms);
    let run = Runner { identity, hostname, process, pid, uid, gid, instance_id, timestamp, extra };
    assert(run@ == runner_from_members(members_view(ms@)).unwrap());
    Some(run)
}

/// The identity that the daemon vouches for.
#[derive(Debug, Clone, PartialEq, Eq)]
pub struct Identity {
    /// Application-level identity name.
    pub identity: String,
    /// Identity-provider (OAuth2/OIDC) URL for this identity.
    pub idm_url: String,
    /// Configuration server URL for this identity.
    pub config_url: String,
    /// Authentication token for this identity.
    pub token: String,
    /// Process details and caller context, ready to hand to a config server.
    pub runner: Runner,
}

/// An `Identity` as plain values.
pub struct IdentityView {
    pub identity: Seq<char>,
    pub idm_url: Seq<char>,
    pub config_url: Seq<char>,
    pub token: Seq<char>,
    pub runner: RunnerView,
}

impl View for Identity {
    type V = IdentityView;

    open spec fn view(&self) -> IdentityView {
        IdentityView {
            identity: self.identity@,
            idm_url: self.idm_url@,
            config_url: self.config_url@,
            token: self.token@,
            runner: self.runner@,
        }
    }
}

/// Context that a caller sends along; the daemon merges it into the runner
/// that it returns.
#[derive(Debug, Clone, PartialEq, Eq, Default)]
pub struct RunnerRequest {
    /// Instance identifier for dynamic configuration routing.
    pub instance_id: Option<u64>,
    /// Timestamp for request tracking.
    pub timestamp: Option<u64>,
    /// Custom members, as each key with the JSON text of its value.
    pub extra: Vec<(String, String)>,
}

/// `ms` with the member `key` set to `value`: the first member of that name
/// takes the new value, or a new member goes at the end.
pub open spec fn put_member(
    ms: Seq<(Seq<char>, Seq<char>)>,
    key: Seq<char>,
    value: Seq<char>,
) -> Seq<(Seq<char>, Seq<char>)> {
    if exists|i: int| first_named(ms, key, i) {
        let i = choose|i: int| first_named(ms, key, i);
        ms.update(i, (key, value))
    } else {
        ms.push((key, value))
    }
}

/// `i` is the position of the first member named `key`.
pub open spec fn first_named(ms: Seq<(Seq<char>, Seq<char>)>, key: Seq<char>, i: int) -> bool {
    &&& 0 <= i < ms.len()
    &&& ms[i].0 == key
    &&& forall|j: int| 0 <= j < i ==> ms[j].0 != key
}

#[verifier::external_type_specification]
#[verifier::external_body]
pub struct ExSystemTime(std::time::SystemTime);

/// Relies on `SystemTime::now`: a reading of the system clock, of which
/// nothing is stated.
pub assume_specification[ std::time::SystemTime::now ]() -> std::time::SystemTime;

/// The whole seconds of a duration, as `Duration::as_secs` reads them.
pub uninterp spec fn secs_of(d: core::time::Duration) -> u64;

/// Relies on `Duration::as_secs`: the whole seconds depend on the duration alone.
pub assume_specification[ core::time::Duration::as_secs ](d: &core::time::Duration) -> (r: u64)
    ensures
        r == secs_of(*d),
;

/// The Unix timestamp for a clock reading given as its time since the epoch:
/// the whole seconds, or zero where the reading is before the epoch (`None`).
pub fn unix_timestamp(since_epoch: Option<core::time::Duration>) -> (r: u64)
    ensures
        r == match since_epoch {
            Some(d) => secs_of(d),
            None => 0,
        },
{
    match since_epoch {
        Some(d) => d.as_secs(),
        None => 0,
    }
}


/// Relies on `SystemTime::duration_since` from `UNIX_EPOCH`: the time since
/// the epoch, or `None` where the reading is earlier.
#[verifier::external_body]
fn since_unix_epoch(t: &std::time::SystemTime) -> (r: Option<core::time::Duration>) {
    t.duration_since(std::time::UNIX_EPOCH).ok()
}

impl RunnerRequest {
    /// The request's invariant: its custom members have unique keys, and each
    /// value is the text of one JSON value. Every builder keeps it.
    pub open spec fn wf(&self) -> bool {
        well_formed_members(members_view(self.extra@))
    }

    /// An empty request.
    pub fn new() -> (r: Self)
        ensures
            r.instance_id is None,
            r.timestamp is None,
            r.extra@.len() == 0,
            r.wf(),
    {
        RunnerRequest { instance_id: None, timestamp: None, extra: Vec::new() }
    }

    /// Sets the instance identifier.
    pub fn with_instance_id(self, id: u64) -> (r: Self)
        ensures
            r.instance_id == Some(id),
            r.timestamp == self.timestamp,
            r.extra@ == self.extra@,
            self.wf() ==> r.wf(),
    {
        let mut s = self;
        s.instance_id = Some(id);
        s
    }

    /// Sets the timestamp.
    pub fn with_timestamp(self, ts: u64) -> (r: Self)
        ensures
            r.instance_id == self.instance_id,
            r.timestamp == Some(ts),
            r.extra@ == self.extra@,
            self.wf() ==> r.wf(),
    {
        let mut s = self;
        s.timestamp = Some(ts);
        s
    }

    /// Sets the timestamp to the current Unix time in seconds (zero where the
    /// clock reads before the epoch).
    pub fn with_current_timestamp(self) -> (r: Self)
        ensures
            r.instance_id == self.instance_id,
            r.timestamp is Some,
            r.extra@ == self.extra@,
            self.wf() ==> r.wf(),
    {
        let reading = std::time::SystemTime::now();
        let now = unix_timestamp(since_unix_epoch(&reading));
        self.with_timestamp(now)
    }

    /// Sets a custom member to a string value.
    pub fn with_field(self, key: &str, value: &str) -> (r: Self)
        ensures
            r.instance_id == self.instance_id,
            r.timestamp == self.timestamp,
            members_view(r.extra@) == put_member(
                members_view(self.extra@),
                key@,
                string_literal_of(value@),
            ),
            self.wf() ==> r.wf(),
    {
        let text = match write_string(value) {
            Ok(t) => t,
            Err(_) => String::new(),
        };
        self.put_text(key, text)
    }

    /// Sets a custom member to any JSON value, given as its text; fails with
    /// `InvalidJson` where the text is not one JSON value.
    pub fn with_json_field(self, key: &str, value: &str) -> (r: Result<Self, GetMyIdError>)
        ensures
            r is Ok <==> is_json_value(value@),
            r matches Err(e) ==> e is InvalidJson,
            r matches Ok(s) ==> {
                &&& s.instance_id == self.instance_id
                &&& s.timestamp == self.timestamp
                &&& members_view(s.extra@) == put_member(members_view(self.extra@), key@, value@)
                &&& self.wf() ==> s.wf()
            },
    {
        match check_json_value(value) {
            Ok(()) => Ok(self.put_text(key, String::from_str(value))),
            Err(e) => Err(GetMyIdError::InvalidJson(e)),
        }
    }

    fn put_text(self, key: &str, text: String) -> (r: Self)
        ensures
            r.instance_id == self.instance_id,
            r.timestamp == self.timestamp,
            members_view(r.extra@) == put_member(members_view(self.extra@), key@, text@),
            self.wf() && is_json_value(text@) ==> r.wf(),
    {
        let ghost tv = text@;
        let mut s = self;
        let ghost before = members_view(s.extra@);
        let entry = (String::from_str(key), text);
        match find_member(&s.extra, key) {
            Some(i) => {
                assert(first_named(before, key@, i as int));
                let ghost c = choose|c: int| first_named(before, key@, c);
                assert(c == i as int) by {
                    if c < i as int {
                        assert(before[c].0 == key@);
                    } else if c > i as int {
                        assert(before[i as int].0 == key@);
                    }
                }
                s.extra.set(i, entry);
                let ghost after = members_view(s.extra@);
                assert(after =~= before.update(i as int, (key@, tv)));
                assert(forall|k: int| 0 <= k < after.len() ==> after[k].0 == before[k].0);
            },
            None => {
                assert(!exists|c: int| first_named(before, key@, c)) by {
                    if exists|c: int| first_named(before, key@, c) {
                        let c = choose|c: int| first_named(before, key@, c);
                        assert(before[c].0 == key@);
                    }
                }
                s.extra.push(entry);
                let ghost after = members_view(s.extra@);
                assert(after =~= before.push((key@, tv)));
                assert(forall|k: int| 0 <= k < before.len() ==> before[k].0 != key@);
            },
        }
        s
    }
}

} // verus!
