//! System info, time, disk usage, environment, and logging.
use vstd::prelude::*;

use crate::types::{host_outcome, DiskUsageResult, EmptyRequest, SkillError, SysInfoResult, TimeNowResult};

verus! {

pub const LOG_DEBUG: &'static str = "debug";
pub const LOG_INFO: &'static str = "info";
pub const LOG_WARN: &'static str = "warn";
pub const LOG_ERROR: &'static str = "error";

/// Request for `disk_usage`.
#[derive(Debug, Clone)]
pub struct DiskUsageRequest {
    pub path: String,
}

/// Request for `get_env`.
#[derive(Debug, Clone)]
pub struct EnvRequest {
    pub key: String,
}

/// What the host answers to `get_env`.
#[derive(Debug, Clone)]
pub struct EnvResponse {
    pub value: String,
}

/// Request for `log_write`: the fields hold each key once.
#[derive(Debug, Clone)]
pub struct LogRequest {
    pub level: String,
    pub message: String,
    pub fields: Vec<(String, String)>,
}

/// Host OS and hardware info.
pub fn sys_info<F: FnOnce(EmptyRequest) -> Result<SysInfoResult, SkillError>>(host: F) -> (r: Result<SysInfoResult, SkillError>)
    requires
        call_requires(host, (EmptyRequest {},)),
    ensures
        call_ensures(host, (EmptyRequest {},), r),
{
    host(EmptyRequest {})
}

/// Current host time in multiple formats.
pub fn time_now<F: FnOnce(EmptyRequest) -> Result<TimeNowResult, SkillError>>(host: F) -> (r: Result<TimeNowResult, SkillError>)
    requires
        call_requires(host, (EmptyRequest {},)),
    ensures
        call_ensures(host, (EmptyRequest {},), r),
{
    host(EmptyRequest {})
}

/// Disk space info for a path. Requires `fs.enabled`.
pub fn disk_usage<F: FnOnce(DiskUsageRequest) -> Result<DiskUsageResult, SkillError>>(path: &str, host: F) -> (r: Result<DiskUsageResult, SkillError>)
    requires
        forall|q: DiskUsageRequest| q.path@ == path@ ==> #[trigger] call_requires(host, (q,)),
    ensures
        exists|q: DiskUsageRequest, reply: Result<DiskUsageResult, SkillError>|
            q.path@ == path@
            && #[trigger] call_ensures(host, (q,), reply)
            && r == host_outcome(reply, |x: DiskUsageResult| x.error, |x: DiskUsageResult| x),
{
    let resp = host(DiskUsageRequest { path: path.to_owned() })?;
    if !resp.error.as_str().is_empty() {
        return Err(SkillError(resp.error));
    }
    Ok(resp)
}

/// Read a named env value declared in the skill's manifest; empty when the
/// host call fails.
pub fn get_env<F: FnOnce(EnvRequest) -> Result<EnvResponse, SkillError>>(key: &str, host: F) -> (r: String)
    requires
        forall|q: EnvRequest| q.key@ == key@ ==> #[trigger] call_requires(host, (q,)),
    ensures
        exists|q: EnvRequest, reply: Result<EnvResponse, SkillError>|
            q.key@ == key@
            && #[trigger] call_ensures(host, (q,), reply)
            && match reply {
                Ok(x) => r == x.value,
                Err(_) => r@ == Seq::<char>::empty(),
            },
{
    match host(EnvRequest { key: key.to_owned() }) {
        Ok(x) => x.value,
        Err(_) => String::new(),
    }
}

/// The text of each (key, value) pair, in order.
pub open spec fn pair_texts(pairs: Seq<(&str, &str)>) -> Seq<(Seq<char>, Seq<char>)> {
    pairs.map_values(|p: (&str, &str)| (p.0@, p.1@))
}

/// The text of each owned (key, value) pair, in order.
pub open spec fn entry_texts(pairs: Seq<(String, String)>) -> Seq<(Seq<char>, Seq<char>)> {
    pairs.map_values(|p: (String, String)| (p.0@, p.1@))
}

/// The map that inserting the pairs one after another builds: a key that
/// occurs more than once keeps its last value.
pub open spec fn field_map(pairs: Seq<(Seq<char>, Seq<char>)>) -> Map<Seq<char>, Seq<char>>
    decreases pairs.len(),
{
    if pairs.len() == 0 {
        Map::empty()
    } else {
        field_map(pairs.drop_last()).insert(pairs.last().0, pairs.last().1)
    }
}

/// No key occurs twice.
pub open spec fn keys_unique(pairs: Seq<(Seq<char>, Seq<char>)>) -> bool {
    forall|i: int, j: int| 0 <= i < pairs.len() && 0 <= j < pairs.len() && i != j ==> pairs[i].0 != pairs[j].0
}

proof fn lemma_field_map_update(s: Seq<(Seq<char>, Seq<char>)>, j: int, v: Seq<char>)
    requires
        keys_unique(s),
        0 <= j < s.len(),
    ensures
        field_map(s.update(j, (s[j].0, v))) == field_map(s).insert(s[j].0, v),
    decreases s.len(),
{
    let k = s[j].0;
    let t = s.update(j, (k, v));
    if j == s.len() - 1 {
        assert(t.drop_last() =~= s.drop_last());
        assert(field_map(t) =~= field_map(s).insert(k, v));
    } else {
        let d = s.drop_last();
        assert(keys_unique(d));
        lemma_field_map_update(d, j, v);
        assert(t.drop_last() =~= d.update(j, (k, v)));
        assert(s.last().0 != k);
        assert(field_map(t) =~= field_map(s).insert(k, v));
    }
}

/// Collect the fields of a log record: each key once, with the value of
/// its last occurrence.
pub fn collect_fields(fields: &[(&str, &str)]) -> (r: Vec<(String, String)>)
    ensures
        keys_unique(entry_texts(r@)),
        field_map(entry_texts(r@)) == field_map(pair_texts(fields@)),
{
    let mut r: Vec<(String, String)> = Vec::new();
    let mut i: usize = 0;
    while i < fields.len()
        invariant
            i <= fields.len(),
            keys_unique(entry_texts(r@)),
            field_map(entry_texts(r@)) == field_map(pair_texts(fields@).take(i as int)),
        decreases fields.len() - i,
    {
        let (k, v) = fields[i];
        let key = k.to_owned();
        let ghost before = entry_texts(r@);
        let mut j: usize = 0;
        let mut found = false;
        while j < r.len() && !found
            invariant
                j <= r.len(),
                before == entry_texts(r@),
                found ==> j < r.len() && before[j as int].0 == key@,
                forall|m: int| 0 <= m < j ==> before[m].0 != key@,
            decreases r.len() - j + (if found { 0int } else { 1int }),
        {
            if r[j].0 == key {
                found = true;
            } else {
                j = j + 1;
            }
        }
        let ghost prefix = pair_texts(fields@).take(i as int);
        proof {
            assert(pair_texts(fields@).take(i + 1) =~= prefix.push((k@, v@)));
            assert(prefix.push((k@, v@)).drop_last() =~= prefix);
            assert(field_map(prefix.push((k@, v@))) == field_map(prefix).insert(k@, v@));
        }
        if found {
            r.set(j, (key, v.to_owned()));
            proof {
                assert(entry_texts(r@) =~= before.update(j as int, (before[j as int].0, v@)));
                lemma_field_map_update(before, j as int, v@);
                assert(keys_unique(entry_texts(r@)));
            }
        } else {
            r.push((key, v.to_owned()));
            proof {
                assert(entry_texts(r@) =~= before.push((k@, v@)));
                assert(entry_texts(r@).drop_last() =~= before);
            }
        }
        i = i + 1;
    }
    proof {
        assert(pair_texts(fields@).take(fields@.len() as int) =~= pair_texts(fields@));
    }
    r
}

/// `q` is the log record for this level, message and fields.
pub open spec fn is_log_request(q: LogRequest, level: Seq<char>, message: Seq<char>, fields: Seq<(&str, &str)>) -> bool {
    &&& q.level@ == level
    &&& q.message@ == message
    &&& keys_unique(entry_texts(q.fields@))
    &&& field_map(entry_texts(q.fields@)) == field_map(pair_texts(fields))
}

/// Write a structured log message. A field key given more than once keeps
/// its last value. Failures of the host call are ignored.
pub fn log_msg<F: FnOnce(LogRequest) -> Result<EmptyRequest, SkillError>>(level: &str, message: &str, fields: &[(&str, &str)], host: F)
    requires
        forall|q: LogRequest| is_log_request(q, level@, message@, fields@) ==> #[trigger] call_requires(host, (q,)),
    ensures
        exists|q: LogRequest, reply: Result<EmptyRequest, SkillError>|
            is_log_request(q, level@, message@, fields@) && #[trigger] call_ensures(host, (q,), reply),
{
    let req = LogRequest {
        level: level.to_owned(),
        message: message.to_owned(),
        fields: collect_fields(fields),
    };
    let _ = host(req);
}

/// Shorthand: debug log.
pub fn log_debug<F: FnOnce(LogRequest) -> Result<EmptyRequest, SkillError>>(message: &str, fields: &[(&str, &str)], host: F)
    requires
        forall|q: LogRequest| is_log_request(q, LOG_DEBUG@, message@, fields@) ==> #[trigger] call_requires(host, (q,)),
    ensures
        exists|q: LogRequest, reply: Result<EmptyRequest, SkillError>|
            is_log_request(q, LOG_DEBUG@, message@, fields@) && #[trigger] call_ensures(host, (q,), reply),
{
    log_msg(LOG_DEBUG, message, fields, host)
}

/// Shorthand: info log.
pub fn log_info<F: FnOnce(LogRequest) -> Result<EmptyRequest, SkillError>>(message: &str, fields: &[(&str, &str)], host: F)
    requires
        forall|q: LogRequest| is_log_request(q, LOG_INFO@, message@, fields@) ==> #[trigger] call_requires(host, (q,)),
    ensures
        exists|q: LogRequest, reply: Result<EmptyRequest, SkillError>|
            is_log_request(q, LOG_INFO@, message@, fields@) && #[trigger] call_ensures(host, (q,), reply),
{
    log_msg(LOG_INFO, message, fields, host)
}

/// Shorthand: warn log.
pub fn log_warn<F: FnOnce(LogRequest) -> Result<EmptyRequest, SkillError>>(message: &str, fields: &[(&str, &str)], host: F)
    requires
        forall|q: LogRequest| is_log_request(q, LOG_WARN@, message@, fields@) ==> #[trigger] call_requires(host, (q,)),
    ensures
        exists|q: LogRequest, reply: Result<EmptyRequest, SkillError>|
            is_log_request(q, LOG_WARN@, message@, fields@) && #[trigger] call_ensures(host, (q,), reply),
{
    log_msg(LOG_WARN, message, fields, host)
}

/// Shorthand: error log.
pub fn log_error<F: FnOnce(LogRequest) -> Result<EmptyRequest, SkillError>>(message: &str, fields: &[(&str, &str)], host: F)
    requires
        forall|q: LogRequest| is_log_request(q, LOG_ERROR@, message@, fields@) ==> #[trigger] call_requires(host, (q,)),
    ensures
        exists|q: LogRequest, reply: Result<EmptyRequest, SkillError>|
            is_log_request(q, LOG_ERROR@, message@, fields@) && #[trigger] call_ensures(host, (q,), reply),
{
    log_msg(LOG_ERROR, message, fields, host)
}

proof fn lemma_field_map_has(p: Seq<(Seq<char>, Seq<char>)>, i: int)
    requires
        0 <= i < p.len(),
    ensures
        field_map(p).contains_key(p[i].0),
    decreases p.len(),
{
    if i < p.len() - 1 {
        lemma_field_map_has(p.drop_last(), i);
    }
}

proof fn lemma_field_map_last(p: Seq<(Seq<char>, Seq<char>)>, i: int)
    requires
        0 <= i < p.len(),
        forall|k: int| i < k < p.len() ==> p[k].0 != p[i].0,
    ensures
        field_map(p).contains_key(p[i].0),
        field_map(p)[p[i].0] == p[i].1,
    decreases p.len(),
{
    if i < p.len() - 1 {
        let d = p.drop_last();
        assert(p[p.len() - 1].0 != p[i].0);
        lemma_field_map_last(d, i);
    }
}

proof fn lemma_field_map_source(p: Seq<(Seq<char>, Seq<char>)>, key: Seq<char>) -> (i: int)
    requires
        field_map(p).contains_key(key),
    ensures
        0 <= i < p.len(),
        p[i].0 == key,
        field_map(p)[key] == p[i].1,
        forall|k: int| i < k < p.len() ==> p[k].0 != key,
    decreases p.len(),
{
    if p.last().0 == key {
        p.len() - 1
    } else {
        let d = p.drop_last();
        let i = lemma_field_map_source(d, key);
        assert forall|k: int| i < k < p.len() implies p[k].0 != key by {
            if k < p.len() - 1 {
                assert(p[k] == d[k]);
            }
        }
        i
    }
}

/// `i` is the last position of its key in `p`.
pub open spec fn last_of_key(p: Seq<(Seq<char>, Seq<char>)>, i: int) -> bool {
    &&& 0 <= i < p.len()
    &&& forall|k: int| i < k < p.len() ==> p[k].0 != p[i].0
}

proof fn lemma_unique_entries(e: Seq<(Seq<char>, Seq<char>)>)
    requires
        keys_unique(e),
    ensures
        forall|j: int| 0 <= j < e.len() ==> field_map(e).contains_key(#[trigger] e[j].0) && field_map(e)[e[j].0] == e[j].1,
{
    assert forall|j: int| 0 <= j < e.len() implies field_map(e).contains_key(#[trigger] e[j].0) && field_map(e)[e[j].0] == e[j].1 by {
        assert forall|k: int| j < k < e.len() implies e[k].0 != e[j].0 by {
            assert(k != j);
        }
        lemma_field_map_last(e, j);
    }
}

proof fn lemma_every_key_kept(e: Seq<(Seq<char>, Seq<char>)>, p: Seq<(Seq<char>, Seq<char>)>)
    requires
        field_map(e) == field_map(p),
    ensures
        forall|i: int| 0 <= i < p.len() ==> exists|j: int| 0 <= j < e.len() && e[j].0 == #[trigger] p[i].0,
{
    assert forall|i: int| 0 <= i < p.len() implies exists|j: int| 0 <= j < e.len() && e[j].0 == #[trigger] p[i].0 by {
        lemma_field_map_has(p, i);
        let j = lemma_field_map_source(e, p[i].0);
    }
}

proof fn lemma_last_values_kept(e: Seq<(Seq<char>, Seq<char>)>, p: Seq<(Seq<char>, Seq<char>)>)
    requires
        keys_unique(e),
        field_map(e) == field_map(p),
    ensures
        forall|i: int| #[trigger] last_of_key(p, i) ==> exists|j: int| 0 <= j < e.len() && e[j] == p[i],
{
    lemma_unique_entries(e);
    assert forall|i: int| #[trigger] last_of_key(p, i) implies exists|j: int| 0 <= j < e.len() && e[j] == p[i] by {
        lemma_field_map_last(p, i);
        let j = lemma_field_map_source(e, p[i].0);
        assert(e[j].0 == p[i].0);
    }
}

proof fn lemma_entries_come_from_fields(e: Seq<(Seq<char>, Seq<char>)>, p: Seq<(Seq<char>, Seq<char>)>)
    requires
        keys_unique(e),
        field_map(e) == field_map(p),
    ensures
        forall|j: int| 0 <= j < e.len() ==> exists|i: int| last_of_key(p, i) && p[i] == #[trigger] e[j],
{
    lemma_unique_entries(e);
    assert forall|j: int| 0 <= j < e.len() implies exists|i: int| last_of_key(p, i) && p[i] == #[trigger] e[j] by {
        let i = lemma_field_map_source(p, e[j].0);
        assert(last_of_key(p, i));
    }
}

/// The log record sent to the host carries every field given, however
/// many: every key given is there, each key once, each with the value of
/// its last occurrence, and no key or value that was not given.
pub proof fn law_log_request_carries_every_field(
    q: LogRequest,
    level: Seq<char>,
    message: Seq<char>,
    fields: Seq<(&str, &str)>,
)
    requires
        is_log_request(q, level, message, fields),
    ensures
        q.level@ == level,
        q.message@ == message,
        forall|i: int| 0 <= i < pair_texts(fields).len() ==> exists|j: int|
            0 <= j < entry_texts(q.fields@).len() && entry_texts(q.fields@)[j].0 == #[trigger] pair_texts(fields)[i].0,
        forall|i: int| #[trigger] last_of_key(pair_texts(fields), i) ==> exists|j: int|
            0 <= j < entry_texts(q.fields@).len() && entry_texts(q.fields@)[j] == pair_texts(fields)[i],
        forall|j: int| 0 <= j < entry_texts(q.fields@).len() ==> exists|i: int|
            last_of_key(pair_texts(fields), i) && pair_texts(fields)[i] == #[trigger] entry_texts(q.fields@)[j],
        keys_unique(entry_texts(q.fields@)),
        pair_texts(fields).len() == fields.len(),
        entry_texts(q.fields@).len() == q.fields@.len(),
{
    let e = entry_texts(q.fields@);
    let p = pair_texts(fields);
    assert(field_map(e) == field_map(p));
    assert(keys_unique(e));
    lemma_every_key_kept(e, p);
    lemma_last_values_kept(e, p);
    lemma_entries_come_from_fields(e, p);
}

} // verus!
