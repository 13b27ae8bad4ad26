//! Archive operations (tar.gz, zip).
use vstd::prelude::*;

use crate::types::{host_outcome, SkillError};

verus! {

/// Result of archive_pack.
#[derive(Debug, Clone, Default)]
pub struct ArchivePackResult {
    pub files_count: i64,
    pub format: String,
    pub error: String,
}

/// Archive entry in listing.
#[derive(Debug, Clone, Default)]
pub struct ArchiveEntry {
    pub name: String,
    pub size: i64,
    pub is_dir: bool,
}

/// Request for `archive_pack`.
#[derive(Debug, Clone)]
pub struct ArchivePackRequest {
    pub source: String,
    pub output: String,
    pub format: String,
    pub exclude: String,
}

/// Request for `archive_list`.
#[derive(Debug, Clone)]
pub struct ArchiveListRequest {
    pub archive: String,
    pub format: String,
    pub exclude: String,
}

/// What the host answers to `archive_list`.
#[derive(Debug, Clone)]
pub struct ArchiveListResponse {
    pub entries: Vec<ArchiveEntry>,
    pub error: String,
}

/// Request for `archive_unpack`.
#[derive(Debug, Clone)]
pub struct ArchiveUnpackRequest {
    pub archive: String,
    pub dest: String,
    pub format: String,
    pub exclude: String,
    pub strip: i32,
}

/// What the host answers to `archive_unpack`.
#[derive(Debug, Clone)]
pub struct ArchiveUnpackResponse {
    pub files_count: i64,
    pub error: String,
}

pub open spec fn is_pack_request(q: ArchivePackRequest, source: Seq<char>, output: Seq<char>, format: Seq<char>, exclude: Seq<char>) -> bool {
    q.source@ == source && q.output@ == output && q.format@ == format && q.exclude@ == exclude
}

/// Create a tar.gz or zip archive from a directory.
pub fn archive_pack<F: FnOnce(ArchivePackRequest) -> Result<ArchivePackResult, SkillError>>(source: &str, output: &str, format: &str, exclude: &str, host: F) -> (r: Result<ArchivePackResult, SkillError>)
    requires
        forall|q: ArchivePackRequest| is_pack_request(q, source@, output@, format@, exclude@)
            ==> #[trigger] call_requires(host, (q,)),
    ensures
        exists|q: ArchivePackRequest, reply: Result<ArchivePackResult, SkillError>|
            is_pack_request(q, source@, output@, format@, exclude@)
            && #[trigger] call_ensures(host, (q,), reply)
            && r == host_outcome(reply, |x: ArchivePackResult| x.error, |x: ArchivePackResult| x),
{
    let req = ArchivePackRequest {
        source: source.to_owned(),
        output: output.to_owned(),
        format: format.to_owned(),
        exclude: exclude.to_owned(),
    };
    let resp = host(req)?;
    if !resp.error.as_str().is_empty() {
        return Err(SkillError(resp.error));
    }
    Ok(resp)
}

pub open spec fn is_list_request(q: ArchiveListRequest, archive: Seq<char>, format: Seq<char>, exclude: Seq<char>) -> bool {
    q.archive@ == archive && q.format@ == format && q.exclude@ == exclude
}

/// List contents of a tar.gz or zip archive.
pub fn archive_list<F: FnOnce(ArchiveListRequest) -> Result<ArchiveListResponse, SkillError>>(archive: &str, format: &str, exclude: &str, host: F) -> (r: Result<Vec<ArchiveEntry>, SkillError>)
    requires
        forall|q: ArchiveListRequest| is_list_request(q, archive@, format@, exclude@)
            ==> #[trigger] call_requires(host, (q,)),
    ensures
        exists|q: ArchiveListRequest, reply: Result<ArchiveListResponse, SkillError>|
            is_list_request(q, archive@, format@, exclude@)
            && #[trigger] call_ensures(host, (q,), reply)
            && r == host_outcome(reply, |x: ArchiveListResponse| x.error, |x: ArchiveListResponse| x.entries),
{
    let req = ArchiveListRequest {
        archive: archive.to_owned(),
        format: format.to_owned(),
        exclude: exclude.to_owned(),
    };
    let resp = host(req)?;
    if !resp.error.as_str().is_empty() {
        return Err(SkillError(resp.error));
    }
    Ok(resp.entries)
}

pub open spec fn is_unpack_request(q: ArchiveUnpackRequest, archive: Seq<char>, dest: Seq<char>, format: Seq<char>, exclude: Seq<char>, strip: i32) -> bool {
    q.archive@ == archive && q.dest@ == dest && q.format@ == format && q.exclude@ == exclude && q.strip == strip
}

/// Extract a tar.gz or zip archive.
pub fn archive_unpack<F: FnOnce(ArchiveUnpackRequest) -> Result<ArchiveUnpackResponse, SkillError>>(archive: &str, dest: &str, format: &str, exclude: &str, strip: i32, host: F) -> (r: Result<i64, SkillError>)
    requires
        forall|q: ArchiveUnpackRequest| is_unpack_request(q, archive@, dest@, format@, exclude@, strip)
            ==> #[trigger] call_requires(host, (q,)),
    ensures
        exists|q: ArchiveUnpackRequest, reply: Result<ArchiveUnpackResponse, SkillError>|
            is_unpack_request(q, archive@, dest@, format@, exclude@, strip)
            && #[trigger] call_ensures(host, (q,), reply)
            && r == host_outcome(reply, |x: ArchiveUnpackResponse| x.error, |x: ArchiveUnpackResponse| x.files_count),
{
    let req = ArchiveUnpackRequest {
        archive: archive.to_owned(),
        dest: dest.to_owned(),
        format: format.to_owned(),
        exclude: exclude.to_owned(),
        strip,
    };
    let resp = host(req)?;
    if !resp.error.as_str().is_empty() {
        return Err(SkillError(resp.error));
    }
    Ok(resp.files_count)
}

} // verus!
