//! File-system operations.
//!
//! Each operation builds the request the host expects, hands it to `host`
//! (the transport that performs the host call and decodes its reply), and
//! turns the reply into the operation's result.
use vstd::prelude::*;

use crate::types::{
    error_or, host_outcome, AllowedDir, DirEntry, EmptyRequest, FsChmodRequest, FsLsRequest,
    FsLsResponse, FsMkdirRequest, FsReadLinesRequest, FsRequest, FsResponse, GlobEntry,
    GlobOptions, GrepFileMatch, GrepOptions, SkillError, TextFileContent,
    TextFileContentResponse,
};

verus! {

/// What the host answers to `fs_grep`.
#[derive(Debug, Clone)]
pub struct GrepResponse {
    pub matches: Vec<GrepFileMatch>,
    pub error: String,
}

/// What the host answers to `fs_glob`.
#[derive(Debug, Clone)]
pub struct GlobResponse {
    pub matches: Vec<GlobEntry>,
    pub error: String,
}

/// What the host answers to `fs_allowed_dirs`.
#[derive(Debug, Clone)]
pub struct AllowedDirsResponse {
    pub dirs: Vec<AllowedDir>,
    pub error: String,
}

/// Request for `fs_copy`.
#[derive(Debug, Clone)]
pub struct FsCopyRequest {
    pub source: String,
    pub dest: String,
}

/// `Ok(())` when `err` is empty, else the error carrying that text.
pub fn check_fs_error(err: String) -> (r: Result<(), SkillError>)
    ensures
        r == error_or(err, ()),
{
    if err.as_str().is_empty() {
        Ok(())
    } else {
        Err(SkillError(err))
    }
}

/// `q` is a plain FS request for `path` with the given content.
pub open spec fn fs_request_is(q: FsRequest, path: Seq<char>, content: Seq<u8>) -> bool {
    q.path@ == path && q.content@ == content
}

/// What a plain FS call gives back once the host has replied.
pub open spec fn fs_unit_outcome(reply: Result<FsResponse, SkillError>) -> Result<(), SkillError> {
    host_outcome(reply, |x: FsResponse| x.error, |x: FsResponse| ())
}

/// Send a plain FS request and keep only whether it failed.
fn fs_unit_call<F: FnOnce(FsRequest) -> Result<FsResponse, SkillError>>(req: FsRequest, host: F) -> (r: Result<(), SkillError>)
    requires
        call_requires(host, (req,)),
    ensures
        exists|reply: Result<FsResponse, SkillError>|
            #[trigger] call_ensures(host, (req,), reply) && r == fs_unit_outcome(reply),
{
    match host(req) {
        Err(e) => Err(e),
        Ok(resp) => check_fs_error(resp.error),
    }
}

/// Read a file and return its contents as bytes.
pub fn fs_read<F: FnOnce(FsRequest) -> Result<FsResponse, SkillError>>(path: &str, host: F) -> (r: Result<Vec<u8>, SkillError>)
    requires
        forall|q: FsRequest| fs_request_is(q, path@, Seq::empty()) ==> #[trigger] call_requires(host, (q,)),
    ensures
        exists|q: FsRequest, reply: Result<FsResponse, SkillError>|
            fs_request_is(q, path@, Seq::empty())
            && #[trigger] call_ensures(host, (q,), reply)
            && r == host_outcome(reply, |x: FsResponse| x.error, |x: FsResponse| x.content),
{
    let req = FsRequest { path: path.to_owned(), content: Vec::new() };
    match host(req) {
        Err(e) => Err(e),
        Ok(resp) => {
            check_fs_error(resp.error)?;
            Ok(resp.content)
        },
    }
}

/// Write (overwrite) a file.
pub fn fs_write<F: FnOnce(FsRequest) -> Result<FsResponse, SkillError>>(path: &str, content: Vec<u8>, host: F) -> (r: Result<(), SkillError>)
    requires
        forall|q: FsRequest| fs_request_is(q, path@, content@) ==> #[trigger] call_requires(host, (q,)),
    ensures
        exists|q: FsRequest, reply: Result<FsResponse, SkillError>|
            fs_request_is(q, path@, content@)
            && #[trigger] call_ensures(host, (q,), reply)
            && r == fs_unit_outcome(reply),
{
    fs_unit_call(FsRequest { path: path.to_owned(), content }, host)
}

/// Create a new file (fails if already exists).
pub fn fs_create<F: FnOnce(FsRequest) -> Result<FsResponse, SkillError>>(path: &str, content: Vec<u8>, host: F) -> (r: Result<(), SkillError>)
    requires
        forall|q: FsRequest| fs_request_is(q, path@, content@) ==> #[trigger] call_requires(host, (q,)),
    ensures
        exists|q: FsRequest, reply: Result<FsResponse, SkillError>|
            fs_request_is(q, path@, content@)
            && #[trigger] call_ensures(host, (q,), reply)
            && r == fs_unit_outcome(reply),
{
    fs_unit_call(FsRequest { path: path.to_owned(), content }, host)
}

/// Delete a file or directory.
pub fn fs_delete<F: FnOnce(FsRequest) -> Result<FsResponse, SkillError>>(path: &str, host: F) -> (r: Result<(), SkillError>)
    requires
        forall|q: FsRequest| fs_request_is(q, path@, Seq::empty()) ==> #[trigger] call_requires(host, (q,)),
    ensures
        exists|q: FsRequest, reply: Result<FsResponse, SkillError>|
            fs_request_is(q, path@, Seq::empty())
            && #[trigger] call_ensures(host, (q,), reply)
            && r == fs_unit_outcome(reply),
{
    fs_unit_call(FsRequest { path: path.to_owned(), content: Vec::new() }, host)
}

/// Create one or more directories (always recursive). Supports brace expansion.
pub fn fs_mkdir<F: FnOnce(FsMkdirRequest) -> Result<FsResponse, SkillError>>(path: &str, host: F) -> (r: Result<(), SkillError>)
    requires
        forall|q: FsMkdirRequest| q.path@ == path@ ==> #[trigger] call_requires(host, (q,)),
    ensures
        exists|q: FsMkdirRequest, reply: Result<FsResponse, SkillError>|
            q.path@ == path@
            && #[trigger] call_ensures(host, (q,), reply)
            && r == fs_unit_outcome(reply),
{
    match host(FsMkdirRequest { path: path.to_owned() }) {
        Err(e) => Err(e),
        Ok(resp) => check_fs_error(resp.error),
    }
}

/// List directory contents.
///
/// When `long = true` every entry is stat-ed and `mod_time`, `mode`,
/// and `mode_str` are populated.
pub fn fs_ls<F: FnOnce(FsLsRequest) -> Result<FsLsResponse, SkillError>>(path: &str, long: bool, host: F) -> (r: Result<Vec<DirEntry>, SkillError>)
    requires
        forall|q: FsLsRequest| q.path@ == path@ && q.long == long ==> #[trigger] call_requires(host, (q,)),
    ensures
        exists|q: FsLsRequest, reply: Result<FsLsResponse, SkillError>|
            q.path@ == path@ && q.long == long
            && #[trigger] call_ensures(host, (q,), reply)
            && r == host_outcome(reply, |x: FsLsResponse| x.error, |x: FsLsResponse| x.entries),
{
    match host(FsLsRequest { path: path.to_owned(), long }) {
        Err(e) => Err(e),
        Ok(resp) => {
            check_fs_error(resp.error)?;
            Ok(resp.entries)
        },
    }
}

/// Change Unix permission bits.
pub fn fs_chmod<F: FnOnce(FsChmodRequest) -> Result<FsResponse, SkillError>>(path: &str, mode: u32, recursive: bool, host: F) -> (r: Result<(), SkillError>)
    requires
        forall|q: FsChmodRequest| q.path@ == path@ && q.mode == mode && q.recursive == recursive
            ==> #[trigger] call_requires(host, (q,)),
    ensures
        exists|q: FsChmodRequest, reply: Result<FsResponse, SkillError>|
            q.path@ == path@ && q.mode == mode && q.recursive == recursive
            && #[trigger] call_ensures(host, (q,), reply)
            && r == fs_unit_outcome(reply),
{
    match host(FsChmodRequest { path: path.to_owned(), mode, recursive }) {
        Err(e) => Err(e),
        Ok(resp) => check_fs_error(resp.error),
    }
}

/// The page that a `fs_read_lines` reply describes.
pub open spec fn text_page(x: TextFileContentResponse) -> TextFileContent {
    TextFileContent {
        lines: x.lines,
        total_lines: x.total_lines,
        offset: x.offset,
        is_truncated: x.is_truncated,
    }
}

/// Read a slice of lines from a text file with optional pagination.
pub fn fs_read_lines<F: FnOnce(FsReadLinesRequest) -> Result<TextFileContentResponse, SkillError>>(req: FsReadLinesRequest, host: F) -> (r: Result<TextFileContent, SkillError>)
    requires
        call_requires(host, (req,)),
    ensures
        exists|reply: Result<TextFileContentResponse, SkillError>|
            call_ensures(host, (req,), reply)
            && r == host_outcome(reply, |x: TextFileContentResponse| x.error, |x: TextFileContentResponse| text_page(x)),
{
    match host(req) {
        Err(e) => Err(e),
        Ok(resp) => {
            if !resp.error.as_str().is_empty() {
                return Err(SkillError(resp.error));
            }
            Ok(TextFileContent {
                lines: resp.lines,
                total_lines: resp.total_lines,
                offset: resp.offset,
                is_truncated: resp.is_truncated,
            })
        },
    }
}

/// Search files using a regex (or fixed string).
pub fn fs_grep<F: FnOnce(GrepOptions) -> Result<GrepResponse, SkillError>>(opts: GrepOptions, host: F) -> (r: Result<Vec<GrepFileMatch>, SkillError>)
    requires
        call_requires(host, (opts,)),
    ensures
        exists|reply: Result<GrepResponse, SkillError>|
            call_ensures(host, (opts,), reply)
            && r == host_outcome(reply, |x: GrepResponse| x.error, |x: GrepResponse| x.matches),
{
    match host(opts) {
        Err(e) => Err(e),
        Ok(resp) => {
            if !resp.error.as_str().is_empty() {
                return Err(SkillError(resp.error));
            }
            Ok(resp.matches)
        },
    }
}

/// Find files and directories matching glob patterns.
pub fn fs_glob<F: FnOnce(GlobOptions) -> Result<GlobResponse, SkillError>>(opts: GlobOptions, host: F) -> (r: Result<Vec<GlobEntry>, SkillError>)
    requires
        call_requires(host, (opts,)),
    ensures
        exists|reply: Result<GlobResponse, SkillError>|
            call_ensures(host, (opts,), reply)
            && r == host_outcome(reply, |x: GlobResponse| x.error, |x: GlobResponse| x.matches),
{
    match host(opts) {
        Err(e) => Err(e),
        Ok(resp) => {
            if !resp.error.as_str().is_empty() {
                return Err(SkillError(resp.error));
            }
            Ok(resp.matches)
        },
    }
}

/// List of directories the skill is allowed to access. Requires fs.enabled.
pub fn fs_allowed_dirs<F: FnOnce(EmptyRequest) -> Result<AllowedDirsResponse, SkillError>>(host: F) -> (r: Result<Vec<AllowedDir>, SkillError>)
    requires
        call_requires(host, (EmptyRequest {},)),
    ensures
        exists|reply: Result<AllowedDirsResponse, SkillError>|
            call_ensures(host, (EmptyRequest {},), reply)
            && r == host_outcome(reply, |x: AllowedDirsResponse| x.error, |x: AllowedDirsResponse| x.dirs),
{
    match host(EmptyRequest {}) {
        Err(e) => Err(e),
        Ok(resp) => {
            if !resp.error.as_str().is_empty() {
                return Err(SkillError(resp.error));
            }
            Ok(resp.dirs)
        },
    }
}

/// Copy a file within allowed directories.
pub fn fs_copy<F: FnOnce(FsCopyRequest) -> Result<FsResponse, SkillError>>(source: &str, dest: &str, host: F) -> (r: Result<(), SkillError>)
    requires
        forall|q: FsCopyRequest| q.source@ == source@ && q.dest@ == dest@ ==> #[trigger] call_requires(host, (q,)),
    ensures
        exists|q: FsCopyRequest, reply: Result<FsResponse, SkillError>|
            q.source@ == source@ && q.dest@ == dest@
            && #[trigger] call_ensures(host, (q,), reply)
            && r == fs_unit_outcome(reply),
{
    match host(FsCopyRequest { source: source.to_owned(), dest: dest.to_owned() }) {
        Err(e) => Err(e),
        Ok(resp) => check_fs_error(resp.error),
    }
}

/// A plain file-system call succeeds exactly when the transport succeeds
/// and the reply's error text is empty; otherwise it fails with the
/// transport's error or with that text.
pub proof fn law_fs_unit_outcome(reply: Result<FsResponse, SkillError>)
    ensures
        (fs_unit_outcome(reply) is Ok) <==> (reply matches Ok(x) && x.error@.len() == 0),
        reply matches Err(e) ==> fs_unit_outcome(reply) == Err::<(), SkillError>(e),
        reply matches Ok(x) ==> (x.error@.len() != 0 ==> fs_unit_outcome(reply) == Err::<(), SkillError>(SkillError(x.error))),
{
}

/// The page a `fs_read_lines` reply describes is the reply's lines, total,
/// offset and truncation flag, as the host gave them.
pub proof fn law_text_page_copies_reply(x: TextFileContentResponse)
    ensures
        text_page(x).lines == x.lines,
        text_page(x).total_lines == x.total_lines,
        text_page(x).offset == x.offset,
        text_page(x).is_truncated == x.is_truncated,
{
}

} // verus!
