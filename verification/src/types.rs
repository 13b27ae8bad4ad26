//! Protocol types shared between the skill and the host.
use vstd::prelude::*;

use crate::value::Value;

pub mod perm;

verus! {

/// Protocol version.
pub const VERSION: u32 = 1;

/// Sent by the host to the skill's `skill_handle` export.
#[derive(Debug, Clone, Default)]
pub struct InvokeRequest {
    pub version: u32,
    pub request_id: String,
    pub trace_id: String,
    pub session_id: String,
    pub llm_session_id: String,
    pub method: String,
    pub skill_id: String,
    /// Skill ID of the caller when invoked via `call_module`; empty otherwise.
    pub caller_id: String,
    pub state: Vec<u8>,
    pub payload: Vec<u8>,
    pub deadline_ns: i64,
}

/// Returned by the skill's `skill_handle` export.
#[derive(Debug, Default)]
pub struct InvokeResponse {
    pub version: u32,
    pub state: Vec<u8>,
    pub payload: Vec<u8>,
    pub error: String,
    pub commands: Vec<Command>,
    /// Extra text appended to the MCP tool result for the LLM.
    pub llm_context: String,
}

/// Instruction returned by the skill.
#[derive(Debug, Default)]
pub struct Command {
    pub kind: CommandType,
    pub payload: Option<Value>,
}

/// Command types.
#[derive(Debug, Clone, Copy, PartialEq, Eq, Structural)]
pub enum CommandType {
    CallModule,
    BatchInvoke,
    Schedule,
    EmitEvent,
    Subscribe,
    StoreKv,
    LoadKv,
    Spawn,
    Terminate,
}

impl Default for CommandType {
    fn default() -> (k: CommandType)
        ensures
            k == CommandType::CallModule,
    {
        CommandType::CallModule
    }
}

/// One call inside a `batch_invoke` command.
#[derive(Debug, Clone, Default)]
pub struct BatchItem {
    pub index: u32,
    pub skill_id: String,
    pub method: String,
    pub payload: Vec<u8>,
}

/// Outcome of one [`BatchItem`] after execution.
#[derive(Debug, Clone, Default)]
pub struct BatchItemResult {
    pub index: u32,
    pub payload: Vec<u8>,
    pub error: String,
}

/// Delivered to the batch-callback method.
#[derive(Debug, Clone, Default)]
pub struct BatchResult {
    pub batch_id: String,
    pub items: Vec<BatchItemResult>,
}

/// One entry from the dialogue history.
#[derive(Debug, Clone, Default)]
pub struct HistoryMessage {
    pub role: String,
    pub content: String,
}

/// Prompt request for `prompt_complete`.
///
/// The sampling temperature travels as the bit pattern of an IEEE-754
/// double (`f64::to_bits`), which is what the host receives.
#[derive(Debug, Clone, Default)]
pub struct PromptRequest {
    pub prompt: String,
    pub temperature_bits: u64,
    pub max_tokens: u32,
}

/// Response from `prompt_complete`.
#[derive(Debug, Clone, Default)]
pub struct PromptResponse {
    pub content: String,
    pub error: String,
}

/// Generic FS request.
#[derive(Debug, Clone, Default)]
pub struct FsRequest {
    pub path: String,
    pub content: Vec<u8>,
}

/// Generic FS response.
#[derive(Debug, Clone, Default)]
pub struct FsResponse {
    pub content: Vec<u8>,
    pub error: String,
}

/// Request for `fs_mkdir`.
#[derive(Debug, Clone, Default)]
pub struct FsMkdirRequest {
    pub path: String,
}

/// Request for `fs_ls`.
#[derive(Debug, Clone, Default)]
pub struct FsLsRequest {
    pub path: String,
    /// When `true`, populates `mod_time`, `mode`, and `mode_str`.
    pub long: bool,
}

/// One entry returned by `fs_ls`.
#[derive(Debug, Clone, Default)]
pub struct DirEntry {
    pub name: String,
    pub size: i64,
    pub is_dir: bool,
    pub mod_time: i64,
    pub mode: u32,
    pub mode_str: String,
}

/// Response from `fs_ls`.
#[derive(Debug, Clone, Default)]
pub struct FsLsResponse {
    pub entries: Vec<DirEntry>,
    pub error: String,
}

/// Request for `fs_chmod`.
#[derive(Debug, Clone, Default)]
pub struct FsChmodRequest {
    pub path: String,
    pub mode: u32,
    pub recursive: bool,
}

/// Request for `fs_read_lines`.
#[derive(Debug, Clone, Default)]
pub struct FsReadLinesRequest {
    pub path: String,
    pub offset: i64,
    pub limit: i64,
}

/// Response from `fs_read_lines`.
#[derive(Debug, Clone, Default)]
pub struct TextFileContent {
    pub lines: Vec<String>,
    pub total_lines: i64,
    pub offset: i64,
    pub is_truncated: bool,
}

/// What the host answers to `fs_read_lines`: the page and an error text.
#[derive(Debug, Clone, Default)]
pub struct TextFileContentResponse {
    pub lines: Vec<String>,
    pub total_lines: i64,
    pub offset: i64,
    pub is_truncated: bool,
    pub error: String,
}

/// Options for `fs_grep`.
#[derive(Debug, Clone, Default)]
pub struct GrepOptions {
    pub pattern: String,
    pub path: String,
    pub fixed: bool,
    pub case_insensitive: bool,
    pub max_depth: i64,
    pub max_count: i64,
    pub workers: i64,
    pub type_filter: String,
    /// Glob patterns of files to search (`include` on the wire).
    pub include_globs: Vec<String>,
    pub exclude: Vec<String>,
    pub ignore_dirs: Option<Vec<String>>,
    pub with_lines: bool,
    pub filename_only: bool,
}

/// All matches found in one file.
#[derive(Debug, Clone, Default)]
pub struct GrepFileMatch {
    pub path: String,
    pub matches: Vec<GrepLineMatch>,
}

/// One matching line inside a file.
#[derive(Debug, Clone, Default)]
pub struct GrepLineMatch {
    /// 1-based line number.
    pub line_num: i64,
    pub line: String,
    pub ranges: Vec<GrepRange>,
}

/// `[start, end)` byte-offset pair within a line.
#[derive(Debug, Clone, Copy, Default)]
pub struct GrepRange {
    pub start: i64,
    pub end: i64,
}

/// Options for `fs_glob`.
#[derive(Debug, Clone, Default)]
pub struct GlobOptions {
    pub patterns: Vec<String>,
    pub path: String,
    pub match_hidden: bool,
    pub ignore_dirs: Option<Vec<String>>,
    pub max_depth: i64,
    pub only_files: bool,
    pub only_dirs: bool,
}

/// One result from `fs_glob`.
#[derive(Debug, Clone, Default)]
pub struct GlobEntry {
    pub path: String,
    pub is_dir: bool,
}

/// Options for `tcp_request`.
#[derive(Debug, Clone, Default)]
pub struct TcpRequestOptions {
    pub addr: String,
    pub data: Vec<u8>,
    pub tls: bool,
    pub insecure: bool,
    pub timeout_ms: i64,
    pub max_bytes: i64,
}

/// Result from `tcp_request`.
#[derive(Debug, Clone, Default)]
pub struct TcpRequestResult {
    pub data: Vec<u8>,
    pub error: String,
}

/// Request for `shell_exec`.
#[derive(Debug, Clone, Default)]
pub struct ShellExecRequest {
    /// The shell command to execute (required).
    pub command: String,
    /// Working directory (optional).
    pub workdir: String,
    /// Timeout in milliseconds (0 = 30s default).
    pub timeout_ms: i64,
    /// Return only the last N lines of output. 0 = all lines.
    pub tail: i64,
    /// Filter output lines by regex pattern.
    pub grep: String,
    /// Start the process in background and return immediately with PID.
    pub as_daemon: bool,
    /// Output file for daemon mode.
    pub log_file: String,
}

/// Result from `shell_exec`.
#[derive(Debug, Clone, Default)]
pub struct ShellExecResult {
    /// Combined stdout+stderr output.
    pub output: String,
    /// Process exit code (0 = success).
    pub exit_code: i64,
    /// Process ID (only set when as_daemon=true).
    pub pid: i64,
    /// Log file path (only set when as_daemon=true).
    pub log_file: String,
    pub error: String,
}

/// Host OS and hardware information.
#[derive(Debug, Clone, Default)]
pub struct SysInfoResult {
    pub os: String,
    pub arch: String,
    pub hostname: String,
    pub num_cpu: i64,
}

/// Current host time.
#[derive(Debug, Clone, Default)]
pub struct TimeNowResult {
    pub unix: i64,
    pub unix_nano: i64,
    pub rfc3339: String,
    pub timezone: String,
    pub utc_offset: i64,
}

/// Disk usage information.
///
/// The used percentage travels as the bit pattern of an IEEE-754 double
/// (`f64::to_bits`).
#[derive(Debug, Clone, Default)]
pub struct DiskUsageResult {
    pub total_bytes: i64,
    pub free_bytes: i64,
    pub used_bytes: i64,
    pub used_pct_bits: u64,
    pub error: String,
}

/// Allowed directory entry.
#[derive(Debug, Clone, Default)]
pub struct AllowedDir {
    pub path: String,
    pub mode: String,
}

/// The request of a host call that takes no arguments.
#[derive(Debug, Clone, Copy)]
pub struct EmptyRequest {}

/// A host reply that carries nothing but an error text.
#[derive(Debug, Clone)]
pub struct ErrorReply {
    pub error: String,
}

/// A host reply that names a new connection, or carries an error text.
#[derive(Debug, Clone)]
pub struct ConnReply {
    pub conn_id: String,
    pub error: String,
}

/// Error returned from a host call.
#[derive(Debug, Clone)]
pub struct SkillError(pub String);

/// The text a [`SkillError`] with message `m` shows.
pub open spec fn skill_error_text(m: Seq<char>) -> Seq<char> {
    "abi error: "@ + m
}

impl SkillError {
    /// The text this error shows: `abi error: ` followed by its message.
    pub fn display(&self) -> (s: String)
        ensures
            s@ == skill_error_text(self.0@),
    {
        let mut s = String::from_str("abi error: ");
        s.append(self.0.as_str());
        s
    }
}

/// The result a call gives when the host's reply carries the error text
/// `error` and, on success, `value`.
pub open spec fn error_or<T>(error: String, value: T) -> Result<T, SkillError> {
    if error@.len() == 0 {
        Ok(value)
    } else {
        Err(SkillError(error))
    }
}

/// What a host call turns into: the transport's own error, the reply's error
/// text when it has one, or the value drawn from the reply.
pub open spec fn host_outcome<R, T>(
    reply: Result<R, SkillError>,
    error_of: spec_fn(R) -> String,
    value_of: spec_fn(R) -> T,
) -> Result<T, SkillError> {
    match reply {
        Err(e) => Err(e),
        Ok(r) => error_or(error_of(r), value_of(r)),
    }
}

/// A host call fails with the transport's error when the transport fails,
/// fails with the reply's error text when that text is not empty, and
/// otherwise gives the value drawn from the reply.
pub proof fn law_host_outcome<R, T>(
    reply: Result<R, SkillError>,
    error_of: spec_fn(R) -> String,
    value_of: spec_fn(R) -> T,
)
    ensures
        reply matches Err(e) ==> host_outcome(reply, error_of, value_of) == Err::<T, SkillError>(e),
        reply matches Ok(r) ==> (error_of(r)@.len() == 0 ==> host_outcome(reply, error_of, value_of) == Ok::<T, SkillError>(value_of(r))),
        reply matches Ok(r) ==> (error_of(r)@.len() != 0 ==> host_outcome(reply, error_of, value_of) == Err::<T, SkillError>(SkillError(error_of(r)))),
{
}

/// The text an error shows is `abi error: ` followed by its whole message.
pub proof fn law_skill_error_text(m: Seq<char>)
    ensures
        skill_error_text(m).len() == 11 + m.len(),
        skill_error_text(m).subrange(0, 11) == "abi error: "@,
        skill_error_text(m).subrange(11, 11 + m.len() as int) == m,
{
    reveal_strlit("abi error: ");
    assert(skill_error_text(m).subrange(0, 11) =~= "abi error: "@);
    assert(skill_error_text(m).subrange(11, 11 + m.len() as int) =~= m);
}

} // verus!
