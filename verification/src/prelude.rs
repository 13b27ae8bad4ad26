//! Convenience re-export of the most-used items.
pub use crate::archive::{
    ArchivePackResult, ArchiveEntry, ArchivePackRequest, ArchiveListRequest,
    ArchiveListResponse, ArchiveUnpackRequest, ArchiveUnpackResponse, archive_pack,
    archive_list, archive_unpack
};
pub use crate::cluster::{
    ClusterNodeInfo, ClusterNodeListResponse, FileTransferSendRequest, FileTransferRecvRequest,
    cluster_node_list, file_transfer_send, file_transfer_recv
};
pub use crate::commands::{emit_event, call_module, store_kv, load_kv, schedule, batch_invoke};
pub use crate::context::{Context};
pub use crate::entrypoint::{
    SDK_VERSION_MAJOR, SDK_VERSION_MINOR, SDK_VERSION_PATCH, SDK_VERSION, NO_HANDLER_MESSAGE,
    ParamInfo, MethodInfo, RequirementInfo, SkillDescriptor, type_string, type_int, type_number,
    type_bool, type_object, type_array, method, error_response, ok_response, Registry,
    set_skill_identity, register, register_methods, register_requirements, call_handler,
    handle_invoke, get_descriptor
};
pub use crate::fs::{
    GrepResponse, GlobResponse, AllowedDirsResponse, FsCopyRequest, check_fs_error, fs_read,
    fs_write, fs_create, fs_delete, fs_mkdir, fs_ls, fs_chmod, fs_read_lines, fs_grep, fs_glob,
    fs_allowed_dirs, fs_copy
};
pub use crate::http::{
    Header, Cookie, HttpResponse, HttpGetRequest, HttpPostRequest, HttpRequestOptions, http_get,
    http_post, http_request, try_headers_from_json, headers_from_json
};
pub use crate::llm::{HistoryRequest, history_get, prompt_complete};
pub use crate::shell::{shell_exec};
pub use crate::state::{StateEnvelope, EMPTY_STATE_MESSAGE, marshal_state, unmarshal_state};
pub use crate::system::{
    LOG_DEBUG, LOG_INFO, LOG_WARN, LOG_ERROR, DiskUsageRequest, EnvRequest, EnvResponse,
    LogRequest, sys_info, time_now, disk_usage, get_env, collect_fields, log_msg, log_debug,
    log_info, log_warn, log_error
};
pub use crate::tcp::{
    ErrorKind, ConnEvent, TcpConnectOptions, TcpSetCallbackRequest, TcpWriteRequest,
    TcpCloseRequest, tcp_request, tcp_connect, tcp_set_callback, tcp_write, tcp_close
};
pub use crate::types::{
    perm, VERSION, InvokeRequest, InvokeResponse, Command, CommandType, BatchItem,
    BatchItemResult, BatchResult, HistoryMessage, PromptRequest, PromptResponse, FsRequest,
    FsResponse, FsMkdirRequest, FsLsRequest, DirEntry, FsLsResponse, FsChmodRequest,
    FsReadLinesRequest, TextFileContent, TextFileContentResponse, GrepOptions, GrepFileMatch,
    GrepLineMatch, GrepRange, GlobOptions, GlobEntry, TcpRequestOptions, TcpRequestResult,
    ShellExecRequest, ShellExecResult, SysInfoResult, TimeNowResult, DiskUsageResult,
    AllowedDir, EmptyRequest, ErrorReply, ConnReply, SkillError
};
pub use crate::value::{Value};
pub use crate::ws::{
    ws_message, WS_MESSAGE_TEXT, WS_MESSAGE_BINARY, WS_MESSAGE_CLOSE, WsEvent, WsConnectRequest,
    WsSendRequest, WsCloseRequest, ws_connect, ws_send, ws_close
};
