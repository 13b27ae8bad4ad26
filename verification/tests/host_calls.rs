use luminarys_sdk::archive::{
    archive_list, archive_pack, archive_unpack, ArchiveEntry, ArchiveListRequest, ArchiveListResponse,
    ArchivePackRequest, ArchivePackResult, ArchiveUnpackRequest, ArchiveUnpackResponse,
};
use luminarys_sdk::cluster::{
    cluster_node_list, file_transfer_recv, file_transfer_send, ClusterNodeInfo, ClusterNodeListResponse,
    FileTransferRecvRequest, FileTransferSendRequest,
};
use luminarys_sdk::fs::{
    check_fs_error, fs_allowed_dirs, fs_chmod, fs_copy, fs_create, fs_delete, fs_glob, fs_grep, fs_ls,
    fs_mkdir, fs_read, fs_read_lines, fs_write, AllowedDirsResponse, FsCopyRequest, GlobResponse,
    GrepResponse,
};
use luminarys_sdk::llm::{history_get, prompt_complete, HistoryRequest};
use luminarys_sdk::shell::shell_exec;
use luminarys_sdk::types::{
    perm, AllowedDir, DirEntry, EmptyRequest, ErrorReply, FsChmodRequest, FsLsRequest, FsLsResponse,
    FsMkdirRequest, FsReadLinesRequest, FsRequest, FsResponse, GlobEntry, GlobOptions, GrepFileMatch,
    GrepLineMatch, GrepOptions, GrepRange, HistoryMessage, PromptRequest, PromptResponse,
    ShellExecRequest, ShellExecResult, SkillError, TextFileContentResponse,
};

fn fs_ok() -> Result<FsResponse, SkillError> {
    Ok(FsResponse::default())
}

fn fs_fail(msg: &str) -> Result<FsResponse, SkillError> {
    Ok(FsResponse { content: vec![], error: msg.to_string() })
}

#[test]
fn check_fs_error_on_empty_and_non_empty_text() {
    assert!(check_fs_error(String::new()).is_ok());
    assert_eq!(check_fs_error("denied".into()).unwrap_err().0, "denied");
}

#[test]
fn fs_read_returns_content() {
    let r = fs_read("/data/a.txt", |q: FsRequest| {
        assert_eq!(q.path, "/data/a.txt");
        assert!(q.content.is_empty());
        Ok(FsResponse { content: b"abc".to_vec(), error: String::new() })
    });
    assert_eq!(r.unwrap(), b"abc".to_vec());
}

#[test]
fn fs_read_reply_error() {
    let r = fs_read("/nope", |_q: FsRequest| fs_fail("not found"));
    assert_eq!(r.unwrap_err().0, "not found");
}

#[test]
fn fs_read_transport_error() {
    let r = fs_read("/x", |_q: FsRequest| Err(SkillError("msgpack decode: eof".into())));
    assert_eq!(r.unwrap_err().0, "msgpack decode: eof");
}

#[test]
fn fs_write_and_create_send_content() {
    assert!(fs_write("/w", vec![1, 2], |q: FsRequest| {
        assert_eq!((q.path.as_str(), q.content.as_slice()), ("/w", &[1u8, 2][..]));
        fs_ok()
    })
    .is_ok());
    assert!(fs_create("/c", vec![9], |q: FsRequest| {
        assert_eq!((q.path.as_str(), q.content.as_slice()), ("/c", &[9u8][..]));
        fs_ok()
    })
    .is_ok());
    assert_eq!(fs_create("/c", vec![], |_q: FsRequest| fs_fail("exists")).unwrap_err().0, "exists");
}

#[test]
fn fs_delete_mkdir_chmod_copy() {
    assert!(fs_delete("/d", |q: FsRequest| {
        assert_eq!(q.path, "/d");
        assert!(q.content.is_empty());
        fs_ok()
    })
    .is_ok());
    assert!(fs_mkdir("/a/{b,c}", |q: FsMkdirRequest| {
        assert_eq!(q.path, "/a/{b,c}");
        fs_ok()
    })
    .is_ok());
    assert!(fs_chmod("/f", perm::DEFAULT, true, |q: FsChmodRequest| {
        assert_eq!(q.path, "/f");
        assert_eq!(q.mode, 0o644);
        assert!(q.recursive);
        fs_ok()
    })
    .is_ok());
    assert!(fs_copy("/s", "/t", |q: FsCopyRequest| {
        assert_eq!((q.source.as_str(), q.dest.as_str()), ("/s", "/t"));
        fs_ok()
    })
    .is_ok());
    assert_eq!(fs_delete("/d", |_q: FsRequest| fs_fail("busy")).unwrap_err().0, "busy");
    assert_eq!(fs_mkdir("/m", |_q: FsMkdirRequest| fs_fail("ro")).unwrap_err().0, "ro");
    assert_eq!(fs_chmod("/f", 0, false, |_q: FsChmodRequest| fs_fail("perm")).unwrap_err().0, "perm");
    assert_eq!(fs_copy("/s", "/t", |_q: FsCopyRequest| fs_fail("same")).unwrap_err().0, "same");
}

#[test]
fn fs_ls_returns_entries() {
    let r = fs_ls("/dir", true, |q: FsLsRequest| {
        assert_eq!(q.path, "/dir");
        assert!(q.long);
        Ok(FsLsResponse {
            entries: vec![DirEntry { name: "a".into(), size: 3, ..Default::default() }],
            error: String::new(),
        })
    })
    .unwrap();
    assert_eq!(r.len(), 1);
    assert_eq!(r[0].name, "a");
    assert_eq!(r[0].size, 3);
    let e = fs_ls("/dir", false, |_q: FsLsRequest| {
        Ok(FsLsResponse { entries: vec![], error: "no dir".into() })
    });
    assert_eq!(e.unwrap_err().0, "no dir");
}

#[test]
fn fs_read_lines_copies_the_page() {
    let req = FsReadLinesRequest { path: "/t.txt".into(), offset: 2, limit: 2 };
    let r = fs_read_lines(req, |q: FsReadLinesRequest| {
        assert_eq!((q.path.as_str(), q.offset, q.limit), ("/t.txt", 2, 2));
        Ok(TextFileContentResponse {
            lines: vec!["c".into(), "d".into()],
            total_lines: 10,
            offset: 2,
            is_truncated: true,
            error: String::new(),
        })
    })
    .unwrap();
    assert_eq!(r.lines, vec!["c".to_string(), "d".to_string()]);
    assert_eq!((r.total_lines, r.offset, r.is_truncated), (10, 2, true));
    let e = fs_read_lines(FsReadLinesRequest::default(), |_q: FsReadLinesRequest| {
        Ok(TextFileContentResponse { error: "binary file".into(), ..Default::default() })
    });
    assert_eq!(e.unwrap_err().0, "binary file");
}

#[test]
fn fs_grep_returns_matches() {
    let opts = GrepOptions {
        pattern: "fn".into(),
        path: "/src".into(),
        include_globs: vec!["*.rs".into()],
        ..Default::default()
    };
    let r = fs_grep(opts, |q: GrepOptions| {
        assert_eq!(q.pattern, "fn");
        assert_eq!(q.include_globs, vec!["*.rs".to_string()]);
        Ok(GrepResponse {
            matches: vec![GrepFileMatch {
                path: "/src/a.rs".into(),
                matches: vec![GrepLineMatch {
                    line_num: 1,
                    line: "fn a()".into(),
                    ranges: vec![GrepRange { start: 0, end: 2 }],
                }],
            }],
            error: String::new(),
        })
    })
    .unwrap();
    assert_eq!(r[0].path, "/src/a.rs");
    assert_eq!(r[0].matches[0].ranges[0].end, 2);
    let e = fs_grep(GrepOptions::default(), |_q: GrepOptions| {
        Ok(GrepResponse { matches: vec![], error: "bad regex".into() })
    });
    assert_eq!(e.unwrap_err().0, "bad regex");
}

#[test]
fn fs_glob_and_allowed_dirs() {
    let opts = GlobOptions { patterns: vec!["**/*.md".into()], only_files: true, ..Default::default() };
    let r = fs_glob(opts, |q: GlobOptions| {
        assert_eq!(q.patterns, vec!["**/*.md".to_string()]);
        assert!(q.only_files);
        Ok(GlobResponse { matches: vec![GlobEntry { path: "README.md".into(), is_dir: false }], error: String::new() })
    })
    .unwrap();
    assert_eq!(r[0].path, "README.md");
    let e = fs_glob(GlobOptions::default(), |_q: GlobOptions| {
        Ok(GlobResponse { matches: vec![], error: "no patterns".into() })
    });
    assert_eq!(e.unwrap_err().0, "no patterns");

    let dirs = fs_allowed_dirs(|_q: EmptyRequest| {
        Ok(AllowedDirsResponse {
            dirs: vec![AllowedDir { path: "/data".into(), mode: "rw".into() }],
            error: String::new(),
        })
    })
    .unwrap();
    assert_eq!((dirs[0].path.as_str(), dirs[0].mode.as_str()), ("/data", "rw"));
    let e = fs_allowed_dirs(|_q: EmptyRequest| Ok(AllowedDirsResponse { dirs: vec![], error: "fs disabled".into() }));
    assert_eq!(e.unwrap_err().0, "fs disabled");
}

#[test]
fn archive_calls() {
    let r = archive_pack("/src", "/out.tgz", "tar.gz", "*.tmp", |q: ArchivePackRequest| {
        assert_eq!(
            (q.source.as_str(), q.output.as_str(), q.format.as_str(), q.exclude.as_str()),
            ("/src", "/out.tgz", "tar.gz", "*.tmp")
        );
        Ok(ArchivePackResult { files_count: 7, format: "tar.gz".into(), error: String::new() })
    })
    .unwrap();
    assert_eq!(r.files_count, 7);
    let e = archive_pack("/s", "/o", "", "", |_q: ArchivePackRequest| {
        Ok(ArchivePackResult { error: "bad format".into(), ..Default::default() })
    });
    assert_eq!(e.unwrap_err().0, "bad format");

    let l = archive_list("/a.zip", "zip", "", |q: ArchiveListRequest| {
        assert_eq!((q.archive.as_str(), q.format.as_str()), ("/a.zip", "zip"));
        Ok(ArchiveListResponse {
            entries: vec![ArchiveEntry { name: "x".into(), size: 1, is_dir: false }],
            error: String::new(),
        })
    })
    .unwrap();
    assert_eq!(l[0].name, "x");
    let e = archive_list("/a.zip", "", "", |_q: ArchiveListRequest| {
        Ok(ArchiveListResponse { entries: vec![], error: "corrupt".into() })
    });
    assert_eq!(e.unwrap_err().0, "corrupt");

    let n = archive_unpack("/a.tgz", "/dst", "", "", 1, |q: ArchiveUnpackRequest| {
        assert_eq!((q.archive.as_str(), q.dest.as_str(), q.strip), ("/a.tgz", "/dst", 1));
        Ok(ArchiveUnpackResponse { files_count: 12, error: String::new() })
    })
    .unwrap();
    assert_eq!(n, 12);
    let e = archive_unpack("/a", "/d", "", "", 0, |_q: ArchiveUnpackRequest| {
        Ok(ArchiveUnpackResponse { files_count: 0, error: "no space".into() })
    });
    assert_eq!(e.unwrap_err().0, "no space");
}

#[test]
fn cluster_calls() {
    let (me, nodes) = cluster_node_list(|_q: EmptyRequest| {
        Ok(ClusterNodeListResponse {
            current_node: "n1".into(),
            nodes: vec![ClusterNodeInfo { node_id: "n2".into(), role: "worker".into(), skills: vec![] }],
            error: String::new(),
        })
    })
    .unwrap();
    assert_eq!(me, "n1");
    assert_eq!(nodes[0].node_id, "n2");
    let e = cluster_node_list(|_q: EmptyRequest| {
        Ok(ClusterNodeListResponse { current_node: String::new(), nodes: vec![], error: "standalone".into() })
    });
    assert_eq!(e.unwrap_err().0, "standalone");

    assert!(file_transfer_send("n2", "/l", "/r", |q: FileTransferSendRequest| {
        assert_eq!((q.target_node.as_str(), q.local_path.as_str(), q.remote_path.as_str()), ("n2", "/l", "/r"));
        Ok(ErrorReply { error: String::new() })
    })
    .is_ok());
    assert!(file_transfer_recv("n3", "/r", "/l", |q: FileTransferRecvRequest| {
        assert_eq!((q.source_node.as_str(), q.remote_path.as_str(), q.local_path.as_str()), ("n3", "/r", "/l"));
        Ok(ErrorReply { error: String::new() })
    })
    .is_ok());
    let e = file_transfer_recv("n3", "/r", "/l", |_q: FileTransferRecvRequest| Ok(ErrorReply { error: "offline".into() }));
    assert_eq!(e.unwrap_err().0, "offline");
    let e = file_transfer_send("n2", "/l", "/r", |_q: FileTransferSendRequest| Err(SkillError("io".into())));
    assert_eq!(e.unwrap_err().0, "io");
}

#[test]
fn llm_calls() {
    let h = history_get("last:2", |q: HistoryRequest| {
        assert_eq!(q.filter, "last:2");
        Ok(vec![HistoryMessage { role: "user".into(), content: "hi".into() }])
    })
    .unwrap();
    assert_eq!((h[0].role.as_str(), h[0].content.as_str()), ("user", "hi"));

    let req = PromptRequest { prompt: "2+2?".into(), temperature_bits: 0.5f64.to_bits(), max_tokens: 8 };
    let r = prompt_complete(req, |q: PromptRequest| {
        assert_eq!(q.prompt, "2+2?");
        assert_eq!(f64::from_bits(q.temperature_bits), 0.5);
        assert_eq!(q.max_tokens, 8);
        Ok(PromptResponse { content: "4".into(), error: String::new() })
    })
    .unwrap();
    assert_eq!(r.content, "4");
    let e = prompt_complete(PromptRequest::default(), |_q: PromptRequest| {
        Ok(PromptResponse { content: String::new(), error: "quota".into() })
    });
    assert_eq!(e.unwrap_err().0, "quota");
}

#[test]
fn shell_exec_returns_result_or_error() {
    let req = ShellExecRequest { command: "echo hi".into(), tail: 1, ..Default::default() };
    let r = shell_exec(&req, |q: &ShellExecRequest| {
        assert_eq!(q.command, "echo hi");
        assert_eq!(q.tail, 1);
        Ok(ShellExecResult { output: "hi\n".into(), exit_code: 0, ..Default::default() })
    })
    .unwrap();
    assert_eq!((r.output.as_str(), r.exit_code), ("hi\n", 0));
    let e = shell_exec(&req, |_q: &ShellExecRequest| {
        Ok(ShellExecResult { exit_code: -1, error: "shell disabled".into(), ..Default::default() })
    });
    assert_eq!(e.unwrap_err().0, "shell disabled");
}
