//! Cluster and file transfer operations.
use vstd::prelude::*;

use crate::types::{host_outcome, EmptyRequest, ErrorReply, SkillError};

verus! {

/// Cluster node information.
#[derive(Debug, Clone, Default)]
pub struct ClusterNodeInfo {
    pub node_id: String,
    pub role: String,
    pub skills: Vec<String>,
}

/// What the host answers to `cluster_node_list`.
#[derive(Debug, Clone)]
pub struct ClusterNodeListResponse {
    pub current_node: String,
    pub nodes: Vec<ClusterNodeInfo>,
    pub error: String,
}

/// Request for `file_transfer_send`.
#[derive(Debug, Clone)]
pub struct FileTransferSendRequest {
    pub target_node: String,
    pub local_path: String,
    pub remote_path: String,
}

/// Request for `file_transfer_recv`.
#[derive(Debug, Clone)]
pub struct FileTransferRecvRequest {
    pub source_node: String,
    pub remote_path: String,
    pub local_path: String,
}

/// List known cluster nodes: the current node's ID and every known node.
pub fn cluster_node_list<F: FnOnce(EmptyRequest) -> Result<ClusterNodeListResponse, SkillError>>(host: F) -> (r: Result<(String, Vec<ClusterNodeInfo>), SkillError>)
    requires
        call_requires(host, (EmptyRequest {},)),
    ensures
        exists|reply: Result<ClusterNodeListResponse, SkillError>|
            #[trigger] call_ensures(host, (EmptyRequest {},), reply)
            && r == host_outcome(reply, |x: ClusterNodeListResponse| x.error, |x: ClusterNodeListResponse| (x.current_node, x.nodes)),
{
    let resp = host(EmptyRequest {})?;
    if !resp.error.as_str().is_empty() {
        return Err(SkillError(resp.error));
    }
    Ok((resp.current_node, resp.nodes))
}

/// Send a file to a remote cluster node.
pub fn file_transfer_send<F: FnOnce(FileTransferSendRequest) -> Result<ErrorReply, SkillError>>(target_node: &str, local_path: &str, remote_path: &str, host: F) -> (r: Result<(), SkillError>)
    requires
        forall|q: FileTransferSendRequest|
            q.target_node@ == target_node@ && q.local_path@ == local_path@ && q.remote_path@ == remote_path@
            ==> #[trigger] call_requires(host, (q,)),
    ensures
        exists|q: FileTransferSendRequest, reply: Result<ErrorReply, SkillError>|
            q.target_node@ == target_node@ && q.local_path@ == local_path@ && q.remote_path@ == remote_path@
            && #[trigger] call_ensures(host, (q,), reply)
            && r == host_outcome(reply, |x: ErrorReply| x.error, |x: ErrorReply| ()),
{
    let req = FileTransferSendRequest {
        target_node: target_node.to_owned(),
        local_path: local_path.to_owned(),
        remote_path: remote_path.to_owned(),
    };
    let resp = host(req)?;
    if !resp.error.as_str().is_empty() {
        return Err(SkillError(resp.error));
    }
    Ok(())
}

/// Request a file from a remote cluster node (pull mode).
pub fn file_transfer_recv<F: FnOnce(FileTransferRecvRequest) -> Result<ErrorReply, SkillError>>(source_node: &str, remote_path: &str, local_path: &str, host: F) -> (r: Result<(), SkillError>)
    requires
        forall|q: FileTransferRecvRequest|
            q.source_node@ == source_node@ && q.remote_path@ == remote_path@ && q.local_path@ == local_path@
            ==> #[trigger] call_requires(host, (q,)),
    ensures
        exists|q: FileTransferRecvRequest, reply: Result<ErrorReply, SkillError>|
            q.source_node@ == source_node@ && q.remote_path@ == remote_path@ && q.local_path@ == local_path@
            && #[trigger] call_ensures(host, (q,), reply)
            && r == host_outcome(reply, |x: ErrorReply| x.error, |x: ErrorReply| ()),
{
    let req = FileTransferRecvRequest {
        source_node: source_node.to_owned(),
        remote_path: remote_path.to_owned(),
        local_path: local_path.to_owned(),
    };
    let resp = host(req)?;
    if !resp.error.as_str().is_empty() {
        return Err(SkillError(resp.error));
    }
    Ok(())
}

} // verus!
