//! LLM API: dialogue history and prompt completion.
use vstd::prelude::*;

use crate::types::{host_outcome, HistoryMessage, PromptRequest, PromptResponse, SkillError};

verus! {

/// Request for `history_get`.
#[derive(Debug, Clone)]
pub struct HistoryRequest {
    pub filter: String,
}

/// Fetch dialogue history matching `filter` (e.g. `"last:10"`, `"role:user"`).
pub fn history_get<F: FnOnce(HistoryRequest) -> Result<Vec<HistoryMessage>, SkillError>>(filter: &str, host: F) -> (r: Result<Vec<HistoryMessage>, SkillError>)
    requires
        forall|q: HistoryRequest| q.filter@ == filter@ ==> #[trigger] call_requires(host, (q,)),
    ensures
        exists|q: HistoryRequest| q.filter@ == filter@ && #[trigger] call_ensures(host, (q,), r),
{
    host(HistoryRequest { filter: filter.to_owned() })
}

/// Send a prompt to the LLM.
pub fn prompt_complete<F: FnOnce(PromptRequest) -> Result<PromptResponse, SkillError>>(req: PromptRequest, host: F) -> (r: Result<PromptResponse, SkillError>)
    requires
        call_requires(host, (req,)),
    ensures
        exists|reply: Result<PromptResponse, SkillError>|
            #[trigger] call_ensures(host, (req,), reply)
            && r == host_outcome(reply, |x: PromptResponse| x.error, |x: PromptResponse| x),
{
    let resp = host(req)?;
    if !resp.error.as_str().is_empty() {
        return Err(SkillError(resp.error));
    }
    Ok(resp)
}

} // verus!
