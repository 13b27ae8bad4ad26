//! [`Context`]: request metadata and response annotations passed to every handler.
use vstd::prelude::*;

use crate::types::{InvokeRequest, InvokeResponse};

verus! {

/// Passed to every skill handler. Provides read access to invocation metadata
/// and write access to response annotations.
pub struct Context<'a> {
    req: &'a InvokeRequest,
    res: &'a mut InvokeResponse,
}

/// `b` is `a` with at most its `llm_context` changed.
pub open spec fn same_but_llm_context(a: InvokeResponse, b: InvokeResponse) -> bool {
    &&& a.version == b.version
    &&& a.state == b.state
    &&& a.payload == b.payload
    &&& a.error == b.error
    &&& a.commands == b.commands
}

/// The `llm_context` text after appending `text` to `current`: `text`
/// alone when `current` is empty, else `current`, a newline, and `text`.
pub open spec fn appended_context(current: Seq<char>, text: Seq<char>) -> Seq<char> {
    if current.len() == 0 {
        text
    } else {
        current + "\n"@ + text
    }
}

impl<'a> Context<'a> {
    /// The request this context reads from.
    pub closed spec fn request(&self) -> InvokeRequest {
        *self.req
    }

    /// The response this context annotates, as it stands.
    pub closed spec fn response(&self) -> InvokeResponse {
        *self.res
    }

    /// Create a [`Context`] bound to `req` and `res`.
    pub fn new(req: &'a InvokeRequest, res: &'a mut InvokeResponse) -> (c: Self)
        ensures
            c.request() == *req,
            c.response() == *old(res),
    {
        Context { req, res }
    }

    /// Unique ID of this invocation.
    pub fn request_id(&self) -> (s: &str)
        ensures
            s@ == self.request().request_id@,
    {
        self.req.request_id.as_str()
    }

    /// Distributed trace ID.
    pub fn trace_id(&self) -> (s: &str)
        ensures
            s@ == self.request().trace_id@,
    {
        self.req.trace_id.as_str()
    }

    /// User session ID.
    pub fn session_id(&self) -> (s: &str)
        ensures
            s@ == self.request().session_id@,
    {
        self.req.session_id.as_str()
    }

    /// LLM session ID.
    pub fn llm_session_id(&self) -> (s: &str)
        ensures
            s@ == self.request().llm_session_id@,
    {
        self.req.llm_session_id.as_str()
    }

    /// ID of the skill being invoked.
    pub fn skill_id(&self) -> (s: &str)
        ensures
            s@ == self.request().skill_id@,
    {
        self.req.skill_id.as_str()
    }

    /// Skill ID of the caller when invoked via `call_module`. Empty otherwise.
    pub fn caller_id(&self) -> (s: &str)
        ensures
            s@ == self.request().caller_id@,
    {
        self.req.caller_id.as_str()
    }

    /// Method name being invoked.
    pub fn method(&self) -> (s: &str)
        ensures
            s@ == self.request().method@,
    {
        self.req.method.as_str()
    }

    /// Set additional text appended to the tool result for the LLM.
    pub fn set_llm_context(&mut self, text: &str)
        ensures
            final(self).request() == old(self).request(),
            final(self).response().llm_context@ == text@,
            same_but_llm_context(old(self).response(), final(self).response()),
    {
        self.res.llm_context = text.to_owned();
    }

    /// Append text to any existing `llm_context`, separated by `"\n"`.
    pub fn append_llm_context(&mut self, text: &str)
        ensures
            final(self).request() == old(self).request(),
            final(self).response().llm_context@ == appended_context(old(self).response().llm_context@, text@),
            same_but_llm_context(old(self).response(), final(self).response()),
    {
        if self.res.llm_context.as_str().is_empty() {
            self.res.llm_context = text.to_owned();
        } else {
            self.res.llm_context.append("\n");
            self.res.llm_context.append(text);
        }
    }
}

/// The `llm_context` after appending each of `texts` in turn to `start`.
pub open spec fn after_appends(start: Seq<char>, texts: Seq<Seq<char>>) -> Seq<char>
    decreases texts.len(),
{
    if texts.len() == 0 {
        start
    } else {
        appended_context(after_appends(start, texts.drop_last()), texts.last())
    }
}

/// `texts` joined by newlines.
pub open spec fn joined_lines(texts: Seq<Seq<char>>) -> Seq<char>
    decreases texts.len(),
{
    if texts.len() == 0 {
        Seq::empty()
    } else if texts.len() == 1 {
        texts[0]
    } else {
        joined_lines(texts.drop_last()) + seq!['\n'] + texts.last()
    }
}

/// Appending to a non-empty context keeps the context whole, adds one
/// newline and then the whole text, whatever either holds: the result is
/// the old context, `"\n"`, and the text; appending to an empty context
/// gives the text.
pub proof fn law_append_keeps_context_and_text(current: Seq<char>, text: Seq<char>)
    ensures
        current.len() > 0 ==> appended_context(current, text).len() == current.len() + 1 + text.len(),
        current.len() > 0 ==> appended_context(current, text).subrange(0, current.len() as int) == current,
        current.len() > 0 ==> appended_context(current, text)[current.len() as int] == '\n',
        current.len() > 0 ==> appended_context(current, text).subrange(current.len() + 1int, current.len() + 1int + text.len()) == text,
        current.len() == 0 ==> appended_context(current, text) == text,
{
    reveal_strlit("\n");
}

/// Appending non-empty texts one after another to an empty context gives
/// the texts joined by newlines, however many there are.
pub proof fn law_appends_join_lines(texts: Seq<Seq<char>>)
    requires
        forall|i: int| 0 <= i < texts.len() ==> (#[trigger] texts[i]).len() > 0,
    ensures
        after_appends(Seq::empty(), texts) == joined_lines(texts),
        texts.len() > 0 ==> after_appends(Seq::empty(), texts).len() > 0,
    decreases texts.len(),
{
    reveal_strlit("\n");
    if texts.len() > 0 {
        let d = texts.drop_last();
        assert forall|i: int| 0 <= i < d.len() implies (#[trigger] d[i]).len() > 0 by {
            assert(d[i] == texts[i]);
        }
        law_appends_join_lines(d);
        assert(texts.last() == texts[texts.len() - 1]);
        if d.len() == 0 {
            assert(after_appends(Seq::empty(), d) == Seq::<char>::empty());
        } else {
            assert("\n"@ =~= seq!['\n']);
        }
    }
}

} // verus!
