//! Handler registration, dispatch, and method descriptors.
//!
//! The registry is a value of [`Registry`]: the embedding (the WASM
//! exports) owns one and hands it to these functions.
use vstd::prelude::*;

use crate::types::{InvokeRequest, InvokeResponse, VERSION};

verus! {

pub const SDK_VERSION_MAJOR: u32 = 0;
pub const SDK_VERSION_MINOR: u32 = 2;
pub const SDK_VERSION_PATCH: u32 = 0;
pub const SDK_VERSION: u32 = (SDK_VERSION_MAJOR << 16) | (SDK_VERSION_MINOR << 8) | SDK_VERSION_PATCH;

/// The error text of the response given when no handler is registered.
pub const NO_HANDLER_MESSAGE: &'static str = "no handler registered — call register() or use skill_main!()";

/// Describes one parameter of a method.
#[derive(Debug, Default)]
pub struct ParamInfo {
    pub name: String,
    pub description: String,
    pub type_val: String,
    pub is_required: bool,
    pub enum_vals: Vec<String>,
    pub items: Option<Box<ParamInfo>>,
}

/// The text of a parameter descriptor, with its item descriptor.
pub struct ParamView {
    pub name: Seq<char>,
    pub description: Seq<char>,
    pub type_val: Seq<char>,
    pub is_required: bool,
    pub enum_vals: Seq<Seq<char>>,
    pub items: Option<Box<ParamView>>,
}

/// The text of each string, in order.
pub open spec fn texts(v: Seq<String>) -> Seq<Seq<char>> {
    v.map_values(|s: String| s@)
}

pub open spec fn param_view(p: ParamInfo) -> ParamView
    decreases p,
{
    ParamView {
        name: p.name@,
        description: p.description@,
        type_val: p.type_val@,
        is_required: p.is_required,
        enum_vals: texts(p.enum_vals@),
        items: match p.items {
            Some(b) => Some(Box::new(param_view(*b))),
            None => None,
        },
    }
}

/// The views of a list of parameter descriptors.
pub open spec fn param_views(v: Seq<ParamInfo>) -> Seq<ParamView> {
    v.map_values(|p: ParamInfo| param_view(p))
}

/// Describes a single exported method, with the handler attached to it.
#[derive(Debug, Default)]
pub struct MethodInfo<H> {
    pub name: String,
    pub description: String,
    pub params: Vec<ParamInfo>,
    pub mcp_hidden: bool,
    pub private_callback: bool,
    /// The handler called for this method, when one is attached.
    pub handler_fn: Option<H>,
}

/// The content of a method descriptor.
pub struct MethodView<H> {
    pub name: Seq<char>,
    pub description: Seq<char>,
    pub params: Seq<ParamView>,
    pub mcp_hidden: bool,
    pub private_callback: bool,
    pub handler: Option<H>,
}

pub open spec fn method_view<H>(m: MethodInfo<H>) -> MethodView<H> {
    MethodView {
        name: m.name@,
        description: m.description@,
        params: param_views(m.params@),
        mcp_hidden: m.mcp_hidden,
        private_callback: m.private_callback,
        handler: m.handler_fn,
    }
}

pub open spec fn method_views<H>(v: Seq<MethodInfo<H>>) -> Seq<MethodView<H>> {
    v.map_values(|m: MethodInfo<H>| method_view(m))
}

/// Declares one permission the skill expects from its manifest.
#[derive(Debug, Clone, Default)]
pub struct RequirementInfo {
    pub kind: String,
    pub pattern: String,
    pub mode: String,
}

pub open spec fn requirement_views(v: Seq<RequirementInfo>) -> Seq<(Seq<char>, Seq<char>, Seq<char>)> {
    v.map_values(|r: RequirementInfo| (r.kind@, r.pattern@, r.mode@))
}

/// The skill's self-description: identity, methods and requirements.
#[derive(Debug, Default)]
pub struct SkillDescriptor<H> {
    pub version: u32,
    pub skill_id: String,
    pub skill_name: String,
    pub skill_version: String,
    pub description: String,
    pub methods: Vec<MethodInfo<H>>,
    pub requirements: Vec<RequirementInfo>,
    pub sdk_version: u32,
}

// ---------------------------------------------------------------------------
// Descriptor builders

fn clone_strings(v: &Vec<String>) -> (r: Vec<String>)
    ensures
        texts(r@) == texts(v@),
{
    let mut r: Vec<String> = Vec::new();
    let mut i: usize = 0;
    while i < v.len()
        invariant
            i <= v.len(),
            texts(r@) == texts(v@).take(i as int),
        decreases v.len() - i,
    {
        let ghost prev = r@;
        r.push(v[i].clone());
        proof {
            assert(texts(r@) =~= texts(prev).push(v@[i as int]@));
            assert(texts(v@).take(i + 1) =~= texts(v@).take(i as int).push(v@[i as int]@));
        }
        i = i + 1;
    }
    proof {
        assert(texts(v@).take(v@.len() as int) =~= texts(v@));
    }
    r
}

fn clone_param(p: &ParamInfo) -> (r: ParamInfo)
    ensures
        param_view(r) == param_view(*p),
    decreases p,
{
    let items = match &p.items {
        Some(b) => Some(Box::new(clone_param(&**b))),
        None => None,
    };
    ParamInfo {
        name: p.name.clone(),
        description: p.description.clone(),
        type_val: p.type_val.clone(),
        is_required: p.is_required,
        enum_vals: clone_strings(&p.enum_vals),
        items,
    }
}

fn clone_params(v: &Vec<ParamInfo>) -> (r: Vec<ParamInfo>)
    ensures
        param_views(r@) == param_views(v@),
{
    let mut r: Vec<ParamInfo> = Vec::new();
    let mut i: usize = 0;
    while i < v.len()
        invariant
            i <= v.len(),
            param_views(r@) == param_views(v@).take(i as int),
        decreases v.len() - i,
    {
        let ghost prev = r@;
        r.push(clone_param(&v[i]));
        proof {
            assert(param_views(r@) =~= param_views(prev).push(param_view(v@[i as int])));
            assert(param_views(v@).take(i + 1) =~= param_views(v@).take(i as int).push(param_view(v@[i as int])));
        }
        i = i + 1;
    }
    proof {
        assert(param_views(v@).take(v@.len() as int) =~= param_views(v@));
    }
    r
}

impl Clone for ParamInfo {
    fn clone(&self) -> (r: Self)
        ensures
            param_view(r) == param_view(*self),
    {
        clone_param(self)
    }
}

fn mk_param(type_val: &str) -> (p: ParamInfo)
    ensures
        param_view(p) == (ParamView {
            name: Seq::empty(),
            description: Seq::empty(),
            type_val: type_val@,
            is_required: false,
            enum_vals: Seq::empty(),
            items: None,
        }),
{
    let p = ParamInfo {
        name: String::new(),
        description: String::new(),
        type_val: type_val.to_owned(),
        is_required: false,
        enum_vals: Vec::new(),
        items: None,
    };
    proof {
        assert(texts(p.enum_vals@) =~= Seq::empty());
    }
    p
}

/// A parameter of type `"string"`.
pub fn type_string() -> (p: ParamInfo)
    ensures
        param_view(p) == (ParamView { name: Seq::empty(), description: Seq::empty(), type_val: "string"@, is_required: false, enum_vals: Seq::empty(), items: None }),
{
    mk_param("string")
}

/// A parameter of type `"integer"`.
pub fn type_int() -> (p: ParamInfo)
    ensures
        param_view(p) == (ParamView { name: Seq::empty(), description: Seq::empty(), type_val: "integer"@, is_required: false, enum_vals: Seq::empty(), items: None }),
{
    mk_param("integer")
}

/// A parameter of type `"number"`.
pub fn type_number() -> (p: ParamInfo)
    ensures
        param_view(p) == (ParamView { name: Seq::empty(), description: Seq::empty(), type_val: "number"@, is_required: false, enum_vals: Seq::empty(), items: None }),
{
    mk_param("number")
}

/// A parameter of type `"boolean"`.
pub fn type_bool() -> (p: ParamInfo)
    ensures
        param_view(p) == (ParamView { name: Seq::empty(), description: Seq::empty(), type_val: "boolean"@, is_required: false, enum_vals: Seq::empty(), items: None }),
{
    mk_param("boolean")
}

/// A parameter of type `"object"`.
pub fn type_object() -> (p: ParamInfo)
    ensures
        param_view(p) == (ParamView { name: Seq::empty(), description: Seq::empty(), type_val: "object"@, is_required: false, enum_vals: Seq::empty(), items: None }),
{
    mk_param("object")
}

/// A parameter of type `"array"` whose elements `items` describes.
pub fn type_array(items: ParamInfo) -> (p: ParamInfo)
    ensures
        param_view(p) == (ParamView { name: Seq::empty(), description: Seq::empty(), type_val: "array"@, is_required: false, enum_vals: Seq::empty(), items: Some(Box::new(param_view(items))) }),
{
    let mut p = mk_param("array");
    p.items = Some(Box::new(items));
    p
}

impl ParamInfo {
    /// Mark the parameter as required.
    pub fn required(self) -> (p: Self)
        ensures
            param_view(p) == (ParamView { is_required: true, ..param_view(self) }),
    {
        let mut p = self;
        p.is_required = true;
        p
    }

    /// Set the parameter's description.
    pub fn desc(self, d: &str) -> (p: Self)
        ensures
            param_view(p) == (ParamView { description: d@, ..param_view(self) }),
    {
        let mut p = self;
        p.description = d.to_owned();
        p
    }

    /// Restrict the parameter to the given values, in order.
    pub fn enum_vals(self, vals: Vec<&str>) -> (p: Self)
        ensures
            param_view(p) == (ParamView { enum_vals: vals@.map_values(|s: &str| s@), ..param_view(self) }),
    {
        let mut owned: Vec<String> = Vec::new();
        let mut i: usize = 0;
        while i < vals.len()
            invariant
                i <= vals.len(),
                texts(owned@) == vals@.map_values(|s: &str| s@).take(i as int),
            decreases vals.len() - i,
        {
            let ghost prev = owned@;
            owned.push(vals[i].to_owned());
            proof {
                assert(texts(owned@) =~= texts(prev).push(vals@[i as int]@));
                assert(vals@.map_values(|s: &str| s@).take(i + 1) =~= vals@.map_values(|s: &str| s@).take(i as int).push(vals@[i as int]@));
            }
            i = i + 1;
        }
        proof {
            assert(vals@.map_values(|s: &str| s@).take(vals@.len() as int) =~= vals@.map_values(|s: &str| s@));
        }
        let mut p = self;
        p.enum_vals = owned;
        p
    }
}

/// Start building a [`MethodInfo`]: no parameters, visible, no handler.
pub fn method<H>(name: &str, description: &str) -> (m: MethodInfo<H>)
    ensures
        method_view(m) == (MethodView::<H> {
            name: name@,
            description: description@,
            params: Seq::empty(),
            mcp_hidden: false,
            private_callback: false,
            handler: None,
        }),
{
    let m = MethodInfo {
        name: name.to_owned(),
        description: description.to_owned(),
        params: Vec::new(),
        mcp_hidden: false,
        private_callback: false,
        handler_fn: None,
    };
    proof {
        assert(param_views(m.params@) =~= Seq::empty());
    }
    m
}

impl<H> MethodInfo<H> {
    /// Add a parameter descriptor under the name `name`.
    pub fn param(self, name: &str, p: ParamInfo) -> (m: Self)
        ensures
            method_view(m) == (MethodView {
                params: method_view(self).params.push(ParamView { name: name@, ..param_view(p) }),
                ..method_view(self)
            }),
    {
        let mut pi = p;
        pi.name = name.to_owned();
        let mut m = self;
        let ghost before = m.params@;
        m.params.push(pi);
        proof {
            assert(param_views(m.params@) =~= param_views(before).push(param_view(pi)));
        }
        m
    }

    /// Hide from MCP `tools/list`; still callable via `call_module`.
    pub fn set_internal(self) -> (m: Self)
        ensures
            method_view(m) == (MethodView { mcp_hidden: true, ..method_view(self) }),
    {
        let mut m = self;
        m.mcp_hidden = true;
        m
    }

    /// Private callback: hidden from MCP and only callable by this skill.
    pub fn callback(self) -> (m: Self)
        ensures
            method_view(m) == (MethodView { mcp_hidden: true, private_callback: true, ..method_view(self) }),
    {
        let mut m = self;
        m.mcp_hidden = true;
        m.private_callback = true;
        m
    }

    /// Attach an inline handler.
    pub fn handle(self, f: H) -> (m: Self)
        ensures
            method_view(m) == (MethodView { handler: Some(f), ..method_view(self) }),
    {
        let mut m = self;
        m.handler_fn = Some(f);
        m
    }
}

// ---------------------------------------------------------------------------
// Responses

/// `r` is the error-only response with error text `msg`.
pub open spec fn is_error_response(r: InvokeResponse, msg: Seq<char>) -> bool {
    &&& r.version == VERSION
    &&& r.error@ == msg
    &&& r.state@.len() == 0
    &&& r.payload@.len() == 0
    &&& r.commands@.len() == 0
    &&& r.llm_context@.len() == 0
}

/// Build an error [`InvokeResponse`].
pub fn error_response(msg: &str) -> (r: InvokeResponse)
    ensures
        is_error_response(r, msg@),
{
    InvokeResponse {
        version: VERSION,
        state: Vec::new(),
        payload: Vec::new(),
        error: msg.to_owned(),
        commands: Vec::new(),
        llm_context: String::new(),
    }
}

/// Build a successful [`InvokeResponse`] around an encoded payload.
pub fn ok_response(payload: Vec<u8>) -> (r: InvokeResponse)
    ensures
        r.version == VERSION,
        r.payload == payload,
        r.error@.len() == 0,
        r.state@.len() == 0,
        r.commands@.len() == 0,
        r.llm_context@.len() == 0,
{
    InvokeResponse {
        version: VERSION,
        state: Vec::new(),
        payload,
        error: String::new(),
        commands: Vec::new(),
        llm_context: String::new(),
    }
}

// ---------------------------------------------------------------------------
// The registry

/// The (method name, handler) entries that registration records, in order:
/// one for each method that carries a handler.
pub open spec fn attached<H>(ms: Seq<MethodInfo<H>>) -> Seq<(Seq<char>, H)>
    decreases ms.len(),
{
    if ms.len() == 0 {
        Seq::empty()
    } else {
        let rest = attached(ms.drop_last());
        match ms.last().handler_fn {
            Some(h) => rest.push((ms.last().name@, h)),
            None => rest,
        }
    }
}

/// The handler of the first entry at or after `i` whose name is `m`.
pub open spec fn lookup_from<H>(entries: Seq<(Seq<char>, H)>, m: Seq<char>, i: int) -> Option<H>
    decreases entries.len() - i,
{
    if i < 0 || i >= entries.len() {
        None
    } else if entries[i].0 == m {
        Some(entries[i].1)
    } else {
        lookup_from(entries, m, i + 1)
    }
}

/// The handler of the first entry whose name is `m`.
pub open spec fn first_attached<H>(entries: Seq<(Seq<char>, H)>, m: Seq<char>) -> Option<H> {
    lookup_from(entries, m, 0)
}

/// The registered handlers, method descriptors, requirements and identity
/// of a skill.
pub struct Registry<H> {
    handler: Option<H>,
    methods: Vec<MethodInfo<H>>,
    extra: Vec<(String, H)>,
    requirements: Vec<RequirementInfo>,
    identity: (String, String, String, String),
}

impl<H> Registry<H> {
    /// The inline handlers are exactly those the registered methods carry.
    pub closed spec fn wf(&self) -> bool {
        self.extra@.map_values(|e: (String, H)| (e.0@, e.1)) == attached(self.methods@)
    }

    /// The main dispatch handler, if one was registered.
    pub closed spec fn main_handler(&self) -> Option<H> {
        self.handler
    }

    /// The registered method descriptors, in registration order.
    pub closed spec fn methods(&self) -> Seq<MethodInfo<H>> {
        self.methods@
    }

    /// The registered requirements, in registration order.
    pub closed spec fn requirements(&self) -> Seq<RequirementInfo> {
        self.requirements@
    }

    /// The skill's ID, name, version and description.
    pub closed spec fn identity(&self) -> (Seq<char>, Seq<char>, Seq<char>, Seq<char>) {
        (self.identity.0@, self.identity.1@, self.identity.2@, self.identity.3@)
    }

    /// The handler that answers method `m`: the handler attached to the first
    /// registered method named `m` that has one, else the main handler.
    pub open spec fn dispatch(&self, m: Seq<char>) -> Option<H> {
        match first_attached(attached(self.methods()), m) {
            Some(h) => Some(h),
            None => self.main_handler(),
        }
    }

    /// An empty registry: no handler, methods or requirements, empty identity.
    pub fn new() -> (r: Self)
        ensures
            r.wf(),
            r.main_handler() is None,
            r.methods() == Seq::<MethodInfo<H>>::empty(),
            r.requirements() == Seq::<RequirementInfo>::empty(),
            r.identity() == (Seq::<char>::empty(), Seq::<char>::empty(), Seq::<char>::empty(), Seq::<char>::empty()),
    {
        let r = Registry {
            handler: None,
            methods: Vec::new(),
            extra: Vec::new(),
            requirements: Vec::new(),
            identity: (String::new(), String::new(), String::new(), String::new()),
        };
        proof {
            assert(r.extra@.map_values(|e: (String, H)| (e.0@, e.1)) =~= attached(r.methods@));
        }
        r
    }
}

/// Set the skill's identity metadata.
pub fn set_skill_identity<H>(reg: &mut Registry<H>, id: &str, name: &str, version: &str, description: &str)
    requires
        old(reg).wf(),
    ensures
        final(reg).wf(),
        final(reg).identity() == (id@, name@, version@, description@),
        final(reg).main_handler() == old(reg).main_handler(),
        final(reg).methods() == old(reg).methods(),
        final(reg).requirements() == old(reg).requirements(),
{
    reg.identity = (id.to_owned(), name.to_owned(), version.to_owned(), description.to_owned());
}

/// Register the main dispatch handler (when `h` is given) and method
/// descriptors. Methods that carry a handler answer their own name.
pub fn register<H: Copy>(reg: &mut Registry<H>, h: Option<H>, methods: Vec<MethodInfo<H>>)
    requires
        old(reg).wf(),
    ensures
        final(reg).wf(),
        final(reg).main_handler() == (if h is Some { h } else { old(reg).main_handler() }),
        final(reg).methods() == old(reg).methods() + methods@,
        final(reg).requirements() == old(reg).requirements(),
        final(reg).identity() == old(reg).identity(),
{
    if let Some(handler) = h {
        reg.handler = Some(handler);
    }
    let ghost base = reg.methods@;
    let ghost settled = *reg;
    let mut i: usize = 0;
    while i < methods.len()
        invariant
            i <= methods.len(),
            reg.methods@ == base,
            reg.handler == settled.handler,
            reg.requirements == settled.requirements,
            reg.identity == settled.identity,
            reg.extra@.map_values(|e: (String, H)| (e.0@, e.1)) == attached(base + methods@.take(i as int)),
        decreases methods.len() - i,
    {
        let ghost prefix = base + methods@.take(i as int);
        let ghost extended = base + methods@.take(i + 1);
        proof {
            assert(extended.drop_last() =~= prefix);
            assert(extended.last() == methods@[i as int]);
        }
        let ghost prev = reg.extra@;
        if let Some(f) = methods[i].handler_fn {
            reg.extra.push((methods[i].name.clone(), f));
            proof {
                assert(reg.extra@.map_values(|e: (String, H)| (e.0@, e.1))
                    =~= prev.map_values(|e: (String, H)| (e.0@, e.1)).push((methods@[i as int].name@, f)));
            }
        }
        i = i + 1;
    }
    proof {
        assert(methods@.take(methods@.len() as int) =~= methods@);
    }
    let mut added = methods;
    reg.methods.append(&mut added);
}

/// Register additional methods without replacing the main handler.
pub fn register_methods<H: Copy>(reg: &mut Registry<H>, methods: Vec<MethodInfo<H>>)
    requires
        old(reg).wf(),
    ensures
        final(reg).wf(),
        final(reg).main_handler() == old(reg).main_handler(),
        final(reg).methods() == old(reg).methods() + methods@,
        final(reg).requirements() == old(reg).requirements(),
        final(reg).identity() == old(reg).identity(),
{
    register(reg, None, methods);
}

/// Register skill requirements (from @skill:require annotations).
pub fn register_requirements<H>(reg: &mut Registry<H>, reqs: Vec<RequirementInfo>)
    requires
        old(reg).wf(),
    ensures
        final(reg).wf(),
        final(reg).requirements() == old(reg).requirements() + reqs@,
        final(reg).main_handler() == old(reg).main_handler(),
        final(reg).methods() == old(reg).methods(),
        final(reg).identity() == old(reg).identity(),
{
    let mut added = reqs;
    reg.requirements.append(&mut added);
}

/// Dispatch an [`InvokeRequest`] to the handler registered for its method;
/// without one, answer with an error response.
pub fn call_handler<H: Fn(InvokeRequest) -> InvokeResponse + Copy>(reg: &Registry<H>, req: InvokeRequest) -> (res: InvokeResponse)
    requires
        reg.wf(),
        reg.dispatch(req.method@) matches Some(h) ==> call_requires(h, (req,)),
    ensures
        match reg.dispatch(req.method@) {
            Some(h) => call_ensures(h, (req,), res),
            None => is_error_response(res, NO_HANDLER_MESSAGE@),
        },
{
    let ghost entries = reg.extra@.map_values(|e: (String, H)| (e.0@, e.1));
    let mut i: usize = 0;
    let mut found: Option<H> = None;
    while i < reg.extra.len() && found.is_none()
        invariant
            i <= reg.extra.len(),
            entries == reg.extra@.map_values(|e: (String, H)| (e.0@, e.1)),
            found is None ==> lookup_from(entries, req.method@, 0) == lookup_from(entries, req.method@, i as int),
            found is Some ==> found == lookup_from(entries, req.method@, 0),
        decreases reg.extra.len() - i + (if found is None { 1int } else { 0int }),
    {
        if reg.extra[i].0 == req.method {
            found = Some(reg.extra[i].1);
        } else {
            i = i + 1;
        }
    }
    match found {
        Some(f) => f(req),
        None => match reg.handler {
            Some(h) => h(req),
            None => error_response(NO_HANDLER_MESSAGE),
        },
    }
}

/// Dispatch a request and stamp the response with the protocol version.
pub fn handle_invoke<H: Fn(InvokeRequest) -> InvokeResponse + Copy>(reg: &Registry<H>, req: InvokeRequest) -> (res: InvokeResponse)
    requires
        reg.wf(),
        reg.dispatch(req.method@) matches Some(h) ==> call_requires(h, (req,)),
    ensures
        res.version == VERSION,
        match reg.dispatch(req.method@) {
            Some(h) => exists|answer: InvokeResponse|
                #[trigger] call_ensures(h, (req,), answer) && res == (InvokeResponse { version: VERSION, ..answer }),
            None => is_error_response(res, NO_HANDLER_MESSAGE@),
        },
{
    let mut resp = call_handler(reg, req);
    let ghost answer = resp;
    resp.version = VERSION;
    resp
}

fn clone_method<H: Copy>(m: &MethodInfo<H>) -> (r: MethodInfo<H>)
    ensures
        method_view(r) == method_view(*m),
{
    MethodInfo {
        name: m.name.clone(),
        description: m.description.clone(),
        params: clone_params(&m.params),
        mcp_hidden: m.mcp_hidden,
        private_callback: m.private_callback,
        handler_fn: m.handler_fn,
    }
}

fn clone_methods<H: Copy>(v: &Vec<MethodInfo<H>>) -> (r: Vec<MethodInfo<H>>)
    ensures
        method_views(r@) == method_views(v@),
{
    let mut r: Vec<MethodInfo<H>> = Vec::new();
    let mut i: usize = 0;
    while i < v.len()
        invariant
            i <= v.len(),
            method_views(r@) == method_views(v@).take(i as int),
        decreases v.len() - i,
    {
        let ghost prev = r@;
        r.push(clone_method(&v[i]));
        proof {
            assert(method_views(r@) =~= method_views(prev).push(method_view(v@[i as int])));
            assert(method_views(v@).take(i + 1) =~= method_views(v@).take(i as int).push(method_view(v@[i as int])));
        }
        i = i + 1;
    }
    proof {
        assert(method_views(v@).take(v@.len() as int) =~= method_views(v@));
    }
    r
}

fn clone_requirements(v: &Vec<RequirementInfo>) -> (r: Vec<RequirementInfo>)
    ensures
        requirement_views(r@) == requirement_views(v@),
{
    let mut r: Vec<RequirementInfo> = Vec::new();
    let mut i: usize = 0;
    while i < v.len()
        invariant
            i <= v.len(),
            requirement_views(r@) == requirement_views(v@).take(i as int),
        decreases v.len() - i,
    {
        let ghost prev = r@;
        let item = RequirementInfo {
            kind: v[i].kind.clone(),
            pattern: v[i].pattern.clone(),
            mode: v[i].mode.clone(),
        };
        r.push(item);
        proof {
            assert(requirement_views(r@) =~= requirement_views(prev).push(
                (v@[i as int].kind@, v@[i as int].pattern@, v@[i as int].mode@),
            ));
            assert(requirement_views(v@).take(i + 1) =~= requirement_views(v@).take(i as int).push(
                (v@[i as int].kind@, v@[i as int].pattern@, v@[i as int].mode@),
            ));
        }
        i = i + 1;
    }
    proof {
        assert(requirement_views(v@).take(v@.len() as int) =~= requirement_views(v@));
    }
    r
}

/// Return the [`SkillDescriptor`] for the currently registered methods.
pub fn get_descriptor<H: Copy>(reg: &Registry<H>) -> (d: SkillDescriptor<H>)
    ensures
        d.version == VERSION,
        (d.skill_id@, d.skill_name@, d.skill_version@, d.description@) == reg.identity(),
        method_views(d.methods@) == method_views(reg.methods()),
        requirement_views(d.requirements@) == requirement_views(reg.requirements()),
        d.sdk_version == SDK_VERSION,
{
    SkillDescriptor {
        version: VERSION,
        skill_id: reg.identity.0.clone(),
        skill_name: reg.identity.1.clone(),
        skill_version: reg.identity.2.clone(),
        description: reg.identity.3.clone(),
        methods: clone_methods(&reg.methods),
        requirements: clone_requirements(&reg.requirements),
        sdk_version: SDK_VERSION,
    }
}

// ---------------------------------------------------------------------------
// Laws

/// The packed SDK version: major in bits 16..24, minor in 8..16, patch in 0..8.
pub proof fn law_sdk_version()
    ensures
        SDK_VERSION == SDK_VERSION_MAJOR * 0x10000 + SDK_VERSION_MINOR * 0x100 + SDK_VERSION_PATCH,
        SDK_VERSION == 0x200,
{
    assert(((0u32 << 16u32) | (2u32 << 8u32)) | 0u32 == 0x200u32) by (bit_vector);
}

proof fn lemma_lookup_concat<H>(s: Seq<(Seq<char>, H)>, t: Seq<(Seq<char>, H)>, m: Seq<char>, i: int)
    requires
        0 <= i <= s.len(),
    ensures
        lookup_from(s + t, m, i) == (match lookup_from(s, m, i) {
            Some(h) => Some(h),
            None => lookup_from(t, m, 0),
        }),
    decreases s.len() - i,
{
    if i < s.len() {
        lemma_lookup_concat(s, t, m, i + 1);
    } else {
        lemma_lookup_shift(s, t, m, 0);
    }
}

proof fn lemma_lookup_shift<H>(s: Seq<(Seq<char>, H)>, t: Seq<(Seq<char>, H)>, m: Seq<char>, j: int)
    requires
        0 <= j <= t.len(),
    ensures
        lookup_from(s + t, m, s.len() + j) == lookup_from(t, m, j),
    decreases t.len() - j,
{
    if j < t.len() {
        lemma_lookup_shift(s, t, m, j + 1);
    }
}

proof fn lemma_attached_push<H>(ms: Seq<MethodInfo<H>>, x: MethodInfo<H>)
    ensures
        attached(ms.push(x)) == attached(ms) + (match x.handler_fn {
            Some(h) => seq![(x.name@, h)],
            None => Seq::empty(),
        }),
{
    assert(ms.push(x).drop_last() =~= ms);
    match x.handler_fn {
        Some(h) => assert(attached(ms).push((x.name@, h)) =~= attached(ms) + seq![(x.name@, h)]),
        None => assert(attached(ms) =~= attached(ms) + Seq::empty()),
    }
}

proof fn lemma_no_handler_for<H>(ms: Seq<MethodInfo<H>>, m: Seq<char>)
    requires
        forall|k: int| 0 <= k < ms.len() && ms[k].name@ == m ==> ms[k].handler_fn is None,
    ensures
        first_attached(attached(ms), m) is None,
    decreases ms.len(),
{
    if ms.len() > 0 {
        let d = ms.drop_last();
        let x = ms.last();
        assert forall|k: int| 0 <= k < d.len() && d[k].name@ == m implies d[k].handler_fn is None by {
            assert(d[k] == ms[k]);
        }
        lemma_no_handler_for(d, m);
        assert(ms =~= d.push(x));
        lemma_attached_push(d, x);
        let e: Seq<(Seq<char>, H)> = match x.handler_fn {
            Some(h) => seq![(x.name@, h)],
            None => Seq::empty(),
        };
        lemma_lookup_concat(attached(d), e, m, 0);
        assert(ms[ms.len() - 1] == x);
        assert(lookup_from(e, m, 0) is None) by {
            if e.len() == 1 {
                assert(e[0].0 == x.name@);
                assert(lookup_from(e, m, 1) is None);
            }
        }
    }
}

proof fn lemma_first_handler<H>(ms: Seq<MethodInfo<H>>, j: int, f: H)
    requires
        0 <= j < ms.len(),
        ms[j].handler_fn == Some(f),
        forall|k: int| 0 <= k < j && ms[k].name@ == ms[j].name@ ==> ms[k].handler_fn is None,
    ensures
        first_attached(attached(ms), ms[j].name@) == Some(f),
    decreases ms.len(),
{
    let m = ms[j].name@;
    let d = ms.drop_last();
    assert(ms =~= d.push(ms.last()));
    lemma_attached_push(d, ms.last());
    let e = match ms.last().handler_fn {
        Some(h) => seq![(ms.last().name@, h)],
        None => Seq::empty(),
    };
    lemma_lookup_concat(attached(d), e, m, 0);
    if j == ms.len() - 1 {
        lemma_no_handler_for(d, m);
    } else {
        lemma_first_handler(d, j, f);
    }
}

/// A method registered with an inline handler answers its own name, unless
/// a method registered before it under the same name carries a handler.
pub proof fn law_inline_handler_answers<H>(before: Seq<MethodInfo<H>>, added: Seq<MethodInfo<H>>, i: int, f: H)
    requires
        0 <= i < added.len(),
        added[i].handler_fn == Some(f),
        forall|k: int| 0 <= k < before.len() && before[k].name@ == added[i].name@ ==> before[k].handler_fn is None,
        forall|k: int| 0 <= k < i && added[k].name@ == added[i].name@ ==> added[k].handler_fn is None,
    ensures
        first_attached(attached(before + added), added[i].name@) == Some(f),
{
    let all = before + added;
    let j = before.len() + i;
    assert(all[j] == added[i]);
    assert forall|k: int| 0 <= k < j && all[k].name@ == all[j].name@ implies all[k].handler_fn is None by {
        if k < before.len() {
            assert(all[k] == before[k]);
        } else {
            assert(all[k] == added[k - before.len()]);
        }
    }
    lemma_first_handler(all, j, f);
}

/// Without a handler for the method and without a main handler, a request
/// is answered by the error response.
pub proof fn law_unhandled_request_is_refused<H>(reg: Registry<H>, m: Seq<char>)
    requires
        reg.main_handler() is None,
        forall|k: int| 0 <= k < reg.methods().len() && reg.methods()[k].name@ == m ==> reg.methods()[k].handler_fn is None,
    ensures
        reg.dispatch(m) is None,
{
    lemma_no_handler_for(reg.methods(), m);
}

/// A method that carries a handler is answered by that handler, whatever
/// the main handler and whatever the method's `mcp_hidden` and
/// `private_callback` flags, unless a method registered before it under
/// the same name carries a handler.
pub proof fn law_dispatch_prefers_inline_handler<H>(reg: Registry<H>, j: int, f: H)
    requires
        0 <= j < reg.methods().len(),
        reg.methods()[j].handler_fn == Some(f),
        forall|k: int| 0 <= k < j && reg.methods()[k].name@ == reg.methods()[j].name@
            ==> reg.methods()[k].handler_fn is None,
    ensures
        reg.dispatch(reg.methods()[j].name@) == Some(f),
{
    lemma_first_handler(reg.methods(), j, f);
}

/// The handler that answers a method is the first handler registered under
/// its name, whenever there is one: the main handler never overrides it.
pub proof fn law_dispatch_first_attached<H>(reg: Registry<H>, m: Seq<char>, h: H)
    requires
        first_attached(attached(reg.methods()), m) == Some(h),
    ensures
        reg.dispatch(m) == Some(h),
{
}

/// A method without any handler registered under its name is answered by
/// the main handler.
pub proof fn law_dispatch_falls_back_to_main<H>(reg: Registry<H>, m: Seq<char>)
    requires
        forall|k: int| 0 <= k < reg.methods().len() && reg.methods()[k].name@ == m ==> reg.methods()[k].handler_fn is None,
    ensures
        reg.dispatch(m) == reg.main_handler(),
{
    lemma_no_handler_for(reg.methods(), m);
}

} // verus!
