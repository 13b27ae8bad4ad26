use luminarys_sdk::context::Context;
use luminarys_sdk::entrypoint::{
    call_handler, error_response, get_descriptor, handle_invoke, method, ok_response, register,
    register_methods, register_requirements, set_skill_identity, type_array, type_bool, type_int,
    type_number, type_object, type_string, MethodInfo, ParamInfo, Registry, RequirementInfo,
    NO_HANDLER_MESSAGE, SDK_VERSION, SDK_VERSION_MAJOR, SDK_VERSION_MINOR, SDK_VERSION_PATCH,
};
use luminarys_sdk::types::{InvokeRequest, InvokeResponse, VERSION};

type Handler = fn(InvokeRequest) -> InvokeResponse;

fn main_handler(req: InvokeRequest) -> InvokeResponse {
    InvokeResponse { version: 0, payload: format!("main:{}", req.method).into_bytes(), ..Default::default() }
}

fn greet_handler(req: InvokeRequest) -> InvokeResponse {
    InvokeResponse { version: 0, payload: format!("greet:{}", req.method).into_bytes(), ..Default::default() }
}

fn other_handler(_req: InvokeRequest) -> InvokeResponse {
    InvokeResponse { version: 7, payload: b"other".to_vec(), ..Default::default() }
}

fn request(m: &str) -> InvokeRequest {
    InvokeRequest { method: m.into(), ..Default::default() }
}

#[test]
fn sdk_version_packs_major_minor_patch() {
    assert_eq!((SDK_VERSION_MAJOR, SDK_VERSION_MINOR, SDK_VERSION_PATCH), (0, 2, 0));
    assert_eq!(SDK_VERSION, 0x200);
    assert_eq!(VERSION, 1);
}

#[test]
fn empty_registry_refuses_requests() {
    let reg: Registry<Handler> = Registry::new();
    let r = call_handler(&reg, request("anything"));
    assert_eq!(r.error, NO_HANDLER_MESSAGE);
    assert_eq!(r.error, "no handler registered — call register() or use skill_main!()");
    assert_eq!(r.version, VERSION);
    assert!(r.payload.is_empty() && r.state.is_empty() && r.commands.is_empty() && r.llm_context.is_empty());
}

#[test]
fn main_handler_answers_unknown_methods() {
    let mut reg: Registry<Handler> = Registry::new();
    register(&mut reg, Some(main_handler as Handler), vec![method("greet", "Greet")]);
    let r = call_handler(&reg, request("greet"));
    assert_eq!(r.payload, b"main:greet".to_vec());
    let r = call_handler(&reg, request("unknown"));
    assert_eq!(r.payload, b"main:unknown".to_vec());
}

#[test]
fn inline_handler_takes_precedence_over_main() {
    let mut reg: Registry<Handler> = Registry::new();
    register(
        &mut reg,
        Some(main_handler as Handler),
        vec![method("greet", "Greet").handle(greet_handler as Handler), method("plain", "")],
    );
    assert_eq!(call_handler(&reg, request("greet")).payload, b"greet:greet".to_vec());
    assert_eq!(call_handler(&reg, request("plain")).payload, b"main:plain".to_vec());
}

#[test]
fn first_inline_handler_of_a_name_wins() {
    let mut reg: Registry<Handler> = Registry::new();
    register_methods(&mut reg, vec![method("m", "").handle(greet_handler as Handler)]);
    register_methods(&mut reg, vec![method("m", "").handle(other_handler as Handler)]);
    assert_eq!(call_handler(&reg, request("m")).payload, b"greet:m".to_vec());
}

#[test]
fn inline_handler_without_main_handler() {
    let mut reg: Registry<Handler> = Registry::new();
    register_methods(&mut reg, vec![method("cb", "").callback().handle(other_handler as Handler)]);
    assert_eq!(call_handler(&reg, request("cb")).payload, b"other".to_vec());
    assert_eq!(call_handler(&reg, request("x")).error, NO_HANDLER_MESSAGE);
}

#[test]
fn register_methods_keeps_main_handler() {
    let mut reg: Registry<Handler> = Registry::new();
    register(&mut reg, Some(main_handler as Handler), vec![]);
    register_methods(&mut reg, vec![method("extra", "")]);
    register(&mut reg, None, vec![]);
    assert_eq!(call_handler(&reg, request("extra")).payload, b"main:extra".to_vec());
}

#[test]
fn later_main_handler_replaces_earlier() {
    let mut reg: Registry<Handler> = Registry::new();
    register(&mut reg, Some(main_handler as Handler), vec![]);
    register(&mut reg, Some(other_handler as Handler), vec![]);
    assert_eq!(call_handler(&reg, request("z")).payload, b"other".to_vec());
}

#[test]
fn handle_invoke_stamps_protocol_version() {
    let mut reg: Registry<Handler> = Registry::new();
    register(&mut reg, Some(other_handler as Handler), vec![]);
    let r = handle_invoke(&reg, request("a"));
    assert_eq!(r.version, VERSION);
    assert_eq!(r.payload, b"other".to_vec());
    let empty: Registry<Handler> = Registry::new();
    let r = handle_invoke(&empty, request("a"));
    assert_eq!((r.version, r.error.as_str()), (VERSION, NO_HANDLER_MESSAGE));
}

#[test]
fn descriptor_reports_identity_methods_and_requirements() {
    let mut reg: Registry<Handler> = Registry::new();
    set_skill_identity(&mut reg, "com.a.b", "Skill", "1.0.0", "Does things.");
    register(
        &mut reg,
        Some(main_handler as Handler),
        vec![
            method("greet", "Greet by name.").param("name", type_string().required().desc("User name")),
            method("hidden", "").set_internal(),
        ],
    );
    register_requirements(
        &mut reg,
        vec![RequirementInfo { kind: "fs".into(), pattern: "/data/**".into(), mode: "rw".into() }],
    );
    let d = get_descriptor(&reg);
    assert_eq!(d.version, VERSION);
    assert_eq!(d.sdk_version, SDK_VERSION);
    assert_eq!(
        (d.skill_id.as_str(), d.skill_name.as_str(), d.skill_version.as_str(), d.description.as_str()),
        ("com.a.b", "Skill", "1.0.0", "Does things.")
    );
    assert_eq!(d.methods.len(), 2);
    assert_eq!(d.methods[0].name, "greet");
    assert_eq!(d.methods[0].description, "Greet by name.");
    assert_eq!(d.methods[0].params.len(), 1);
    let p = &d.methods[0].params[0];
    assert_eq!((p.name.as_str(), p.type_val.as_str(), p.description.as_str(), p.is_required), ("name", "string", "User name", true));
    assert!(d.methods[1].mcp_hidden && !d.methods[1].private_callback);
    assert_eq!(d.requirements.len(), 1);
    assert_eq!((d.requirements[0].kind.as_str(), d.requirements[0].pattern.as_str(), d.requirements[0].mode.as_str()), ("fs", "/data/**", "rw"));
}

#[test]
fn empty_descriptor() {
    let reg: Registry<Handler> = Registry::new();
    let d = get_descriptor(&reg);
    assert!(d.skill_id.is_empty() && d.methods.is_empty() && d.requirements.is_empty());
    assert_eq!(d.sdk_version, 0x200);
}

#[test]
fn param_builders() {
    let kinds: Vec<String> = vec![type_string(), type_int(), type_number(), type_bool(), type_object()]
        .into_iter()
        .map(|p| p.type_val)
        .collect();
    assert_eq!(kinds, vec!["string", "integer", "number", "boolean", "object"]);
    let p = type_string();
    assert!(p.name.is_empty() && p.description.is_empty() && !p.is_required && p.enum_vals.is_empty() && p.items.is_none());

    let a = type_array(type_int().desc("n"));
    assert_eq!(a.type_val, "array");
    let inner = a.items.as_ref().unwrap();
    assert_eq!((inner.type_val.as_str(), inner.description.as_str()), ("integer", "n"));

    let e = type_string().enum_vals(vec!["a", "b", "c"]);
    assert_eq!(e.enum_vals, vec!["a".to_string(), "b".to_string(), "c".to_string()]);

    let c = a.clone();
    assert_eq!(c.type_val, "array");
    assert_eq!(c.items.unwrap().description, "n");
}

#[test]
fn method_builders() {
    let m: MethodInfo<Handler> = method("m", "desc");
    assert_eq!((m.name.as_str(), m.description.as_str()), ("m", "desc"));
    assert!(m.params.is_empty() && !m.mcp_hidden && !m.private_callback && m.handler_fn.is_none());

    let m: MethodInfo<Handler> = method("m", "").param("a", type_int()).param("b", type_bool().required());
    let names: Vec<&str> = m.params.iter().map(|p: &ParamInfo| p.name.as_str()).collect();
    assert_eq!(names, vec!["a", "b"]);
    assert!(!m.params[0].is_required && m.params[1].is_required);

    let m: MethodInfo<Handler> = method("cb", "").callback();
    assert!(m.mcp_hidden && m.private_callback);
    let m: MethodInfo<Handler> = method("i", "").set_internal();
    assert!(m.mcp_hidden && !m.private_callback);
    let m: MethodInfo<Handler> = method("h", "").handle(greet_handler as Handler);
    assert!(m.handler_fn.is_some());
}

#[test]
fn response_builders() {
    let r = error_response("bad input");
    assert_eq!((r.version, r.error.as_str()), (VERSION, "bad input"));
    assert!(r.payload.is_empty() && r.state.is_empty() && r.commands.is_empty() && r.llm_context.is_empty());
    let r = ok_response(vec![0x81, 0xa1, 0x61, 0x01]);
    assert_eq!(r.version, VERSION);
    assert_eq!(r.payload, vec![0x81, 0xa1, 0x61, 0x01]);
    assert!(r.error.is_empty() && r.state.is_empty() && r.commands.is_empty());
}

#[test]
fn context_reads_request_and_appends_llm_context() {
    let req = InvokeRequest {
        request_id: "r1".into(),
        trace_id: "t1".into(),
        session_id: "s1".into(),
        llm_session_id: "l1".into(),
        method: "greet".into(),
        skill_id: "com.a.b".into(),
        caller_id: "com.c.d".into(),
        ..Default::default()
    };
    let mut res = InvokeResponse { payload: vec![1], ..Default::default() };
    {
        let mut ctx = Context::new(&req, &mut res);
        assert_eq!(
            (ctx.request_id(), ctx.trace_id(), ctx.session_id(), ctx.llm_session_id()),
            ("r1", "t1", "s1", "l1")
        );
        assert_eq!((ctx.method(), ctx.skill_id(), ctx.caller_id()), ("greet", "com.a.b", "com.c.d"));
        ctx.append_llm_context("first");
        ctx.append_llm_context("second");
    }
    assert_eq!(res.llm_context, "first\nsecond");
    assert_eq!(res.payload, vec![1]);
    {
        let mut ctx = Context::new(&req, &mut res);
        ctx.set_llm_context("reset");
        ctx.append_llm_context("");
    }
    assert_eq!(res.llm_context, "reset\n");
    {
        let mut ctx = Context::new(&req, &mut res);
        ctx.set_llm_context("");
        ctx.append_llm_context("only");
    }
    assert_eq!(res.llm_context, "only");
}
