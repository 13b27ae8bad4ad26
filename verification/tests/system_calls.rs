use luminarys_sdk::system::{
    collect_fields, disk_usage, get_env, log_debug, log_error, log_info, log_msg, log_warn, sys_info,
    time_now, DiskUsageRequest, EnvRequest, EnvResponse, LogRequest, LOG_DEBUG, LOG_ERROR, LOG_INFO,
    LOG_WARN,
};
use luminarys_sdk::types::{DiskUsageResult, EmptyRequest, SkillError, SysInfoResult, TimeNowResult};

fn sorted(mut v: Vec<(String, String)>) -> Vec<(String, String)> {
    v.sort();
    v
}

fn owned(v: &[(&str, &str)]) -> Vec<(String, String)> {
    v.iter().map(|(a, b)| (a.to_string(), b.to_string())).collect()
}

#[test]
fn collect_fields_keeps_last_value_of_a_key() {
    let r = collect_fields(&[("a", "1"), ("b", "2"), ("a", "3")]);
    assert_eq!(sorted(r), owned(&[("a", "3"), ("b", "2")]));
}

#[test]
fn collect_fields_of_nothing() {
    assert!(collect_fields(&[]).is_empty());
}

#[test]
fn collect_fields_keeps_distinct_keys() {
    let r = collect_fields(&[("x", ""), ("y", "v"), ("z", "w")]);
    assert_eq!(sorted(r), owned(&[("x", ""), ("y", "v"), ("z", "w")]));
}

#[test]
fn log_msg_sends_level_message_and_fields() {
    let mut seen: Option<LogRequest> = None;
    log_msg("info", "started", &[("k", "1"), ("k", "2")], |q: LogRequest| {
        seen = Some(q);
        Ok(EmptyRequest {})
    });
    let q = seen.unwrap();
    assert_eq!(q.level, "info");
    assert_eq!(q.message, "started");
    assert_eq!(q.fields, owned(&[("k", "2")]));
}

#[test]
fn log_msg_ignores_host_failure() {
    log_msg("warn", "m", &[], |_q: LogRequest| Err(SkillError("log sink down".into())));
}

#[test]
fn log_shorthands_use_their_level() {
    let levels = [LOG_DEBUG, LOG_INFO, LOG_WARN, LOG_ERROR];
    assert_eq!(levels, ["debug", "info", "warn", "error"]);
    let mut got: Vec<String> = Vec::new();
    log_debug("a", &[], |q: LogRequest| {
        got.push(q.level);
        Ok(EmptyRequest {})
    });
    log_info("b", &[], |q: LogRequest| {
        got.push(q.level);
        Ok(EmptyRequest {})
    });
    log_warn("c", &[], |q: LogRequest| {
        got.push(q.level);
        Ok(EmptyRequest {})
    });
    log_error("d", &[("e", "f")], |q: LogRequest| {
        got.push(q.level);
        assert_eq!(q.message, "d");
        assert_eq!(q.fields, owned(&[("e", "f")]));
        Ok(EmptyRequest {})
    });
    assert_eq!(got, vec!["debug", "info", "warn", "error"]);
}

#[test]
fn get_env_returns_value_or_empty() {
    let v = get_env("HOME", |q: EnvRequest| {
        assert_eq!(q.key, "HOME");
        Ok(EnvResponse { value: "/home/skill".into() })
    });
    assert_eq!(v, "/home/skill");
    let v = get_env("MISSING", |_q: EnvRequest| Err(SkillError("not allowed".into())));
    assert_eq!(v, "");
}

#[test]
fn sys_info_and_time_now() {
    let s = sys_info(|_q: EmptyRequest| {
        Ok(SysInfoResult { os: "linux".into(), arch: "amd64".into(), hostname: "h".into(), num_cpu: 4 })
    })
    .unwrap();
    assert_eq!((s.os.as_str(), s.num_cpu), ("linux", 4));
    let t = time_now(|_q: EmptyRequest| Ok(TimeNowResult { unix: 1_700_000_000, ..Default::default() })).unwrap();
    assert_eq!(t.unix, 1_700_000_000);
    let e = time_now(|_q: EmptyRequest| Err(SkillError("clock".into())));
    assert_eq!(e.unwrap_err().0, "clock");
}

#[test]
fn disk_usage_returns_result_or_error() {
    let d = disk_usage("/data", |q: DiskUsageRequest| {
        assert_eq!(q.path, "/data");
        Ok(DiskUsageResult {
            total_bytes: 100,
            free_bytes: 25,
            used_bytes: 75,
            used_pct_bits: 75.0f64.to_bits(),
            error: String::new(),
        })
    })
    .unwrap();
    assert_eq!((d.total_bytes, d.free_bytes, d.used_bytes), (100, 25, 75));
    assert_eq!(f64::from_bits(d.used_pct_bits), 75.0);
    let e = disk_usage("/x", |_q: DiskUsageRequest| {
        Ok(DiskUsageResult { error: "not mounted".into(), ..Default::default() })
    });
    assert_eq!(e.unwrap_err().0, "not mounted");
}
