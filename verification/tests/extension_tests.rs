use miden_zed::config::{string_items, MidenDebugConfig};
use miden_zed::dap::{
    plan_dap_binary, request_kind_from_members, scenario_entries, LookupNeeds, RequestKind, ScenarioRequest, TcpArguments, WorktreeLookups,
};
use miden_zed::extension::{serves_language_server, BinarySettings, MidenExtension};
use miden_zed::json::JsonScalar;
use miden_zed::proxy::{proxy_arguments, DAP_TCP_PROXY};

fn lookups() -> WorktreeLookups {
    WorktreeLookups {
        python3: Some("/usr/bin/python3".to_string()),
        miden_client: Some("/opt/bin/miden-client".to_string()),
        miden_debug: Some("/opt/bin/miden-debug".to_string()),
        root_path: "/work".to_string(),
    }
}

fn strs(v: &[&str]) -> Vec<String> {
    v.iter().map(|s| s.to_string()).collect()
}

#[test]
fn proxy_arguments_full() {
    let args = proxy_arguments(
        "127.0.0.1",
        4711,
        15000,
        Some("/work"),
        Some("/work/a.masm"),
        Some(strs(&["miden-client", "exec"])),
    );
    let mut expected = strs(&["-u", "-c"]);
    expected.push(DAP_TCP_PROXY.to_string());
    expected.extend(strs(&[
        "--host",
        "127.0.0.1",
        "--port",
        "4711",
        "--timeout-ms",
        "15000",
        "--adapter-cwd",
        "/work",
        "--source-path-for-ui",
        "/work/a.masm",
        "--adapter-argv",
        "miden-client",
        "exec",
    ]));
    assert_eq!(args, expected);
}

#[test]
fn proxy_arguments_minimal() {
    let args = proxy_arguments("10.0.0.2", 80, 5, None, None, None);
    let mut expected = strs(&["-u", "-c"]);
    expected.push(DAP_TCP_PROXY.to_string());
    expected.extend(strs(&["--host", "10.0.0.2", "--port", "80", "--timeout-ms", "5"]));
    assert_eq!(args, expected);
}

#[test]
fn debug_config_reads_members() {
    let cfg = MidenDebugConfig::from_json(
        r#"{"host":"10.1.2.3","port":9000,"scriptPath":"s.masm","midenClientPath":"mc",
            "pythonPath":"py","accountId":"0xabc","cwd":"/d"}"#,
    );
    assert_eq!(cfg.host.as_deref(), Some("10.1.2.3"));
    assert_eq!(cfg.port, Some(9000));
    assert_eq!(cfg.script_path.as_deref(), Some("s.masm"));
    assert_eq!(cfg.miden_client_path.as_deref(), Some("mc"));
    assert_eq!(cfg.python_path.as_deref(), Some("py"));
    assert_eq!(cfg.account_id.as_deref(), Some("0xabc"));
    assert_eq!(cfg.cwd.as_deref(), Some("/d"));
}

#[test]
fn debug_config_drops_wrong_types_and_big_ports() {
    let cfg = MidenDebugConfig::from_json(r#"{"host":5,"port":70000,"cwd":null}"#);
    assert_eq!(cfg.host, None);
    assert_eq!(cfg.port, None);
    assert_eq!(cfg.cwd, None);
    let cfg = MidenDebugConfig::from_json(r#"{"port":"4711"}"#);
    assert_eq!(cfg.port, None);
    let cfg = MidenDebugConfig::from_members(None, Some(65535), None, None, None, None, None, None, None, None, None, None);
    assert_eq!(cfg.port, Some(65535));
    let cfg = MidenDebugConfig::from_members(None, Some(65536), None, None, None, None, None, None, None, None, None, None);
    assert_eq!(cfg.port, None);
}

#[test]
fn request_kind_rules() {
    assert_eq!(request_kind_from_members(Some("attach"), true), Ok(RequestKind::Attach));
    assert_eq!(request_kind_from_members(Some("launch"), false), Ok(RequestKind::Launch));
    assert_eq!(
        request_kind_from_members(Some("run"), true),
        Err("unknown `request` kind: run".to_string())
    );
    assert_eq!(request_kind_from_members(None, true), Ok(RequestKind::Launch));
    assert_eq!(request_kind_from_members(None, false), Ok(RequestKind::Attach));
}

#[test]
fn dap_request_kind_reads_config() {
    let ext = MidenExtension::new();
    assert_eq!(
        ext.dap_request_kind("miden", r#"{"request":"launch"}"#),
        Ok(RequestKind::Launch)
    );
    assert_eq!(
        ext.dap_request_kind("miden", r#"{"request":"attach","scriptPath":"x"}"#),
        Ok(RequestKind::Attach)
    );
    assert_eq!(
        ext.dap_request_kind("miden", r#"{"scriptPath":null}"#),
        Ok(RequestKind::Launch)
    );
    assert_eq!(ext.dap_request_kind("miden", r#"{"request":7}"#), Ok(RequestKind::Attach));
    assert_eq!(
        ext.dap_request_kind("miden", r#"{"request":"restart"}"#),
        Err("unknown `request` kind: restart".to_string())
    );
    assert_eq!(
        ext.dap_request_kind("lldb", "{}"),
        Err("unknown debug adapter ID lldb".to_string())
    );
}

#[test]
fn attach_uses_defaults() {
    let ext = MidenExtension::new();
    let config = r#"{"request":"attach"}"#.to_string();
    let plan = ext
        .get_dap_binary("miden", config.clone(), None, None, lookups())
        .unwrap();
    assert_eq!(plan.command, "/usr/bin/python3");
    assert_eq!(plan.cwd.as_deref(), Some("/work"));
    assert_eq!(plan.configuration, config);
    assert_eq!(plan.request, RequestKind::Attach);
    let mut expected = strs(&["-u", "-c"]);
    expected.push(DAP_TCP_PROXY.to_string());
    expected.extend(strs(&[
        "--host",
        "127.0.0.1",
        "--port",
        "4711",
        "--timeout-ms",
        "15000",
        "--adapter-cwd",
        "/work",
    ]));
    assert_eq!(plan.arguments, expected);
}

#[test]
fn launch_starts_client_on_proxy_endpoint() {
    let ext = MidenExtension::new();
    let config = r#"{"request":"launch","scriptPath":"/w/t.masm","host":"127.0.0.2","port":5000,
        "accountId":"0x12","pythonPath":"/py","cwd":"/client"}"#
        .to_string();
    let plan = ext
        .get_dap_binary("miden", config, None, None, lookups())
        .unwrap();
    assert_eq!(plan.command, "/py");
    assert_eq!(plan.cwd.as_deref(), Some("/client"));
    assert_eq!(plan.request, RequestKind::Launch);
    let mut expected = strs(&["-u", "-c"]);
    expected.push(DAP_TCP_PROXY.to_string());
    expected.extend(strs(&[
        "--host",
        "127.0.0.2",
        "--port",
        "5000",
        "--timeout-ms",
        "15000",
        "--adapter-cwd",
        "/client",
        "--source-path-for-ui",
        "/w/t.masm",
        "--adapter-argv",
        "/opt/bin/miden-client",
        "exec",
        "--script-path",
        "/w/t.masm",
        "--start-debug-adapter",
        "127.0.0.2:5000",
        "--account",
        "0x12",
    ]));
    assert_eq!(plan.arguments, expected);
    assert_eq!(plan.arguments[19], format!("{}:{}", plan.arguments[4], plan.arguments[6]));
}

#[test]
fn launch_client_precedence() {
    let ext = MidenExtension::new();
    let config = r#"{"scriptPath":"a.masm","midenClientPath":"/cfg/mc"}"#.to_string();
    let plan = ext
        .get_dap_binary("miden", config.clone(), None, Some("/user/mc".to_string()), lookups())
        .unwrap();
    assert_eq!(plan.arguments[14], "/user/mc");
    let plan = ext
        .get_dap_binary("miden", config, None, None, lookups())
        .unwrap();
    assert_eq!(plan.arguments[14], "/cfg/mc");
    let none = WorktreeLookups {
        python3: None,
        miden_client: None,
        miden_debug: None,
        root_path: "/r".to_string(),
    };
    let plan = ext
        .get_dap_binary("miden", r#"{"scriptPath":"a.masm"}"#.to_string(), None, None, none)
        .unwrap();
    assert_eq!(plan.arguments[14], "miden-client");
    assert_eq!(plan.command, "python3");
}

#[test]
fn tcp_arguments_take_precedence() {
    let ext = MidenExtension::new();
    let tcp = TcpArguments { host: 0x0a00_0001, port: 6000, timeout: Some(300) };
    let plan = ext
        .get_dap_binary(
            "miden",
            r#"{"request":"attach","host":"not an address"}"#.to_string(),
            Some(Ok(tcp)),
            None,
            lookups(),
        )
        .unwrap();
    assert_eq!(&plan.arguments[3..9], &strs(&["--host", "10.0.0.1", "--port", "6000", "--timeout-ms", "300"])[..]);
    let tcp = TcpArguments { host: 0x7f00_0001, port: 1, timeout: None };
    let plan = ext
        .get_dap_binary("miden", "{}".to_string(), Some(Ok(tcp)), None, lookups())
        .unwrap();
    assert_eq!(plan.arguments[8], "15000");
}

#[test]
fn dap_binary_errors_in_order() {
    let ext = MidenExtension::new();
    assert_eq!(
        ext.get_dap_binary("gdb", "not json".to_string(), None, None, lookups()).err(),
        Some("unknown debug adapter ID gdb".to_string())
    );
    let err = ext
        .get_dap_binary("miden", "{not json".to_string(), None, None, lookups())
        .err()
        .unwrap();
    let serde_err = zed_extension_api::serde_json::from_str::<zed_extension_api::serde_json::Value>(
        "{not json",
    )
    .unwrap_err();
    assert_eq!(err, format!("invalid Miden debug config JSON: {serde_err}"));
    assert_eq!(
        ext.get_dap_binary(
            "miden",
            r#"{"request":"bogus"}"#.to_string(),
            Some(Err("no port".to_string())),
            None,
            lookups()
        )
        .err(),
        Some("failed to resolve TCP arguments: no port".to_string())
    );
    assert_eq!(
        ext.get_dap_binary("miden", r#"{"request":"bogus","host":"localhost"}"#.to_string(), None, None, lookups())
            .err(),
        Some("invalid IPv4 address: localhost".to_string())
    );
    assert_eq!(
        ext.get_dap_binary("miden", r#"{"request":"bogus"}"#.to_string(), None, None, lookups())
            .err(),
        Some("unknown `request` kind: bogus".to_string())
    );
    assert_eq!(
        ext.get_dap_binary("miden", r#"{"request":"launch"}"#.to_string(), None, None, lookups())
            .err(),
        Some("`scriptPath` is required for launch".to_string())
    );
}

#[test]
fn scenario_from_new_session_ui() {
    let ext = MidenExtension::new();
    let s = ext
        .dap_config_to_scenario(
            "Debug".to_string(),
            "miden".to_string(),
            ScenarioRequest::Launch { program: "/p.masm".to_string(), cwd: None },
        )
        .unwrap();
    assert_eq!(s.label, "Debug");
    assert_eq!(s.adapter, "miden");
    assert_eq!(
        s.config,
        r#"{"cwd":null,"host":"127.0.0.1","port":4711,"request":"launch","scriptPath":"/p.masm"}"#
    );
    assert_eq!(ext.dap_request_kind("miden", &s.config), Ok(RequestKind::Launch));
    let s = ext
        .dap_config_to_scenario(
            "L".to_string(),
            "miden".to_string(),
            ScenarioRequest::Launch { program: "a \"b\".masm".to_string(), cwd: Some("/w".to_string()) },
        )
        .unwrap();
    assert_eq!(
        s.config,
        r#"{"cwd":"/w","host":"127.0.0.1","port":4711,"request":"launch","scriptPath":"a \"b\".masm"}"#
    );
    let s = ext
        .dap_config_to_scenario("A".to_string(), "miden".to_string(), ScenarioRequest::Attach)
        .unwrap();
    assert_eq!(s.config, r#"{"host":"127.0.0.1","port":4711,"request":"attach"}"#);
    assert_eq!(ext.dap_request_kind("miden", &s.config), Ok(RequestKind::Attach));
}

#[test]
fn scenario_entries_in_order() {
    let e = scenario_entries(ScenarioRequest::Attach);
    let keys: Vec<&str> = e.iter().map(|(k, _)| k.as_str()).collect();
    assert_eq!(keys, vec!["request", "host", "port"]);
    assert!(matches!(&e[0].1, JsonScalar::Str(s) if s == "attach"));
    assert!(matches!(&e[2].1, JsonScalar::Unsigned(4711)));
    let e = scenario_entries(ScenarioRequest::Launch { program: "p".to_string(), cwd: None });
    let keys: Vec<&str> = e.iter().map(|(k, _)| k.as_str()).collect();
    assert_eq!(keys, vec!["request", "scriptPath", "cwd", "host", "port"]);
    assert!(matches!(&e[2].1, JsonScalar::Null));
}

#[test]
fn debugger_launch_links_libraries() {
    let ext = MidenExtension::new();
    let plan = ext
        .get_dap_binary(
            "miden",
            r#"{"request":"launch","runtime":"debugger","programPath":"p.masp","linkLibraries":["std","base"],"programArgs":["1"]}"#.to_string(),
            None,
            None,
            lookups(),
        )
        .unwrap();
    assert_eq!(
        &plan.arguments[13..],
        &strs(&[
            "--adapter-argv",
            "/opt/bin/miden-debug",
            "--start-debug-adapter",
            "127.0.0.1:4711",
            "--link-library",
            "std",
            "--link-library",
            "base",
            "p.masp",
            "--",
            "1",
        ])[..]
    );
    assert_eq!(plan.arguments[12], plan.arguments[17 + 4]);
    let cfg = MidenDebugConfig::from_json(r#"{"linkLibraries":["a",1]}"#);
    assert_eq!(cfg.link_libraries, None);
}

#[test]
fn language_server_prefers_configured_path() {
    let mut ext = MidenExtension::new();
    let env = vec![("PATH".to_string(), "/bin".to_string())];
    let cmd = ext
        .language_server_command(
            "miden-lsp",
            Some(BinarySettings { path: Some("/cfg/lsp".to_string()), arguments: Some(strs(&["--stdio"])) }),
            env.clone(),
            Some("/bin/miden-lsp".to_string()),
        )
        .unwrap();
    assert_eq!(cmd.command, "/cfg/lsp");
    assert_eq!(cmd.args, strs(&["--stdio"]));
    assert_eq!(cmd.env, env);
    assert_eq!(ext.cached_binary_path.as_deref(), Some("/cfg/lsp"));
}

#[test]
fn language_server_reuses_found_binary() {
    let mut ext = MidenExtension::new();
    let cmd = ext
        .language_server_command("miden-lsp", None, vec![], Some("/bin/miden-lsp".to_string()))
        .unwrap();
    assert_eq!(cmd.command, "/bin/miden-lsp");
    assert!(cmd.args.is_empty());
    let cmd = ext
        .language_server_command(
            "miden-lsp",
            Some(BinarySettings { path: None, arguments: None }),
            vec![],
            Some("/other/miden-lsp".to_string()),
        )
        .unwrap();
    assert_eq!(cmd.command, "/bin/miden-lsp");
    let cmd = ext.language_server_command("miden-lsp", None, vec![], None).unwrap();
    assert_eq!(cmd.command, "/bin/miden-lsp");
}

#[test]
fn language_server_errors() {
    let mut ext = MidenExtension::new();
    assert_eq!(
        ext.language_server_command("rust-analyzer", None, vec![], Some("/x".to_string())).err(),
        Some("unknown language server ID rust-analyzer".to_string())
    );
    assert!(ext.cached_binary_path.is_none());
    assert_eq!(
        ext.language_server_command("miden-lsp", None, vec![], None).err(),
        Some("miden-lsp was not found in PATH; configure lsp.binary.path or install miden-lsp".to_string())
    );
}

#[test]
fn command_from_path_remembers() {
    let mut ext = MidenExtension::new();
    let cmd = ext.command_from_path("/a".to_string(), strs(&["x"]), vec![]);
    assert_eq!(cmd.command, "/a");
    assert_eq!(cmd.args, strs(&["x"]));
    assert_eq!(ext.cached_binary_path.as_deref(), Some("/a"));
}

#[test]
fn plan_from_read_members() {
    let parsed = MidenDebugConfig::from_members(
        Some("192.168.1.9".to_string()),
        Some(7000),
        Some("s.masm".to_string()),
        None,
        None,
        None,
        None,
        None,
        None,
        None,
        None,
        None,
    );
    let plan = plan_dap_binary(
        "{}".to_string(),
        parsed,
        None,
        true,
        None,
        None,
        lookups(),
    )
    .unwrap();
    assert_eq!(plan.request, RequestKind::Launch);
    assert_eq!(plan.configuration, "{}");
    assert_eq!(plan.arguments[4], "192.168.1.9");
    assert_eq!(plan.arguments[6], "7000");
    assert_eq!(plan.arguments[19], "192.168.1.9:7000");
    let parsed = MidenDebugConfig::from_members(None, None, None, None, None, None, None, None, None, None, None, None);
    assert_eq!(
        plan_dap_binary("{}".to_string(), parsed, Some("step".to_string()), false, None, None, lookups())
            .err(),
        Some("unknown `request` kind: step".to_string())
    );
}

#[test]
fn plan_request_agrees_with_request_kind() {
    let ext = MidenExtension::new();
    for config in [
        r#"{"request":"attach"}"#,
        r#"{"scriptPath":"a.masm"}"#,
        r#"{}"#,
        r#"{"request":"launch","scriptPath":"b.masm"}"#,
    ] {
        let plan = ext
            .get_dap_binary("miden", config.to_string(), None, None, lookups())
            .unwrap();
        assert_eq!(ext.dap_request_kind("miden", config), Ok(plan.request), "{config}");
    }
}

#[test]
fn debug_config_reads_debugger_members() {
    let cfg = MidenDebugConfig::from_json(
        r#"{"runtime":"debugger","programPath":"p.masp","midenDebugPath":"/md","programArgs":["10","x"]}"#,
    );
    assert_eq!(cfg.runtime.as_deref(), Some("debugger"));
    assert_eq!(cfg.program_path.as_deref(), Some("p.masp"));
    assert_eq!(cfg.miden_debug_path.as_deref(), Some("/md"));
    assert_eq!(cfg.program_args, Some(strs(&["10", "x"])));
    let cfg = MidenDebugConfig::from_json(r#"{"programArgs":["1",2]}"#);
    assert_eq!(cfg.program_args, None);
    let cfg = MidenDebugConfig::from_json(r#"{"programArgs":"1"}"#);
    assert_eq!(cfg.program_args, None);
}

#[test]
fn debugger_launch_runs_program() {
    let ext = MidenExtension::new();
    let config = r#"{"request":"launch","runtime":"debugger","programPath":"/w/fib.masp",
        "programArgs":["10"],"scriptPath":"/w/ignored.masm"}"#
        .to_string();
    let plan = ext
        .get_dap_binary("miden", config, None, None, lookups())
        .unwrap();
    assert_eq!(plan.request, RequestKind::Launch);
    let mut expected = strs(&["-u", "-c"]);
    expected.push(DAP_TCP_PROXY.to_string());
    expected.extend(strs(&[
        "--host",
        "127.0.0.1",
        "--port",
        "4711",
        "--timeout-ms",
        "15000",
        "--adapter-cwd",
        "/work",
        "--source-path-for-ui",
        "/w/fib.masp",
        "--adapter-argv",
        "/opt/bin/miden-debug",
        "--start-debug-adapter",
        "127.0.0.1:4711",
        "/w/fib.masp",
        "--",
        "10",
    ]));
    assert_eq!(plan.arguments, expected);
    let plan = ext
        .get_dap_binary(
            "miden",
            r#"{"request":"launch","runtime":"debugger","programPath":"a.masm","midenDebugPath":"/md","programArgs":[]}"#.to_string(),
            None,
            None,
            lookups(),
        )
        .unwrap();
    assert_eq!(&plan.arguments[13..], &strs(&["--adapter-argv", "/md", "--start-debug-adapter", "127.0.0.1:4711", "a.masm"])[..]);
}

#[test]
fn debugger_launch_errors() {
    let ext = MidenExtension::new();
    assert_eq!(
        ext.get_dap_binary("miden", r#"{"request":"launch","runtime":"debugger","scriptPath":"a"}"#.to_string(), None, None, lookups())
            .err(),
        Some("`programPath` is required for launch".to_string())
    );
    assert_eq!(
        ext.get_dap_binary("miden", r#"{"request":"launch","runtime":"vm"}"#.to_string(), None, None, lookups())
            .err(),
        Some("`scriptPath` is required for launch".to_string())
    );
    let plan = ext
        .get_dap_binary(
            "miden",
            r#"{"request":"launch","runtime":"vm","scriptPath":"s.masm"}"#.to_string(),
            None,
            None,
            lookups(),
        )
        .unwrap();
    assert_eq!(&plan.arguments[14..20], &strs(&["/opt/bin/miden-client", "exec", "--script-path", "s.masm", "--start-debug-adapter", "127.0.0.1:4711"])[..]);
    assert_eq!(plan.command, "/usr/bin/python3");
    let plan = ext
        .get_dap_binary("miden", r#"{"request":"attach","runtime":"vm"}"#.to_string(), None, None, lookups())
        .unwrap();
    assert_eq!(plan.request, RequestKind::Attach);
}

#[test]
fn string_items_all_or_nothing() {
    assert_eq!(string_items(None), None);
    assert_eq!(string_items(Some(vec![])), Some(vec![]));
    assert_eq!(
        string_items(Some(vec![Some("a".to_string()), Some("b".to_string())])),
        Some(strs(&["a", "b"]))
    );
    assert_eq!(string_items(Some(vec![Some("a".to_string()), None])), None);
}

#[test]
fn language_server_lookup_needs() {
    assert!(serves_language_server("miden-lsp"));
    assert!(!serves_language_server("rust-analyzer"));
    let mut ext = MidenExtension::new();
    assert!(ext.needs_path_lookup("miden-lsp", &None));
    assert!(!ext.needs_path_lookup("other", &None));
    assert!(!ext.needs_path_lookup(
        "miden-lsp",
        &Some(BinarySettings { path: Some("/p".to_string()), arguments: None })
    ));
    assert!(ext.needs_path_lookup("miden-lsp", &Some(BinarySettings { path: None, arguments: None })));
    ext.command_from_path("/found".to_string(), vec![], vec![]);
    assert!(!ext.needs_path_lookup("miden-lsp", &None));
}

#[test]
fn dap_lookup_needs() {
    let ext = MidenExtension::new();
    assert!(ext.dap_config_accepted("miden", "{}"));
    assert!(!ext.dap_config_accepted("gdb", "{}"));
    assert!(!ext.dap_config_accepted("miden", "{"));
    let none = LookupNeeds { python3: false, miden_client: false, miden_debug: false, root_path: false };
    assert_eq!(
        ext.dap_lookups_needed(r#"{"request":"attach"}"#, &None, false),
        LookupNeeds { python3: true, root_path: true, ..none }
    );
    assert_eq!(
        ext.dap_lookups_needed(r#"{"scriptPath":"s","pythonPath":"p","cwd":"c"}"#, &None, false),
        LookupNeeds { miden_client: true, ..none }
    );
    assert_eq!(
        ext.dap_lookups_needed(r#"{"scriptPath":"s","pythonPath":"p","cwd":"c"}"#, &None, true),
        none
    );
    assert_eq!(
        ext.dap_lookups_needed(r#"{"request":"launch","runtime":"debugger","programPath":"p.masp"}"#, &None, false),
        LookupNeeds { python3: true, miden_debug: true, root_path: true, ..none }
    );
    assert_eq!(ext.dap_lookups_needed(r#"{"request":"bogus"}"#, &None, false), none);
    assert_eq!(ext.dap_lookups_needed(r#"{"host":"h"}"#, &None, false), none);
    assert_eq!(
        ext.dap_lookups_needed(r#"{"host":"h"}"#, &Some(Err("x".to_string())), false),
        none
    );
}

/// The stdio proxy's own reading of its arguments, written out in Rust.
fn proxy_reads(args: &[String]) -> Option<(Vec<(String, Option<String>)>, Option<Vec<String>>)> {
    let mut args = args.to_vec();
    let mut argv = None;
    if let Some(i) = args.iter().position(|a| a == "--adapter-argv") {
        argv = Some(args[i + 1..].to_vec());
        args.truncate(i);
    }
    let mut values = Vec::new();
    for flag in ["--host", "--port", "--timeout-ms", "--adapter-cwd", "--source-path-for-ui"] {
        match args.iter().position(|a| a == flag) {
            None => values.push((flag.to_string(), None)),
            Some(i) => {
                if i + 1 >= args.len() {
                    return None;
                }
                values.push((flag.to_string(), Some(args[i + 1].clone())));
                args.drain(i..i + 2);
            }
        }
    }
    if !args.is_empty() {
        return None;
    }
    Some((values, argv.filter(|v| !v.is_empty())))
}

#[test]
fn proxy_reads_back_its_arguments() {
    let args = proxy_arguments(
        "10.0.0.3",
        4711,
        900,
        Some("/w"),
        Some("/w/x.masm"),
        Some(strs(&["miden-client", "--host", "exec"])),
    );
    let (values, argv) = proxy_reads(&args[3..]).unwrap();
    assert_eq!(
        values,
        vec![
            ("--host".to_string(), Some("10.0.0.3".to_string())),
            ("--port".to_string(), Some("4711".to_string())),
            ("--timeout-ms".to_string(), Some("900".to_string())),
            ("--adapter-cwd".to_string(), Some("/w".to_string())),
            ("--source-path-for-ui".to_string(), Some("/w/x.masm".to_string())),
        ]
    );
    assert_eq!(argv, Some(strs(&["miden-client", "--host", "exec"])));
    let args = proxy_arguments("1.2.3.4", 1, 2, None, None, None);
    let (values, argv) = proxy_reads(&args[3..]).unwrap();
    assert_eq!(values[3], ("--adapter-cwd".to_string(), None));
    assert_eq!(values[4], ("--source-path-for-ui".to_string(), None));
    assert_eq!(argv, None);
}
