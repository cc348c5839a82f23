//! The Miden debug adapter: which kind of request a configuration asks for,
//! how to start the stdio proxy that bridges Zed and the TCP adapter, and
//! the configuration that a session started from Zed's new-session UI gets.

use vstd::prelude::*;

use crate::config::{DebugConfigView, MidenDebugConfig, debug_config_of};
use crate::decimal::{decimal, u64_to_decimal};
use crate::extension::MidenExtension;
use crate::ipv4::{ipv4_text, ipv4_to_string, parse_ipv4, parse_ipv4_text};
use crate::json::{json_has_member, json_str_member, json_syntax_error, json_has_member_of,
    json_str_member_of, json_syntax_error_of, json_entries, json_object_text, json_object_text_of,
    JsonScalar, JsonScalarView};
use crate::proxy::{proxy_arguments, proxy_arguments_spec};
use crate::text::{opt_str, same_text, text_result};

verus! {

/// The name under which the extension registers its debug adapter.
pub const ADAPTER_NAME: &'static str = "miden";

/// The host of the adapter when the configuration names none.
pub const DEFAULT_HOST: &'static str = "127.0.0.1";

/// The port of the adapter when the configuration names none.
pub const DEFAULT_PORT: u16 = 4711;

/// How long the proxy tries to connect, in milliseconds, unless Zed's TCP
/// arguments say otherwise.
pub const DEFAULT_TCP_TIMEOUT_MS: u64 = 15000;

/// Whether a debug session starts the program or attaches to a running
/// adapter.
#[derive(Clone, Copy, Debug, PartialEq, Eq, Structural)]
pub enum RequestKind {
    Launch,
    Attach,
}

/// The TCP arguments that Zed resolved from a task's connection template.
#[derive(Clone, Copy, Debug, PartialEq, Eq, Structural)]
pub struct TcpArguments {
    pub host: u32,
    pub port: u16,
    pub timeout: Option<u64>,
}

/// What the worktree answers about the programs and the directory that a
/// debug session may use.
pub struct WorktreeLookups {
    /// Where `python3` is found on the worktree's PATH.
    pub python3: Option<String>,
    /// Where `miden-client` is found on the worktree's PATH.
    pub miden_client: Option<String>,
    /// Where `miden-debug` is found on the worktree's PATH.
    pub miden_debug: Option<String>,
    /// The worktree's root directory.
    pub root_path: String,
}

/// How Zed starts the debug adapter: the proxy's interpreter, its
/// arguments and working directory, the configuration handed on to the
/// adapter, and the kind of request.
pub struct DapBinaryPlan {
    pub command: String,
    pub arguments: Vec<String>,
    pub cwd: Option<String>,
    pub configuration: String,
    pub request: RequestKind,
}

/// A plan, its texts taken by their views.
pub struct DapBinaryPlanView {
    pub command: Seq<char>,
    pub arguments: Seq<Seq<char>>,
    pub cwd: Option<Seq<char>>,
    pub configuration: Seq<char>,
    pub request: RequestKind,
}

impl View for DapBinaryPlan {
    type V = DapBinaryPlanView;

    open spec fn view(&self) -> DapBinaryPlanView {
        DapBinaryPlanView {
            command: self.command@,
            arguments: self.arguments.deep_view(),
            cwd: self.cwd.deep_view(),
            configuration: self.configuration@,
            request: self.request,
        }
    }
}

/// The first of two optional texts that is there.
pub open spec fn or_text(a: Option<Seq<char>>, b: Option<Seq<char>>) -> Option<Seq<char>> {
    match a {
        Some(x) => Some(x),
        None => b,
    }
}

/// An optional text, or `d` where there is none.
pub open spec fn text_or(a: Option<Seq<char>>, d: Seq<char>) -> Seq<char> {
    match a {
        Some(x) => x,
        None => d,
    }
}

/// The kind of request that the `request` member and the presence of a
/// `scriptPath` member ask for: `"attach"` and `"launch"` name themselves,
/// any other text is an error; without a `request`, a `scriptPath` means
/// launch and its absence means attach to a server the user started.
pub open spec fn request_kind_spec(request: Option<Seq<char>>, has_script_path: bool) -> Result<
    RequestKind,
    Seq<char>,
> {
    match request {
        Some(r) => if r == "attach"@ {
            Ok(RequestKind::Attach)
        } else if r == "launch"@ {
            Ok(RequestKind::Launch)
        } else {
            Err("unknown `request` kind: "@ + r)
        },
        None => if has_script_path {
            Ok(RequestKind::Launch)
        } else {
            Ok(RequestKind::Attach)
        },
    }
}

/// The error for a debug adapter that is not this extension's.
pub open spec fn unknown_adapter_error(adapter_name: Seq<char>) -> Seq<char> {
    "unknown debug adapter ID "@ + adapter_name
}

/// What `dap_request_kind` answers for the adapter `adapter_name` and the
/// JSON configuration `config`.
pub open spec fn dap_request_kind_spec(adapter_name: Seq<char>, config: Seq<char>) -> Result<
    RequestKind,
    Seq<char>,
> {
    if adapter_name != ADAPTER_NAME@ {
        Err(unknown_adapter_error(adapter_name))
    } else {
        request_kind_spec(
            json_str_member(config, "request"@),
            json_has_member(config, "scriptPath"@),
        )
    }
}

/// Zed's TCP arguments, the error text taken by its view.
pub open spec fn tcp_view(tcp: Option<Result<TcpArguments, String>>) -> Option<
    Result<TcpArguments, Seq<char>>,
> {
    match tcp {
        Some(r) => Some(text_result(r)),
        None => None,
    }
}

/// The adapter's endpoint and the proxy's connect timeout: from Zed's TCP
/// arguments where the task has a connection template (its host written as
/// a dotted quad); else from the configuration, with the default host and
/// port where it names none, and the host checked to be a dotted quad.
pub open spec fn endpoint_spec(
    cfg: DebugConfigView,
    tcp: Option<Result<TcpArguments, Seq<char>>>,
) -> Result<(Seq<char>, u16, u64), Seq<char>> {
    match tcp {
        Some(Ok(t)) => Ok(
            (
                ipv4_text(t.host),
                t.port,
                match t.timeout {
                    Some(ms) => ms,
                    None => DEFAULT_TCP_TIMEOUT_MS,
                },
            ),
        ),
        Some(Err(e)) => Err("failed to resolve TCP arguments: "@ + e),
        None => {
            let host = text_or(cfg.host, DEFAULT_HOST@);
            let port = match cfg.port {
                Some(p) => p,
                None => DEFAULT_PORT,
            };
            match parse_ipv4_text(host) {
                Err(e) => Err(e),
                Ok(_) => Ok((host, port, DEFAULT_TCP_TIMEOUT_MS)),
            }
        },
    }
}

/// The backend that a launch starts.
#[derive(Clone, Copy, Debug, PartialEq, Eq, Structural)]
pub enum Runtime {
    /// `miden-client exec`, for transaction scripts.
    Client,
    /// `miden-debug`, for standalone programs and packages.
    Debugger,
}

/// The backend that the `runtime` member names: the debugger where it is
/// `"debugger"`; the client otherwise (`"client"`, no `runtime`, or any
/// other value).
pub open spec fn runtime_spec(runtime: Option<Seq<char>>) -> Runtime {
    match runtime {
        Some(r) => if r == "debugger"@ {
            Runtime::Debugger
        } else {
            Runtime::Client
        },
        None => Runtime::Client,
    }
}

/// The address on which a launched backend listens: `host:port`.
pub open spec fn listen_address(host: Seq<char>, port: u16) -> Seq<char> {
    host + ":"@ + decimal(port as nat)
}

/// `miden-client exec` on the configured script, listening on `listen`,
/// with the account where one is configured. The client is the one Zed was
/// told of, else the configured one, else the one on PATH, else
/// `miden-client` itself.
pub open spec fn client_argv_spec(
    cfg: DebugConfigView,
    user_path: Option<Seq<char>>,
    which_client: Option<Seq<char>>,
    listen: Seq<char>,
) -> Result<Seq<Seq<char>>, Seq<char>> {
    match cfg.script_path {
        None => Err("`scriptPath` is required for launch"@),
        Some(script_path) => {
            let client = text_or(
                or_text(or_text(user_path, cfg.miden_client_path), which_client),
                "miden-client"@,
            );
            let base = seq![
                client,
                "exec"@,
                "--script-path"@,
                script_path,
                "--start-debug-adapter"@,
                listen,
            ];
            Ok(
                match cfg.account_id {
                    Some(a) => base + seq!["--account"@, a],
                    None => base,
                },
            )
        },
    }
}

/// A `--link-library` flag before each library, in order.
pub open spec fn link_library_args(libs: Seq<Seq<char>>) -> Seq<Seq<char>>
    decreases libs.len(),
{
    if libs.len() == 0 {
        Seq::<Seq<char>>::empty()
    } else {
        link_library_args(libs.drop_last()) + seq!["--link-library"@, libs.last()]
    }
}

/// Each library takes two arguments.
pub proof fn lemma_link_library_args_len(libs: Seq<Seq<char>>)
    ensures
        link_library_args(libs).len() == 2 * libs.len(),
    decreases libs.len(),
{
    if libs.len() > 0 {
        lemma_link_library_args_len(libs.drop_last());
    }
}

/// The configured libraries; none where none are configured.
pub open spec fn configured_libraries(libs: Option<Seq<Seq<char>>>) -> Seq<Seq<char>> {
    match libs {
        Some(l) => l,
        None => Seq::<Seq<char>>::empty(),
    }
}

/// `miden-debug` listening on `listen`, linking the configured libraries
/// (`--link-library`) and running the configured program, with the
/// program's arguments after `--` where there are any. The
/// debugger is the one Zed was told of, else the configured one, else the
/// one on PATH, else `miden-debug` itself.
pub open spec fn debugger_argv_spec(
    cfg: DebugConfigView,
    user_path: Option<Seq<char>>,
    which_debugger: Option<Seq<char>>,
    listen: Seq<char>,
) -> Result<Seq<Seq<char>>, Seq<char>> {
    match cfg.program_path {
        None => Err("`programPath` is required for launch"@),
        Some(program_path) => {
            let debugger = text_or(
                or_text(or_text(user_path, cfg.miden_debug_path), which_debugger),
                "miden-debug"@,
            );
            let base = seq![debugger, "--start-debug-adapter"@, listen] + link_library_args(
                configured_libraries(cfg.link_libraries),
            ) + seq![program_path];
            Ok(
                match cfg.program_args {
                    Some(a) => if a.len() > 0 {
                        base.push("--"@) + a
                    } else {
                        base
                    },
                    None => base,
                },
            )
        },
    }
}

/// The command line that starts the backend for a launch (none for an
/// attach), as the `runtime` member asks.
pub open spec fn adapter_argv_spec(
    kind: RequestKind,
    cfg: DebugConfigView,
    user_path: Option<Seq<char>>,
    which_client: Option<Seq<char>>,
    which_debugger: Option<Seq<char>>,
    host: Seq<char>,
    port: u16,
) -> Result<Option<Seq<Seq<char>>>, Seq<char>> {
    match kind {
        RequestKind::Attach => Ok(None),
        RequestKind::Launch => match runtime_spec(cfg.runtime) {
            Runtime::Client => match client_argv_spec(
                cfg,
                user_path,
                which_client,
                listen_address(host, port),
            ) {
                Err(e) => Err(e),
                Ok(v) => Ok(Some(v)),
            },
            Runtime::Debugger => match debugger_argv_spec(
                cfg,
                user_path,
                which_debugger,
                listen_address(host, port),
            ) {
                Err(e) => Err(e),
                Ok(v) => Ok(Some(v)),
            },
        },
    }
}

/// The source that the proxy tells the UI about: the program of a launch
/// with the debugger runtime, else the configured script.
pub open spec fn ui_source_spec(kind: RequestKind, cfg: DebugConfigView) -> Option<Seq<char>> {
    if kind == RequestKind::Launch && runtime_spec(cfg.runtime) == Runtime::Debugger {
        cfg.program_path
    } else {
        cfg.script_path
    }
}

/// The plan for a configuration `config` that is JSON, given what was read
/// out of it: the configuration members `cfg`, the `request` member (where
/// it is a string) and whether there is a `scriptPath` member. Errors come
/// in this order: TCP arguments that Zed could not resolve, or a configured
/// host that is no dotted quad; an unknown request kind; for a launch, a
/// missing `scriptPath` (client) or `programPath` (debugger). Otherwise the proxy runs under the configured Python (else
/// `python3` on PATH, else `python3`), in the configured directory (else the
/// worktree root), with the arguments that point it at the endpoint, at the
/// source for the UI, and, for a launch, at the backend's command line.
pub open spec fn dap_plan_spec(
    config: Seq<char>,
    cfg: DebugConfigView,
    request: Option<Seq<char>>,
    has_script_path: bool,
    tcp: Option<Result<TcpArguments, Seq<char>>>,
    user_path: Option<Seq<char>>,
    python3: Option<Seq<char>>,
    miden_client: Option<Seq<char>>,
    miden_debug: Option<Seq<char>>,
    root_path: Seq<char>,
) -> Result<DapBinaryPlanView, Seq<char>> {
    match endpoint_spec(cfg, tcp) {
        Err(e) => Err(e),
        Ok((host, port, timeout_ms)) => match request_kind_spec(request, has_script_path) {
            Err(e) => Err(e),
            Ok(kind) => match adapter_argv_spec(
                kind,
                cfg,
                user_path,
                miden_client,
                miden_debug,
                host,
                port,
            ) {
                Err(e) => Err(e),
                Ok(argv) => {
                    let cwd = or_text(cfg.cwd, Some(root_path));
                    Ok(
                        DapBinaryPlanView {
                            command: text_or(or_text(cfg.python_path, python3), "python3"@),
                            arguments: proxy_arguments_spec(
                                host,
                                port,
                                timeout_ms,
                                cwd,
                                ui_source_spec(kind, cfg),
                                argv,
                            ),
                            cwd,
                            configuration: config,
                            request: kind,
                        },
                    )
                },
            },
        },
    }
}

/// What `get_dap_binary` answers: an error for another adapter, then for
/// configuration text that is not JSON; else the plan for what the JSON
/// holds.
pub open spec fn dap_binary_spec(
    adapter_name: Seq<char>,
    config: Seq<char>,
    tcp: Option<Result<TcpArguments, Seq<char>>>,
    user_path: Option<Seq<char>>,
    python3: Option<Seq<char>>,
    miden_client: Option<Seq<char>>,
    miden_debug: Option<Seq<char>>,
    root_path: Seq<char>,
) -> Result<DapBinaryPlanView, Seq<char>> {
    if adapter_name != ADAPTER_NAME@ {
        Err(unknown_adapter_error(adapter_name))
    } else if json_syntax_error(config) is Some {
        Err("invalid Miden debug config JSON: "@ + json_syntax_error(config)->0)
    } else {
        dap_plan_spec(
            config,
            debug_config_of(config),
            json_str_member(config, "request"@),
            json_has_member(config, "scriptPath"@),
            tcp,
            user_path,
            python3,
            miden_client,
            miden_debug,
            root_path,
        )
    }
}

/// A plan result, its texts taken by their views.
pub open spec fn plan_result(r: Result<DapBinaryPlan, String>) -> Result<DapBinaryPlanView, Seq<char>> {
    match r {
        Ok(p) => Ok(p@),
        Err(e) => Err(e@),
    }
}

/// The kind of request asked for by the `request` member (`None` where it
/// is missing or no string) and the presence of a `scriptPath` member.
pub fn request_kind_from_members(request: Option<&str>, has_script_path: bool) -> (r: Result<
    RequestKind,
    String,
>)
    ensures
        text_result(r) == request_kind_spec(request.deep_view(), has_script_path),
{
    match request {
        Some(r) => {
            if same_text(r, "attach") {
                Ok(RequestKind::Attach)
            } else if same_text(r, "launch") {
                Ok(RequestKind::Launch)
            } else {
                let mut e = String::from_str("unknown `request` kind: ");
                e.append(r);
                Err(e)
            }
        },
        None => {
            if has_script_path {
                Ok(RequestKind::Launch)
            } else {
                Ok(RequestKind::Attach)
            }
        },
    }
}

fn unknown_adapter(adapter_name: &str) -> (r: String)
    ensures
        r@ == unknown_adapter_error(adapter_name@),
{
    let mut e = String::from_str("unknown debug adapter ID ");
    e.append(adapter_name);
    e
}

/// An optional text, or `d` where there is none.
fn or_default(a: Option<String>, d: &str) -> (r: String)
    ensures
        r@ == text_or(a.deep_view(), d@),
{
    match a {
        Some(x) => x,
        None => String::from_str(d),
    }
}

/// The first of two optional texts that is there.
fn first_of(a: Option<String>, b: Option<String>) -> (r: Option<String>)
    ensures
        r.deep_view() == or_text(a.deep_view(), b.deep_view()),
{
    match a {
        Some(x) => Some(x),
        None => b,
    }
}

/// The adapter's endpoint and the proxy's connect timeout.
fn endpoint(cfg: &MidenDebugConfig, tcp: Option<Result<TcpArguments, String>>) -> (r: Result<
    (String, u16, u64),
    String,
>)
    ensures
        match (r, endpoint_spec(cfg@, tcp_view(tcp))) {
            (Ok((h, p, t)), Ok((sh, sp, st))) => h@ == sh && p == sp && t == st,
            (Err(e), Err(se)) => e@ == se,
            _ => false,
        },
{
    match tcp {
        Some(Ok(t)) => {
            let timeout = match t.timeout {
                Some(ms) => ms,
                None => DEFAULT_TCP_TIMEOUT_MS,
            };
            Ok((ipv4_to_string(t.host), t.port, timeout))
        },
        Some(Err(e)) => {
            let mut m = String::from_str("failed to resolve TCP arguments: ");
            m.append(e.as_str());
            Err(m)
        },
        None => {
            let host = or_default(cfg.host.clone(), DEFAULT_HOST);
            let port = match cfg.port {
                Some(p) => p,
                None => DEFAULT_PORT,
            };
            match parse_ipv4(host.as_str()) {
                Err(e) => Err(e),
                Ok(_) => Ok((host, port, DEFAULT_TCP_TIMEOUT_MS)),
            }
        },
    }
}

/// The backend that the `runtime` member names.
fn runtime_of(runtime: &Option<String>) -> (r: Runtime)
    ensures
        r == runtime_spec(runtime.deep_view()),
{
    match runtime {
        Some(r) => {
            if same_text(r.as_str(), "debugger") {
                Runtime::Debugger
            } else {
                Runtime::Client
            }
        },
        None => Runtime::Client,
    }
}

/// The client's command line for a launch.
fn client_argv(
    cfg: &MidenDebugConfig,
    user_path: Option<String>,
    which_client: Option<String>,
    listen: String,
) -> (r: Result<Vec<String>, String>)
    ensures
        match (r, client_argv_spec(cfg@, user_path.deep_view(), which_client.deep_view(), listen@)) {
            (Ok(v), Ok(sv)) => v.deep_view() == sv,
            (Err(e), Err(se)) => e@ == se,
            _ => false,
        },
{
    let script_path = match &cfg.script_path {
        Some(s) => s.clone(),
        None => {
            return Err(String::from_str("`scriptPath` is required for launch"));
        },
    };
    let client = or_default(
        first_of(first_of(user_path, cfg.miden_client_path.clone()), which_client),
        "miden-client",
    );
    let mut args: Vec<String> = Vec::new();
    args.push(client);
    args.push(String::from_str("exec"));
    args.push(String::from_str("--script-path"));
    args.push(script_path);
    args.push(String::from_str("--start-debug-adapter"));
    args.push(listen);
    if let Some(account_id) = &cfg.account_id {
        args.push(String::from_str("--account"));
        args.push(account_id.clone());
    }
    proof {
        let sv = client_argv_spec(cfg@, user_path.deep_view(), which_client.deep_view(), listen@);
        assert(args.deep_view() =~= sv->Ok_0);
    }
    Ok(args)
}

/// The debugger's command line for a launch.
fn debugger_argv(
    cfg: &MidenDebugConfig,
    user_path: Option<String>,
    which_debugger: Option<String>,
    listen: String,
) -> (r: Result<Vec<String>, String>)
    ensures
        match (r, debugger_argv_spec(cfg@, user_path.deep_view(), which_debugger.deep_view(), listen@)) {
            (Ok(v), Ok(sv)) => v.deep_view() == sv,
            (Err(e), Err(se)) => e@ == se,
            _ => false,
        },
{
    let program_path = match &cfg.program_path {
        Some(s) => s.clone(),
        None => {
            return Err(String::from_str("`programPath` is required for launch"));
        },
    };
    let debugger = or_default(
        first_of(first_of(user_path, cfg.miden_debug_path.clone()), which_debugger),
        "miden-debug",
    );
    let mut args: Vec<String> = Vec::new();
    args.push(debugger);
    args.push(String::from_str("--start-debug-adapter"));
    args.push(listen);
    let ghost head = args.deep_view();
    let ghost libs = configured_libraries(cfg.link_libraries.deep_view());
    if let Some(link_libraries) = &cfg.link_libraries {
        let mut k: usize = 0;
        assert(libs.take(0) =~= Seq::<Seq<char>>::empty());
        assert(args.deep_view() =~= head + link_library_args(libs.take(0)));
        while k < link_libraries.len()
            invariant
                libs == link_libraries.deep_view(),
                k <= link_libraries.len(),
                args.deep_view() =~= head + link_library_args(libs.take(k as int)),
            decreases link_libraries.len() - k,
        {
            let ghost before = args.deep_view();
            args.push(String::from_str("--link-library"));
            let lib = link_libraries[k].clone();
            assert(lib@ == libs[k as int]);
            args.push(lib);
            assert(libs.take(k + 1).drop_last() =~= libs.take(k as int));
            assert(libs.take(k + 1).last() == libs[k as int]);
            assert(link_library_args(libs.take(k + 1)) == link_library_args(libs.take(k as int))
                + seq!["--link-library"@, libs[k as int]]);
            assert(args.deep_view() =~= before + seq!["--link-library"@, libs[k as int]]);
            k = k + 1;
        }
        assert(libs.take(k as int) =~= libs);
        assert(args.deep_view() =~= head + link_library_args(libs));
    } else {
        assert(libs =~= Seq::<Seq<char>>::empty());
        assert(args.deep_view() =~= head + link_library_args(libs));
    }
    let ghost program = program_path@;
    args.push(program_path);
    let ghost base = args.deep_view();
    proof {
        let debugger_text = text_or(
            or_text(or_text(user_path.deep_view(), cfg@.miden_debug_path), which_debugger.deep_view()),
            "miden-debug"@,
        );
        assert(head =~= seq![debugger_text, "--start-debug-adapter"@, listen@]);
        assert(libs == configured_libraries(cfg@.link_libraries));
        assert(program == cfg@.program_path->0);
        assert(base =~= seq![debugger_text, "--start-debug-adapter"@, listen@] + link_library_args(
            configured_libraries(cfg@.link_libraries),
        ) + seq![program]);
    }
    if let Some(program_args) = &cfg.program_args {
        if program_args.len() > 0 {
            let mut rest = program_args.clone();
            args.push(String::from_str("--"));
            args.append(&mut rest);
        }
    }
    proof {
        let sv = debugger_argv_spec(cfg@, user_path.deep_view(), which_debugger.deep_view(), listen@);
        assert(args.deep_view() =~= sv->Ok_0);
    }
    Ok(args)
}

/// The backend's command line for a launch; none for an attach.
fn adapter_argv(
    kind: RequestKind,
    cfg: &MidenDebugConfig,
    user_path: Option<String>,
    which_client: Option<String>,
    which_debugger: Option<String>,
    host: &str,
    port: u16,
) -> (r: Result<Option<Vec<String>>, String>)
    ensures
        match (r, adapter_argv_spec(
            kind,
            cfg@,
            user_path.deep_view(),
            which_client.deep_view(),
            which_debugger.deep_view(),
            host@,
            port,
        )) {
            (Ok(v), Ok(sv)) => v.deep_view() == sv,
            (Err(e), Err(se)) => e@ == se,
            _ => false,
        },
{
    match kind {
        RequestKind::Attach => Ok(None),
        RequestKind::Launch => {
            let runtime = runtime_of(&cfg.runtime);
            let mut listen = String::from_str(host);
            listen.append(":");
            let port_text = u64_to_decimal(port as u64);
            listen.append(port_text.as_str());
            let argv = match runtime {
                Runtime::Client => client_argv(cfg, user_path, which_client, listen),
                Runtime::Debugger => debugger_argv(cfg, user_path, which_debugger, listen),
            };
            match argv {
                Ok(v) => Ok(Some(v)),
                Err(e) => Err(e),
            }
        },
    }
}

/// The source that the proxy tells the UI about.
fn ui_source(kind: RequestKind, cfg: &MidenDebugConfig) -> (r: Option<&str>)
    ensures
        r.deep_view() == ui_source_spec(kind, cfg@),
{
    let debugger_launch = match kind {
        RequestKind::Launch => match runtime_of(&cfg.runtime) {
            Runtime::Debugger => true,
            Runtime::Client => false,
        },
        RequestKind::Attach => false,
    };
    if debugger_launch {
        opt_str(&cfg.program_path)
    } else {
        opt_str(&cfg.script_path)
    }
}

impl MidenExtension {
    /// Decides whether the configuration `config` (JSON text) for the
    /// adapter `adapter_name` asks to launch the program or to attach to a
    /// running adapter.
    pub fn dap_request_kind(&self, adapter_name: &str, config: &str) -> (r: Result<
        RequestKind,
        String,
    >)
        ensures
            text_result(r) == dap_request_kind_spec(adapter_name@, config@),
    {
        if !same_text(adapter_name, ADAPTER_NAME) {
            return Err(unknown_adapter(adapter_name));
        }
        let request = json_str_member_of(config, "request");
        let has_script_path = json_has_member_of(config, "scriptPath");
        match request {
            Some(r) => request_kind_from_members(Some(r.as_str()), has_script_path),
            None => request_kind_from_members(None, has_script_path),
        }
    }

    /// Plans how Zed starts the Miden debug adapter for the debug task
    /// whose JSON configuration is `config`.
    pub fn get_dap_binary(
        &self,
        adapter_name: &str,
        config: String,
        tcp: Option<Result<TcpArguments, String>>,
        user_provided_debug_adapter_path: Option<String>,
        worktree: WorktreeLookups,
    ) -> (r: Result<DapBinaryPlan, String>)
        ensures
            plan_result(r) == dap_binary_spec(
                adapter_name@,
                config@,
                tcp_view(tcp),
                user_provided_debug_adapter_path.deep_view(),
                worktree.python3.deep_view(),
                worktree.miden_client.deep_view(),
                worktree.miden_debug.deep_view(),
                worktree.root_path@,
            ),
    {
        if !same_text(adapter_name, ADAPTER_NAME) {
            return Err(unknown_adapter(adapter_name));
        }
        if let Some(err) = json_syntax_error_of(config.as_str()) {
            let mut e = String::from_str("invalid Miden debug config JSON: ");
            e.append(err.as_str());
            return Err(e);
        }
        let parsed = MidenDebugConfig::from_json(config.as_str());
        let request = json_str_member_of(config.as_str(), "request");
        let has_script_path = json_has_member_of(config.as_str(), "scriptPath");
        plan_dap_binary(
            config,
            parsed,
            request,
            has_script_path,
            tcp,
            user_provided_debug_adapter_path,
            worktree,
        )
    }
}

/// Plans how Zed starts the Miden debug adapter for the JSON configuration
/// `config`, given what was read out of it: its members `parsed`, its
/// `request` member where that is a string, and whether it has a
/// `scriptPath` member.
pub fn plan_dap_binary(
    config: String,
    parsed: MidenDebugConfig,
    request: Option<String>,
    has_script_path: bool,
    tcp: Option<Result<TcpArguments, String>>,
    user_provided_debug_adapter_path: Option<String>,
    worktree: WorktreeLookups,
) -> (r: Result<DapBinaryPlan, String>)
    ensures
        plan_result(r) == dap_plan_spec(
            config@,
            parsed@,
            request.deep_view(),
            has_script_path,
            tcp_view(tcp),
            user_provided_debug_adapter_path.deep_view(),
            worktree.python3.deep_view(),
            worktree.miden_client.deep_view(),
            worktree.miden_debug.deep_view(),
            worktree.root_path@,
        ),
{
    let (host, port, timeout_ms) = match endpoint(&parsed, tcp) {
        Ok(t) => t,
        Err(e) => {
            return Err(e);
        },
    };
    let request_kind = match request_kind_from_members(opt_str(&request), has_script_path) {
        Ok(k) => k,
        Err(e) => {
            return Err(e);
        },
    };
    let proxy_python = or_default(first_of(parsed.python_path.clone(), worktree.python3), "python3");
    let proxy_cwd = first_of(parsed.cwd.clone(), Some(worktree.root_path));
    let argv = match adapter_argv(
        request_kind,
        &parsed,
        user_provided_debug_adapter_path,
        worktree.miden_client,
        worktree.miden_debug,
        host.as_str(),
        port,
    ) {
        Ok(v) => v,
        Err(e) => {
            return Err(e);
        },
    };
    let arguments = proxy_arguments(
        host.as_str(),
        port,
        timeout_ms,
        opt_str(&proxy_cwd),
        ui_source(request_kind, &parsed),
        argv,
    );
    Ok(
        DapBinaryPlan {
            command: proxy_python,
            arguments,
            cwd: proxy_cwd,
            configuration: config,
            request: request_kind,
        },
    )
}

/// Which worktree queries the plan for a debug session uses: the PATH
/// lookups of `python3`, `miden-client` and `miden-debug`, and the root.
#[derive(Clone, Copy, Debug, PartialEq, Eq, Structural)]
pub struct LookupNeeds {
    pub python3: bool,
    pub miden_client: bool,
    pub miden_debug: bool,
    pub root_path: bool,
}

/// The worktree queries that planning for the JSON configuration `config`
/// uses, as the plan gets to them: none once the endpoint or the request
/// kind is refused; then `python3` where no Python is configured, the root
/// where no directory is configured, and, for a launch with the script (or
/// program) its backend needs, the backend's PATH lookup where neither Zed
/// nor the configuration names its binary.
pub open spec fn lookups_needed_spec(
    config: Seq<char>,
    tcp: Option<Result<TcpArguments, Seq<char>>>,
    has_user_path: bool,
) -> LookupNeeds {
    let cfg = debug_config_of(config);
    let kind = request_kind_spec(
        json_str_member(config, "request"@),
        json_has_member(config, "scriptPath"@),
    );
    let reached = endpoint_spec(cfg, tcp) is Ok && kind is Ok;
    let launch = kind == Ok::<RequestKind, Seq<char>>(RequestKind::Launch);
    LookupNeeds {
        python3: reached && cfg.python_path is None,
        miden_client: reached && launch && runtime_spec(cfg.runtime) == Runtime::Client
            && cfg.script_path is Some && !has_user_path && cfg.miden_client_path is None,
        miden_debug: reached && launch && runtime_spec(cfg.runtime) == Runtime::Debugger
            && cfg.program_path is Some && !has_user_path && cfg.miden_debug_path is None,
        root_path: reached && cfg.cwd is None,
    }
}

/// Whether the endpoint of the configuration `cfg` is accepted.
fn endpoint_ok(cfg: &MidenDebugConfig, tcp: &Option<Result<TcpArguments, String>>) -> (r: bool)
    ensures
        r == endpoint_spec(cfg@, tcp_view(*tcp)) is Ok,
{
    match tcp {
        Some(Ok(_)) => true,
        Some(Err(_)) => false,
        None => {
            let host = or_default(cfg.host.clone(), DEFAULT_HOST);
            parse_ipv4(host.as_str()).is_ok()
        },
    }
}

impl MidenExtension {
    /// Whether a debug task for the adapter `adapter_name` with the
    /// configuration `config` gets past the first checks: the adapter is
    /// this extension's and the configuration is JSON.
    pub fn dap_config_accepted(&self, adapter_name: &str, config: &str) -> (r: bool)
        ensures
            r == (adapter_name@ == ADAPTER_NAME@ && json_syntax_error(config@) is None),
    {
        same_text(adapter_name, ADAPTER_NAME) && json_syntax_error_of(config).is_none()
    }

    /// The worktree queries that planning for the JSON configuration
    /// `config` uses, given Zed's TCP arguments and whether Zed names the
    /// adapter binary.
    pub fn dap_lookups_needed(
        &self,
        config: &str,
        tcp: &Option<Result<TcpArguments, String>>,
        has_user_path: bool,
    ) -> (r: LookupNeeds)
        ensures
            r == lookups_needed_spec(config@, tcp_view(*tcp), has_user_path),
    {
        let cfg = MidenDebugConfig::from_json(config);
        let request = json_str_member_of(config, "request");
        let has_script_path = json_has_member_of(config, "scriptPath");
        let kind = request_kind_from_members(opt_str(&request), has_script_path);
        let reached = endpoint_ok(&cfg, tcp) && kind.is_ok();
        let launch = match kind {
            Ok(RequestKind::Launch) => true,
            _ => false,
        };
        let runtime = runtime_of(&cfg.runtime);
        let client = match runtime {
            Runtime::Client => true,
            Runtime::Debugger => false,
        };
        LookupNeeds {
            python3: reached && cfg.python_path.is_none(),
            miden_client: reached && launch && client && cfg.script_path.is_some() && !has_user_path
                && cfg.miden_client_path.is_none(),
            miden_debug: reached && launch && !client && cfg.program_path.is_some() && !has_user_path
                && cfg.miden_debug_path.is_none(),
            root_path: reached && cfg.cwd.is_none(),
        }
    }
}

/// The request of a debug session started from Zed's new-session UI.
pub enum ScenarioRequest {
    /// Start `program` in `cwd`.
    Launch { program: String, cwd: Option<String> },
    /// Attach to a running process; the process ID is not used.
    Attach,
}

/// A debug scenario: its label, its adapter and its adapter configuration
/// as JSON text.
pub struct DebugScenarioPlan {
    pub label: String,
    pub adapter: String,
    pub config: String,
}

/// A scenario, its texts taken by their views.
pub struct DebugScenarioView {
    pub label: Seq<char>,
    pub adapter: Seq<char>,
    pub config: Seq<char>,
}

impl View for DebugScenarioPlan {
    type V = DebugScenarioView;

    open spec fn view(&self) -> DebugScenarioView {
        DebugScenarioView { label: self.label@, adapter: self.adapter@, config: self.config@ }
    }
}

/// The members of the adapter configuration of a session from the
/// new-session UI: a launch runs the program as the script in its directory
/// (`null` where there is none); an attach knows only a process ID, which
/// the adapter does not use, so it attaches at the default endpoint. Both
/// name the default host and port.
pub open spec fn scenario_entries_spec(launch: Option<(Seq<char>, Option<Seq<char>>)>) -> Seq<
    (Seq<char>, JsonScalarView),
> {
    let endpoint = seq![
        ("host"@, JsonScalarView::Str(DEFAULT_HOST@)),
        ("port"@, JsonScalarView::Unsigned(DEFAULT_PORT as u64)),
    ];
    match launch {
        Some((program, cwd)) => seq![
            ("request"@, JsonScalarView::Str("launch"@)),
            ("scriptPath"@, JsonScalarView::Str(program)),
            (
                "cwd"@,
                match cwd {
                    Some(c) => JsonScalarView::Str(c),
                    None => JsonScalarView::Null,
                },
            ),
        ] + endpoint,
        None => seq![("request"@, JsonScalarView::Str("attach"@))] + endpoint,
    }
}

/// The scenario for a session from the new-session UI: its label and
/// adapter, and its members written as a JSON object.
pub open spec fn scenario_spec(
    label: Seq<char>,
    adapter: Seq<char>,
    launch: Option<(Seq<char>, Option<Seq<char>>)>,
) -> DebugScenarioView {
    DebugScenarioView { label, adapter, config: json_object_text(scenario_entries_spec(launch)) }
}

/// A new-session request, taken by its view: the program and directory of
/// a launch, none for an attach.
pub open spec fn scenario_request_view(r: ScenarioRequest) -> Option<(Seq<char>, Option<Seq<char>>)> {
    match r {
        ScenarioRequest::Launch { program, cwd } => Some((program@, cwd.deep_view())),
        ScenarioRequest::Attach => None,
    }
}

fn text_entry(key: &str, value: String) -> (r: (String, JsonScalar))
    ensures
        r.0@ == key@,
        r.1@ == JsonScalarView::Str(value@),
{
    (String::from_str(key), JsonScalar::Str(value))
}

/// The members of the adapter configuration of a session from the
/// new-session UI.
pub fn scenario_entries(request: ScenarioRequest) -> (r: Vec<(String, JsonScalar)>)
    ensures
        json_entries(r@) == scenario_entries_spec(scenario_request_view(request)),
{
    let ghost want = scenario_entries_spec(scenario_request_view(request));
    let mut entries: Vec<(String, JsonScalar)> = Vec::new();
    match request {
        ScenarioRequest::Launch { program, cwd } => {
            entries.push(text_entry("request", String::from_str("launch")));
            entries.push(text_entry("scriptPath", program));
            let cwd_value = match cwd {
                Some(c) => JsonScalar::Str(c),
                None => JsonScalar::Null,
            };
            entries.push((String::from_str("cwd"), cwd_value));
        },
        ScenarioRequest::Attach => {
            entries.push(text_entry("request", String::from_str("attach")));
        },
    }
    entries.push(text_entry("host", String::from_str(DEFAULT_HOST)));
    entries.push((String::from_str("port"), JsonScalar::Unsigned(DEFAULT_PORT as u64)));
    assert(json_entries(entries@) =~= want);
    entries
}

impl MidenExtension {
    /// Turns a session from Zed's new-session UI into a debug scenario for
    /// this adapter.
    pub fn dap_config_to_scenario(
        &self,
        label: String,
        adapter: String,
        request: ScenarioRequest,
    ) -> (r: Result<DebugScenarioPlan, String>)
        ensures
            r is Ok,
            r->Ok_0@ == scenario_spec(label@, adapter@, scenario_request_view(request)),
    {
        let config = json_object_text_of(scenario_entries(request));
        Ok(DebugScenarioPlan { label, adapter, config })
    }
}

/// The default host is a dotted quad: the loopback address 127.0.0.1.
pub proof fn lemma_default_host_is_loopback()
    ensures
        parse_ipv4_text(DEFAULT_HOST@) == Ok::<u32, Seq<char>>(0x7f000001u32),
{
    reveal_strlit("127.0.0.1");
    reveal_strlit(".");
    crate::ipv4::lemma_parse_ipv4_of_text(0x7f000001u32);
    let x = 0x7f000001u32;
    assert(crate::ipv4::be_byte(x, 0) == 127u8 && crate::ipv4::be_byte(x, 1) == 0u8
        && crate::ipv4::be_byte(x, 2) == 0u8 && crate::ipv4::be_byte(x, 3) == 1u8) by {
        assert(((0x7f000001u32 >> 24u32) & 0xffu32) == 127u32 && ((0x7f000001u32 >> 16u32)
            & 0xffu32) == 0u32 && ((0x7f000001u32 >> 8u32) & 0xffu32) == 0u32 && ((0x7f000001u32
            >> 0u32) & 0xffu32) == 1u32) by (bit_vector);
    }
    assert(decimal(127) =~= seq!['1', '2', '7']) by {
        reveal_with_fuel(decimal, 3);
    }
    assert(decimal(0) =~= seq!['0']);
    assert(decimal(1) =~= seq!['1']);
    assert(ipv4_text(x) =~= DEFAULT_HOST@);
}

/// A scenario made from the new-session UI asks for the same kind of
/// request it was made from: its first member is `request`, whose text,
/// read as `dap_request_kind` reads it (with `scriptPath` its second member
/// exactly for a launch), names a launch for a launch and an attach for an
/// attach.
pub proof fn lemma_scenario_request_reads_back(launch: Option<(Seq<char>, Option<Seq<char>>)>)
    ensures
        ({
            let e = scenario_entries_spec(launch);
            &&& e[0].0 == "request"@
            &&& e[0].1 is Str
            &&& (launch is Some ==> e[1].0 == "scriptPath"@)
            &&& request_kind_spec(Some(e[0].1->Str_0), launch is Some) == Ok::<
                RequestKind,
                Seq<char>,
            >(
                if launch is Some {
                    RequestKind::Launch
                } else {
                    RequestKind::Attach
                },
            )
        }),
{
    reveal_strlit("attach");
    reveal_strlit("launch");
    assert("attach"@[0] != "launch"@[0]);
}

/// The kind of request in a debug adapter plan is the kind that
/// `dap_request_kind` answers for the same configuration.
pub proof fn lemma_plan_request_agrees(
    adapter_name: Seq<char>,
    config: Seq<char>,
    tcp: Option<Result<TcpArguments, Seq<char>>>,
    user_path: Option<Seq<char>>,
    python3: Option<Seq<char>>,
    miden_client: Option<Seq<char>>,
    miden_debug: Option<Seq<char>>,
    root_path: Seq<char>,
)
    requires
        dap_binary_spec(
            adapter_name,
            config,
            tcp,
            user_path,
            python3,
            miden_client,
            miden_debug,
            root_path,
        ) is Ok,
    ensures
        dap_request_kind_spec(adapter_name, config) == Ok::<RequestKind, Seq<char>>(
            dap_binary_spec(
                adapter_name,
                config,
                tcp,
                user_path,
                python3,
                miden_client,
                miden_debug,
                root_path,
            )->Ok_0.request,
        ),
{
}

/// In a launch, the proxy connects to the very endpoint on which it has
/// the backend listen: the backend's `--start-debug-adapter` address is the
/// proxy's `--host` and `--port`, joined by a colon; and the source the UI is
/// told of is the script or program that the backend runs (for the
/// debugger, after its `--link-library` pairs). In an attach, the proxy
/// starts nothing: its arguments end after the endpoint, the timeout, the
/// working directory and, where configured, the script shown in the UI.
pub proof fn lemma_proxy_targets_adapter(
    config: Seq<char>,
    cfg: DebugConfigView,
    request: Option<Seq<char>>,
    has_script_path: bool,
    tcp: Option<Result<TcpArguments, Seq<char>>>,
    user_path: Option<Seq<char>>,
    python3: Option<Seq<char>>,
    miden_client: Option<Seq<char>>,
    miden_debug: Option<Seq<char>>,
    root_path: Seq<char>,
)
    requires
        dap_plan_spec(
            config,
            cfg,
            request,
            has_script_path,
            tcp,
            user_path,
            python3,
            miden_client,
            miden_debug,
            root_path,
        ) is Ok,
    ensures
        ({
            let plan = dap_plan_spec(
                config,
                cfg,
                request,
                has_script_path,
                tcp,
                user_path,
                python3,
                miden_client,
                miden_debug,
                root_path,
            )->Ok_0;
            let a = plan.arguments;
            &&& a[3] == "--host"@
            &&& a[5] == "--port"@
            &&& plan.request == RequestKind::Launch ==> {
                &&& a.len() >= 18
                &&& a[11] == "--source-path-for-ui"@
                &&& a[13] == "--adapter-argv"@
                &&& runtime_spec(cfg.runtime) == Runtime::Client ==> {
                    &&& a.len() >= 20
                    &&& a[12] == a[17]
                    &&& a[18] == "--start-debug-adapter"@
                    &&& a[19] == a[4] + ":"@ + a[6]
                }
                &&& runtime_spec(cfg.runtime) == Runtime::Debugger ==> {
                    let n: int = 2 * configured_libraries(cfg.link_libraries).len() as int;
                    &&& a[15] == "--start-debug-adapter"@
                    &&& a[16] == a[4] + ":"@ + a[6]
                    &&& a.len() >= 18 + n
                    &&& a[12] == a[17 + n]
                }
            }
            &&& plan.request == RequestKind::Attach ==> a.len() == if cfg.script_path is Some {
                13int
            } else {
                11int
            }
        }),
{
    lemma_link_library_args_len(configured_libraries(cfg.link_libraries));
}

/// The worktree queries that `lookups_needed_spec` calls unneeded do not
/// matter: asking none of them (no path found, an empty root) gives the
/// same answer. And for another adapter, or for text that is not JSON, the
/// answer does not depend on Zed's TCP arguments or on any query.
pub proof fn lemma_unneeded_lookups_ignored(
    adapter_name: Seq<char>,
    config: Seq<char>,
    tcp: Option<Result<TcpArguments, Seq<char>>>,
    user_path: Option<Seq<char>>,
    python3: Option<Seq<char>>,
    miden_client: Option<Seq<char>>,
    miden_debug: Option<Seq<char>>,
    root_path: Seq<char>,
)
    ensures
        ({
            let n = lookups_needed_spec(config, tcp, user_path is Some);
            dap_binary_spec(
                adapter_name,
                config,
                tcp,
                user_path,
                python3,
                miden_client,
                miden_debug,
                root_path,
            ) == dap_binary_spec(
                adapter_name,
                config,
                tcp,
                user_path,
                if n.python3 {
                    python3
                } else {
                    None
                },
                if n.miden_client {
                    miden_client
                } else {
                    None
                },
                if n.miden_debug {
                    miden_debug
                } else {
                    None
                },
                if n.root_path {
                    root_path
                } else {
                    Seq::<char>::empty()
                },
            )
        }),
        !(adapter_name == ADAPTER_NAME@ && json_syntax_error(config) is None) ==> dap_binary_spec(
            adapter_name,
            config,
            tcp,
            user_path,
            python3,
            miden_client,
            miden_debug,
            root_path,
        ) == dap_binary_spec(
            adapter_name,
            config,
            None,
            user_path,
            None,
            None,
            None,
            Seq::<char>::empty(),
        ),
{
}

/// Without Zed's TCP arguments, the proxy is pointed at the configured
/// host (the default host where none is configured) and, independently, at
/// the configured port (the default port where none is configured), with the
/// default timeout; the plan is refused on the endpoint only where a
/// configured host is no dotted quad.
pub proof fn lemma_plan_endpoint_from_config(
    config: Seq<char>,
    cfg: DebugConfigView,
    request: Option<Seq<char>>,
    has_script_path: bool,
    user_path: Option<Seq<char>>,
    python3: Option<Seq<char>>,
    miden_client: Option<Seq<char>>,
    miden_debug: Option<Seq<char>>,
    root_path: Seq<char>,
)
    ensures
        ({
            let r = dap_plan_spec(
                config,
                cfg,
                request,
                has_script_path,
                None,
                user_path,
                python3,
                miden_client,
                miden_debug,
                root_path,
            );
            let host = match cfg.host {
                Some(h) => h,
                None => DEFAULT_HOST@,
            };
            let port: u16 = match cfg.port {
                Some(p) => p,
                None => 4711u16,
            };
            &&& (r matches Ok(plan) ==> {
                &&& plan.arguments[4] == host
                &&& plan.arguments[6] == decimal(port as nat)
                &&& plan.arguments[8] == decimal(15000nat)
            })
            &&& (cfg.host is None ==> endpoint_spec(cfg, None) is Ok)
            &&& (cfg.host matches Some(h) ==> (endpoint_spec(cfg, None) is Ok <==> parse_ipv4_text(h) is Ok))
        }),
{
    lemma_default_host_is_loopback();
    crate::proxy::lemma_proxy_arguments_start(
        match cfg.host {
            Some(h) => h,
            None => DEFAULT_HOST@,
        },
        match cfg.port {
            Some(p) => p,
            None => 4711u16,
        },
        15000u64,
        or_text(cfg.cwd, Some(root_path)),
        match request_kind_spec(request, has_script_path) {
            Ok(k) => ui_source_spec(k, cfg),
            Err(_) => None,
        },
        match request_kind_spec(request, has_script_path) {
            Ok(k) => match adapter_argv_spec(
                k,
                cfg,
                user_path,
                miden_client,
                miden_debug,
                match cfg.host {
                    Some(h) => h,
                    None => DEFAULT_HOST@,
                },
                match cfg.port {
                    Some(p) => p,
                    None => 4711u16,
                },
            ) {
                Ok(v) => v,
                Err(_) => None,
            },
            Err(_) => None,
        },
    );
}

/// A scenario for a launch names the program as `scriptPath` and the
/// launch's directory as `cwd` (`null` only where none is given), whatever
/// the program; every scenario names the request kind and the default host
/// and port.
pub proof fn lemma_scenario_carries_launch(launch: Option<(Seq<char>, Option<Seq<char>>)>)
    ensures
        ({
            let e = scenario_entries_spec(launch);
            &&& launch matches Some((program, cwd)) ==> {
                &&& e.len() == 5
                &&& e[1] == ("scriptPath"@, JsonScalarView::Str(program))
                &&& (cwd matches Some(c) ==> e[2] == ("cwd"@, JsonScalarView::Str(c)))
                &&& (cwd is None ==> e[2] == ("cwd"@, JsonScalarView::Null))
                &&& e[3] == ("host"@, JsonScalarView::Str(DEFAULT_HOST@))
                &&& e[4] == ("port"@, JsonScalarView::Unsigned(4711))
            }
            &&& launch is None ==> {
                &&& e.len() == 3
                &&& e[0] == ("request"@, JsonScalarView::Str("attach"@))
                &&& e[1] == ("host"@, JsonScalarView::Str(DEFAULT_HOST@))
                &&& e[2] == ("port"@, JsonScalarView::Unsigned(4711))
            }
        }),
{
}

/// How the request kind is decided: a `request` text decides alone,
/// whatever `scriptPath` there is; only `"launch"` and `"attach"` are
/// accepted, each as itself; without a `request`, a launch exactly where
/// there is a `scriptPath`.
pub proof fn lemma_request_kind_rules(request: Option<Seq<char>>, has_script_path: bool)
    ensures
        request is Some ==> request_kind_spec(request, has_script_path) == request_kind_spec(
            request,
            !has_script_path,
        ),
        request_kind_spec(request, has_script_path) == Ok::<RequestKind, Seq<char>>(
            RequestKind::Launch,
        ) ==> request == Some("launch"@) || (request is None && has_script_path),
        request_kind_spec(request, has_script_path) == Ok::<RequestKind, Seq<char>>(
            RequestKind::Attach,
        ) ==> request == Some("attach"@) || (request is None && !has_script_path),
        request == Some("launch"@) ==> request_kind_spec(request, has_script_path) == Ok::<
            RequestKind,
            Seq<char>,
        >(RequestKind::Launch),
        request == Some("attach"@) ==> request_kind_spec(request, has_script_path) == Ok::<
            RequestKind,
            Seq<char>,
        >(RequestKind::Attach),
        request is None ==> request_kind_spec(request, has_script_path) is Ok,
{
    reveal_strlit("attach");
    reveal_strlit("launch");
    assert("attach"@[0] != "launch"@[0]);
}

/// What a plan's proxy runs with: the configured Python, else `python3`
/// on PATH, else `python3`; in the configured directory, else the worktree
/// root, which the proxy is also told as the adapter's directory; and with
/// the configuration text and request kind it was planned for. A launch of
/// the client runs the binary Zed names, else the configured one, else the
/// one on PATH, else `miden-client`, on the configured script, with the
/// configured account at the end where there is one.
pub proof fn lemma_plan_choices(
    config: Seq<char>,
    cfg: DebugConfigView,
    request: Option<Seq<char>>,
    has_script_path: bool,
    tcp: Option<Result<TcpArguments, Seq<char>>>,
    user_path: Option<Seq<char>>,
    python3: Option<Seq<char>>,
    miden_client: Option<Seq<char>>,
    miden_debug: Option<Seq<char>>,
    root_path: Seq<char>,
)
    ensures
        dap_plan_spec(
            config,
            cfg,
            request,
            has_script_path,
            tcp,
            user_path,
            python3,
            miden_client,
            miden_debug,
            root_path,
        ) matches Ok(plan) ==> {
            let cwd = match cfg.cwd {
                Some(c) => c,
                None => root_path,
            };
            let a = plan.arguments;
            &&& plan.command == match cfg.python_path {
                Some(p) => p,
                None => match python3 {
                    Some(p) => p,
                    None => "python3"@,
                },
            }
            &&& plan.cwd == Some(cwd)
            &&& a[9] == "--adapter-cwd"@
            &&& a[10] == cwd
            &&& plan.configuration == config
            &&& Ok::<RequestKind, Seq<char>>(plan.request) == request_kind_spec(request, has_script_path)
            &&& (plan.request == RequestKind::Launch && runtime_spec(cfg.runtime) == Runtime::Client)
                ==> {
                &&& a[14] == match user_path {
                    Some(u) => u,
                    None => match cfg.miden_client_path {
                        Some(m) => m,
                        None => match miden_client {
                            Some(w) => w,
                            None => "miden-client"@,
                        },
                    },
                }
                &&& a[15] == "exec"@
                &&& a[16] == "--script-path"@
                &&& cfg.script_path == Some(a[17])
                &&& (cfg.account_id matches Some(acc) ==> a.len() == 22 && a[20] == "--account"@
                    && a[21] == acc)
                &&& (cfg.account_id is None ==> a.len() == 20)
            }
        },
{
}

} // verus!
