//! The command line of the stdio proxy that Zed starts for a debug session:
//! a Python program, handed the endpoint of the Miden debug adapter and,
//! for a launch, the adapter's own command line.

use vstd::prelude::*;

use crate::decimal::{decimal, digits_value, is_digit, lemma_decimal_digits, u64_to_decimal};

verus! {

/// The stdio proxy, run with `python3 -u -c`. It reads its own flags
/// (`--host`, `--port`, `--timeout-ms`, `--adapter-cwd`,
/// `--source-path-for-ui`), starts the command after `--adapter-argv` when
/// there is one, connects to the adapter over TCP and relays DAP frames
/// between its stdio and the socket, filling in the few message fields that
/// Zed's decoder needs.
pub const DAP_TCP_PROXY: &'static str = r#"
import json
import socket
import subprocess
import sys
import threading
import time


def log(message):
    print("[miden-zed-proxy] " + message, file=sys.stderr, flush=True)


def fail(message):
    log(message)
    sys.exit(1)


def take_value(args, flag, default=None):
    if flag not in args:
        return default
    index = args.index(flag)
    if index + 1 >= len(args):
        fail("missing value for " + flag)
    value = args[index + 1]
    del args[index:index + 2]
    return value


def source_name(path):
    if not path:
        return None
    return path.rsplit("/", 1)[-1] or path


def forward_pipe(pipe):
    try:
        while True:
            line = pipe.readline()
            if not line:
                return
            sys.stderr.buffer.write(line)
            sys.stderr.buffer.flush()
    except Exception:
        return


def connect_to_adapter(host, port, timeout_ms, process):
    deadline = time.monotonic() + (timeout_ms / 1000.0)
    last_error = None
    while time.monotonic() < deadline:
        if process is not None and process.poll() is not None:
            fail("debug adapter process exited before the proxy connected")
        try:
            sock = socket.create_connection((host, port), timeout=0.5)
            sock.settimeout(None)
            log("connected to Miden DAP at %s:%s" % (host, port))
            return sock
        except OSError as error:
            last_error = error
            time.sleep(0.1)
    fail("timed out connecting to Miden DAP at %s:%s: %s" % (host, port, last_error))


def describe_message(body):
    try:
        message = json.loads(body.decode("utf-8"))
    except Exception as error:
        return "unparseable DAP message: %s" % error

    if not isinstance(message, dict):
        return "non-object DAP message"

    message_type = message.get("type")
    if message_type == "request":
        return "request:%s seq:%s" % (message.get("command"), message.get("seq"))
    if message_type == "response":
        return "response:%s seq:%s request_seq:%s success:%s" % (
            message.get("command"),
            message.get("seq"),
            message.get("request_seq"),
            message.get("success"),
        )
    if message_type == "event":
        return "event:%s seq:%s" % (message.get("event"), message.get("seq"))
    return "%s seq:%s" % (message_type, message.get("seq"))


def remember_client_message(body, state):
    try:
        message = json.loads(body.decode("utf-8"))
    except Exception:
        return

    if not isinstance(message, dict):
        return
    if message.get("type") != "request" or message.get("command") != "setBreakpoints":
        return

    arguments = message.get("arguments")
    if not isinstance(arguments, dict):
        return
    source = arguments.get("source")
    if not isinstance(source, dict):
        return

    path = source.get("path")
    if isinstance(path, str) and path:
        state["source_path"] = path
        state["source_name"] = source.get("name") or source_name(path)
        log("remembered source path for stack traces: " + path)


def read_frame(reader):
    header = bytearray()
    while not header.endswith(b"\r\n\r\n"):
        chunk = reader.read(1)
        if not chunk:
            return None
        header.extend(chunk)

    content_length = None
    for line in header.decode("ascii", "replace").split("\r\n"):
        if line.lower().startswith("content-length:"):
            content_length = int(line.split(":", 1)[1].strip())
            break
    if content_length is None:
        raise RuntimeError("missing DAP Content-Length header")

    body = reader.read(content_length)
    if len(body) != content_length:
        return None
    return body


def normalize_stack_frame(frame, state):
    if not isinstance(frame, dict):
        return False

    changed = False
    source = frame.get("source")
    if not isinstance(source, dict) and state.get("source_path") and frame.get("line", 0) == 0:
        frame["source"] = {
            "name": state.get("source_name") or source_name(state.get("source_path")),
            "path": state["source_path"],
        }
        frame["line"] = 1
        changed = True

    if isinstance(frame.get("source"), dict) and frame.get("column", 0) == 0:
        frame["column"] = 1
        changed = True

    return changed


def normalize_server_message(body, state):
    try:
        message = json.loads(body.decode("utf-8"))
    except Exception:
        return body

    changed = False
    if (
        isinstance(message, dict)
        and message.get("type") == "event"
        and message.get("event") == "initialized"
        and "body" not in message
    ):
        log("normalizing initialized event with missing body")
        message["body"] = {}
        changed = True

    if isinstance(message, dict) and message.get("type") == "event" and message.get("event") == "miden/uiState":
        event_body = message.get("body")
        if isinstance(event_body, dict):
            for frame in event_body.get("callstack") or []:
                source_path = frame.get("source_path") if isinstance(frame, dict) else None
                if isinstance(source_path, str) and source_path:
                    state["source_path"] = source_path
                    state["source_name"] = source_name(source_path)
                    break

    if isinstance(message, dict) and message.get("type") == "response" and message.get("command") == "stackTrace":
        response_body = message.get("body")
        if isinstance(response_body, dict):
            for frame in response_body.get("stackFrames") or []:
                changed = normalize_stack_frame(frame, state) or changed
            if changed:
                log("normalized stackTrace frame source/column for Zed")

    if changed:
        return json.dumps(message, separators=(",", ":")).encode("utf-8")

    return body


def write_frame_to_socket(sock, body):
    sock.sendall(b"Content-Length: %d\r\n\r\n" % len(body))
    sock.sendall(body)


def write_frame_to_stdout(body):
    sys.stdout.buffer.write(b"Content-Length: %d\r\n\r\n" % len(body))
    sys.stdout.buffer.write(body)
    sys.stdout.buffer.flush()


def copy_client_to_server(sock, state):
    try:
        while True:
            body = read_frame(sys.stdin.buffer)
            if body is None:
                log("stdin closed; closing client-to-server stream")
                try:
                    sock.shutdown(socket.SHUT_WR)
                except OSError:
                    pass
                return
            log("client -> server " + describe_message(body))
            remember_client_message(body, state)
            write_frame_to_socket(sock, body)
    except Exception as error:
        log("client-to-server proxy stopped: %s" % error)


def copy_server_to_client(sock, state):
    reader = sock.makefile("rb", buffering=0)
    try:
        while True:
            body = read_frame(reader)
            if body is None:
                log("Miden DAP closed server-to-client stream")
                return
            log("server -> client " + describe_message(body))
            body = normalize_server_message(body, state)
            write_frame_to_stdout(body)
    except Exception as error:
        log("server-to-client proxy stopped: %s" % error)
        raise


def main():
    args = sys.argv[1:]
    adapter_argv = None
    if "--adapter-argv" in args:
        index = args.index("--adapter-argv")
        adapter_argv = args[index + 1:]
        args = args[:index]

    host = take_value(args, "--host", "127.0.0.1")
    port = int(take_value(args, "--port", "4711"))
    timeout_ms = int(take_value(args, "--timeout-ms", "15000"))
    adapter_cwd = take_value(args, "--adapter-cwd", None)
    source_path_for_ui = take_value(args, "--source-path-for-ui", None)
    if args:
        fail("unknown proxy arguments: " + repr(args))

    state = {
        "source_path": source_path_for_ui,
        "source_name": source_name(source_path_for_ui),
    }

    process = None
    sock = None
    try:
        if adapter_argv:
            log("starting debug adapter process: " + repr(adapter_argv))
            process = subprocess.Popen(
                adapter_argv,
                cwd=adapter_cwd or None,
                stdin=subprocess.DEVNULL,
                stdout=subprocess.PIPE,
                stderr=subprocess.PIPE,
            )
            threading.Thread(target=forward_pipe, args=(process.stdout,), daemon=True).start()
            threading.Thread(target=forward_pipe, args=(process.stderr,), daemon=True).start()
        else:
            log("attaching to existing debug adapter")

        sock = connect_to_adapter(host, port, timeout_ms, process)
        threading.Thread(target=copy_client_to_server, args=(sock, state), daemon=True).start()
        copy_server_to_client(sock, state)
    finally:
        if sock is not None:
            try:
                sock.close()
            except OSError:
                pass
        if process is not None and process.poll() is None:
            process.terminate()
            try:
                process.wait(timeout=2)
            except subprocess.TimeoutExpired:
                process.kill()


if __name__ == "__main__":
    main()
"#;

/// The proxy's arguments: the Python flags and program, the endpoint and the
/// timeout, then the adapter's working directory and the source path for the
/// UI where they are given, then `--adapter-argv` and the adapter's command
/// line where there is one.
pub open spec fn proxy_arguments_spec(
    host: Seq<char>,
    port: u16,
    timeout_ms: u64,
    adapter_cwd: Option<Seq<char>>,
    ui_source_path: Option<Seq<char>>,
    adapter_argv: Option<Seq<Seq<char>>>,
) -> Seq<Seq<char>> {
    let base = seq![
        "-u"@,
        "-c"@,
        DAP_TCP_PROXY@,
        "--host"@,
        host,
        "--port"@,
        decimal(port as nat),
        "--timeout-ms"@,
        decimal(timeout_ms as nat),
    ];
    let with_cwd = match adapter_cwd {
        Some(c) => base + seq!["--adapter-cwd"@, c],
        None => base,
    };
    let with_ui = match ui_source_path {
        Some(u) => with_cwd + seq!["--source-path-for-ui"@, u],
        None => with_cwd,
    };
    match adapter_argv {
        Some(v) => with_ui.push("--adapter-argv"@) + v,
        None => with_ui,
    }
}

fn owned(s: &str) -> (r: String)
    ensures
        r@ == s@,
{
    String::from_str(s)
}

/// Builds the proxy's argument list.
pub fn proxy_arguments(
    host: &str,
    port: u16,
    timeout_ms: u64,
    adapter_cwd: Option<&str>,
    ui_source_path: Option<&str>,
    adapter_argv: Option<Vec<String>>,
) -> (r: Vec<String>)
    ensures
        r.deep_view() == proxy_arguments_spec(
            host@,
            port,
            timeout_ms,
            adapter_cwd.deep_view(),
            ui_source_path.deep_view(),
            adapter_argv.deep_view(),
        ),
{
    let mut args: Vec<String> = Vec::new();
    args.push(owned("-u"));
    args.push(owned("-c"));
    args.push(owned(DAP_TCP_PROXY));
    args.push(owned("--host"));
    args.push(owned(host));
    args.push(owned("--port"));
    args.push(u64_to_decimal(port as u64));
    args.push(owned("--timeout-ms"));
    args.push(u64_to_decimal(timeout_ms));
    let ghost base = args.deep_view();
    if let Some(adapter_cwd) = adapter_cwd {
        args.push(owned("--adapter-cwd"));
        args.push(owned(adapter_cwd));
    }
    let ghost with_cwd = args.deep_view();
    assert(with_cwd =~= match adapter_cwd.deep_view() {
        Some(c) => base + seq!["--adapter-cwd"@, c],
        None => base,
    });
    if let Some(ui_source_path) = ui_source_path {
        args.push(owned("--source-path-for-ui"));
        args.push(owned(ui_source_path));
    }
    let ghost with_ui = args.deep_view();
    assert(with_ui =~= match ui_source_path.deep_view() {
        Some(u) => with_cwd + seq!["--source-path-for-ui"@, u],
        None => with_cwd,
    });
    if let Some(adapter_argv) = adapter_argv {
        let mut rest = adapter_argv;
        args.push(owned("--adapter-argv"));
        args.append(&mut rest);
    }
    proof {
        let want = proxy_arguments_spec(
            host@,
            port,
            timeout_ms,
            adapter_cwd.deep_view(),
            ui_source_path.deep_view(),
            adapter_argv.deep_view(),
        );
        assert(args.deep_view() =~= want);
    }
    args
}

/// What the proxy reads from its own command line (the arguments after
/// `python3 -u -c <program>`): each flag's value as text where the flag is
/// given, and the adapter's command line where one follows `--adapter-argv`.
pub struct ProxyCommandLine {
    pub host: Option<Seq<char>>,
    pub port: Option<Seq<char>>,
    pub timeout_ms: Option<Seq<char>>,
    pub adapter_cwd: Option<Seq<char>>,
    pub source_path_for_ui: Option<Seq<char>>,
    pub adapter_argv: Option<Seq<Seq<char>>>,
}

/// The position of the first `x` in `s` (Python's `list.index`), or -1
/// where `s` holds no `x`.
pub open spec fn index_of(s: Seq<Seq<char>>, x: Seq<char>) -> int
    decreases s.len(),
{
    if s.len() == 0 {
        -1
    } else if s[0] == x {
        0
    } else {
        let r = index_of(s.drop_first(), x);
        if r < 0 {
            -1
        } else {
            r + 1
        }
    }
}

/// The proxy's `take_value`: the value after the first `flag` and the
/// arguments without that pair; no value where the flag is absent; `None`
/// (the proxy fails) where the flag is the last argument.
pub open spec fn take_value(args: Seq<Seq<char>>, flag: Seq<char>) -> Option<
    (Option<Seq<char>>, Seq<Seq<char>>),
> {
    let i = index_of(args, flag);
    if i < 0 {
        Some((None, args))
    } else if i + 1 >= args.len() {
        None
    } else {
        Some((Some(args[i + 1]), args.take(i) + args.skip(i + 2)))
    }
}

/// How the proxy's `main` reads its arguments: everything after the first
/// `--adapter-argv` is the adapter's command line (started only when it is
/// not empty); before it, `--host`, `--port`, `--timeout-ms`,
/// `--adapter-cwd` and `--source-path-for-ui` are taken in this order; any
/// argument left over makes the proxy fail (`None`).
pub open spec fn proxy_read_args(args: Seq<Seq<char>>) -> Option<ProxyCommandLine> {
    let k = index_of(args, "--adapter-argv"@);
    let argv = if k >= 0 {
        Some(args.skip(k + 1))
    } else {
        None
    };
    let rest = if k >= 0 {
        args.take(k)
    } else {
        args
    };
    match take_value(rest, "--host"@) {
        None => None,
        Some((host, r1)) => match take_value(r1, "--port"@) {
            None => None,
            Some((port, r2)) => match take_value(r2, "--timeout-ms"@) {
                None => None,
                Some((timeout_ms, r3)) => match take_value(r3, "--adapter-cwd"@) {
                    None => None,
                    Some((adapter_cwd, r4)) => match take_value(r4, "--source-path-for-ui"@) {
                        None => None,
                        Some((source_path_for_ui, r5)) => if r5.len() > 0 {
                            None
                        } else {
                            Some(
                                ProxyCommandLine {
                                    host,
                                    port,
                                    timeout_ms,
                                    adapter_cwd,
                                    source_path_for_ui,
                                    adapter_argv: match argv {
                                        Some(v) => if v.len() > 0 {
                                            Some(v)
                                        } else {
                                            None
                                        },
                                        None => None,
                                    },
                                },
                            )
                        },
                    },
                },
            },
        },
    }
}

/// Whether `s` is one of the proxy's own flags.
pub open spec fn is_proxy_flag(s: Seq<char>) -> bool {
    ||| s == "--host"@
    ||| s == "--port"@
    ||| s == "--timeout-ms"@
    ||| s == "--adapter-cwd"@
    ||| s == "--source-path-for-ui"@
    ||| s == "--adapter-argv"@
}

proof fn lemma_index_of_first(s: Seq<Seq<char>>, x: Seq<char>, i: int)
    requires
        0 <= i < s.len(),
        s[i] == x,
        forall|j: int| 0 <= j < i ==> s[j] != x,
    ensures
        index_of(s, x) == i,
    decreases i,
{
    if i > 0 {
        lemma_index_of_first(s.drop_first(), x, i - 1);
    }
}

proof fn lemma_index_of_absent(s: Seq<Seq<char>>, x: Seq<char>)
    requires
        forall|j: int| 0 <= j < s.len() ==> s[j] != x,
    ensures
        index_of(s, x) == -1,
    decreases s.len(),
{
    if s.len() > 0 {
        lemma_index_of_absent(s.drop_first(), x);
    }
}

/// The decimal text of a number is none of the proxy's flags.
proof fn lemma_decimal_not_flag(n: nat)
    ensures
        decimal(n)[0] != '-',
{
    lemma_decimal_digits(n);
    assert(is_digit(decimal(n)[0]));
}

/// The proxy reads back from its argument list exactly what it was given:
/// the host, the port and timeout texts (whose decimal values are the
/// numbers given), the adapter's working directory, the source path for
/// the UI, and the adapter's command line; nothing is left over and nothing
/// makes it fail. This holds where the host, directory and source path are
/// none of the proxy's own flags, and where an adapter command line, if
/// any, is not empty.
pub proof fn lemma_proxy_reads_back(
    host: Seq<char>,
    port: u16,
    timeout_ms: u64,
    adapter_cwd: Option<Seq<char>>,
    ui_source_path: Option<Seq<char>>,
    adapter_argv: Option<Seq<Seq<char>>>,
)
    requires
        !is_proxy_flag(host),
        adapter_cwd matches Some(c) ==> !is_proxy_flag(c),
        ui_source_path matches Some(u) ==> !is_proxy_flag(u),
        adapter_argv matches Some(v) ==> v.len() > 0,
    ensures
        proxy_read_args(
            proxy_arguments_spec(
                host,
                port,
                timeout_ms,
                adapter_cwd,
                ui_source_path,
                adapter_argv,
            ).skip(3),
        ) == Some(
            ProxyCommandLine {
                host: Some(host),
                port: Some(decimal(port as nat)),
                timeout_ms: Some(decimal(timeout_ms as nat)),
                adapter_cwd,
                source_path_for_ui: ui_source_path,
                adapter_argv,
            },
        ),
        digits_value(decimal(port as nat)) == port,
        digits_value(decimal(timeout_ms as nat)) == timeout_ms,
{
    reveal_strlit("--host");
    reveal_strlit("--port");
    reveal_strlit("--timeout-ms");
    reveal_strlit("--adapter-cwd");
    reveal_strlit("--source-path-for-ui");
    reveal_strlit("--adapter-argv");
    lemma_decimal_digits(port as nat);
    lemma_decimal_digits(timeout_ms as nat);
    lemma_decimal_not_flag(port as nat);
    lemma_decimal_not_flag(timeout_ms as nat);
    let argv_flag = "--adapter-argv"@;
    let p = decimal(port as nat);
    let t = decimal(timeout_ms as nat);
    assert("--host"@[2] != argv_flag[2]);
    assert("--port"@[2] != argv_flag[2]);
    assert("--timeout-ms"@[2] != argv_flag[2]);
    assert("--adapter-cwd"@[10] != argv_flag[10]);
    assert("--source-path-for-ui"@[2] != argv_flag[2]);
    assert("--source-path-for-ui"@[2] != "--adapter-cwd"@[2]);
    assert(p[0] != argv_flag[0]);
    assert(t[0] != argv_flag[0]);
    let a = seq!["--host"@, host, "--port"@, p, "--timeout-ms"@, t];
    let c = match adapter_cwd {
        Some(x) => seq!["--adapter-cwd"@, x],
        None => Seq::<Seq<char>>::empty(),
    };
    let u = match ui_source_path {
        Some(x) => seq!["--source-path-for-ui"@, x],
        None => Seq::<Seq<char>>::empty(),
    };
    let pre = a + c + u;
    let args = proxy_arguments_spec(
        host,
        port,
        timeout_ms,
        adapter_cwd,
        ui_source_path,
        adapter_argv,
    ).skip(3);
    assert forall|j: int| 0 <= j < pre.len() implies pre[j] != argv_flag by {
        if j >= a.len() + c.len() {
            assert(pre[j] == u[j - a.len() - c.len()]);
        } else if j >= a.len() {
            assert(pre[j] == c[j - a.len()]);
        } else {
            assert(pre[j] == a[j]);
        }
    }
    match adapter_argv {
        Some(v) => {
            assert(args =~= pre.push(argv_flag) + v);
            lemma_index_of_first(args, argv_flag, pre.len() as int);
            assert(args.take(pre.len() as int) =~= pre);
            assert(args.skip(pre.len() as int + 1) =~= v);
        },
        None => {
            assert(args =~= pre);
            lemma_index_of_absent(args, argv_flag);
        },
    }
    let r1 = pre.skip(2);
    assert(pre.take(0) + pre.skip(2) =~= r1);
    assert(take_value(pre, "--host"@) == Some((Some(host), r1)));
    let r2 = r1.skip(2);
    assert(r1.take(0) + r1.skip(2) =~= r2);
    assert(r1[0] == "--port"@);
    assert(take_value(r1, "--port"@) == Some((Some(p), r2)));
    let r3 = r2.skip(2);
    assert(r2.take(0) + r2.skip(2) =~= r3);
    assert(r2[0] == "--timeout-ms"@);
    assert(take_value(r2, "--timeout-ms"@) == Some((Some(t), r3)));
    assert(r3 =~= c + u);
    let r4 = u;
    match adapter_cwd {
        Some(x) => {
            assert(r3.take(0) + r3.skip(2) =~= r4);
            assert(take_value(r3, "--adapter-cwd"@) == Some((Some(x), r4)));
        },
        None => {
            assert(r3 =~= u);
            assert forall|j: int| 0 <= j < r3.len() implies r3[j] != "--adapter-cwd"@ by {
                assert(r3[j] == u[j]);
            }
            lemma_index_of_absent(r3, "--adapter-cwd"@);
        },
    }
    let r5 = Seq::<Seq<char>>::empty();
    match ui_source_path {
        Some(x) => {
            assert(r4.take(0) + r4.skip(2) =~= r5);
            assert(take_value(r4, "--source-path-for-ui"@) == Some((Some(x), r5)));
        },
        None => {
            assert(r4 =~= r5);
        },
    }
}

/// The proxy's command line always starts with Python's unbuffered flag and
/// the proxy program: `-u`, `-c`, the program; then the endpoint flags with
/// the host, the port and the timeout in decimal; whatever directory, UI
/// source or adapter command line is given.
pub proof fn lemma_proxy_arguments_start(
    host: Seq<char>,
    port: u16,
    timeout_ms: u64,
    adapter_cwd: Option<Seq<char>>,
    ui_source_path: Option<Seq<char>>,
    adapter_argv: Option<Seq<Seq<char>>>,
)
    ensures
        ({
            let a = proxy_arguments_spec(
                host,
                port,
                timeout_ms,
                adapter_cwd,
                ui_source_path,
                adapter_argv,
            );
            &&& a.len() >= 9
            &&& a[0] == "-u"@
            &&& a[1] == "-c"@
            &&& a[2] == DAP_TCP_PROXY@
            &&& a[3] == "--host"@
            &&& a[4] == host
            &&& a[5] == "--port"@
            &&& a[6] == decimal(port as nat)
            &&& a[7] == "--timeout-ms"@
            &&& a[8] == decimal(timeout_ms as nat)
        }),
{
}

} // verus!
