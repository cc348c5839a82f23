//! The extension's own state, and how it finds the Miden language server.

use vstd::prelude::*;

use crate::text::same_text;

verus! {

/// The name under which the extension registers its language server, and
/// the binary it looks for on PATH.
pub const SERVER_NAME: &'static str = "miden-lsp";

/// The extension's state: the language server binary found last, if any.
pub struct MidenExtension {
    pub cached_binary_path: Option<String>,
}

/// The user's `lsp.miden-lsp.binary` settings that the extension reads.
pub struct BinarySettings {
    pub path: Option<String>,
    pub arguments: Option<Vec<String>>,
}

/// Binary settings, their texts taken by their views.
pub struct BinarySettingsView {
    pub path: Option<Seq<char>>,
    pub arguments: Option<Seq<Seq<char>>>,
}

impl View for BinarySettings {
    type V = BinarySettingsView;

    open spec fn view(&self) -> BinarySettingsView {
        BinarySettingsView { path: self.path.deep_view(), arguments: self.arguments.deep_view() }
    }
}

/// A command that Zed runs: the program, its arguments and its environment.
pub struct LaunchCommand {
    pub command: String,
    pub args: Vec<String>,
    pub env: Vec<(String, String)>,
}

/// A command, its texts taken by their views.
pub struct LaunchCommandView {
    pub command: Seq<char>,
    pub args: Seq<Seq<char>>,
    pub env: Seq<(Seq<char>, Seq<char>)>,
}

impl View for LaunchCommand {
    type V = LaunchCommandView;

    open spec fn view(&self) -> LaunchCommandView {
        LaunchCommandView {
            command: self.command@,
            args: self.args.deep_view(),
            env: self.env.deep_view(),
        }
    }
}

/// The error when no language server binary can be found.
pub open spec fn server_not_found_error() -> Seq<char> {
    "miden-lsp was not found in PATH; configure lsp.binary.path or install miden-lsp"@
}

/// What a request for the language server's command answers, and the
/// binary that the extension remembers afterwards. Another server's ID is
/// an error. The arguments are the configured ones (none where none are
/// configured), the environment the worktree's shell environment. The
/// binary is the configured path, else the one found before, else the one on
/// PATH; a configured or newly found binary is remembered.
pub open spec fn lsp_command_spec(
    cached: Option<Seq<char>>,
    language_server_id: Seq<char>,
    binary: Option<BinarySettingsView>,
    env: Seq<(Seq<char>, Seq<char>)>,
    which_server: Option<Seq<char>>,
) -> (Result<LaunchCommandView, Seq<char>>, Option<Seq<char>>) {
    if language_server_id != SERVER_NAME@ {
        (Err("unknown language server ID "@ + language_server_id), cached)
    } else {
        let args = configured_arguments(binary);
        let configured = match binary {
            Some(b) => b.path,
            None => None,
        };
        match configured {
            Some(p) => (Ok(LaunchCommandView { command: p, args, env }), Some(p)),
            None => match cached {
                Some(p) => (Ok(LaunchCommandView { command: p, args, env }), cached),
                None => match which_server {
                    Some(p) => (Ok(LaunchCommandView { command: p, args, env }), Some(p)),
                    None => (Err(server_not_found_error()), cached),
                },
            },
        }
    }
}

/// Optional binary settings, taken by their view.
pub open spec fn settings_view(b: Option<BinarySettings>) -> Option<BinarySettingsView> {
    match b {
        Some(s) => Some(s@),
        None => None,
    }
}

/// The configured arguments of the language server; none where none are
/// configured.
pub open spec fn configured_arguments(b: Option<BinarySettingsView>) -> Seq<Seq<char>> {
    match b {
        Some(s) => match s.arguments {
            Some(a) => a,
            None => Seq::<Seq<char>>::empty(),
        },
        None => Seq::<Seq<char>>::empty(),
    }
}

/// A command result, its texts taken by their views.
pub open spec fn command_result(r: Result<LaunchCommand, String>) -> Result<
    LaunchCommandView,
    Seq<char>,
> {
    match r {
        Ok(c) => Ok(c@),
        Err(e) => Err(e@),
    }
}

/// Whether `language_server_id` names this extension's language server.
pub fn serves_language_server(language_server_id: &str) -> (r: bool)
    ensures
        r == (language_server_id@ == SERVER_NAME@),
{
    same_text(language_server_id, SERVER_NAME)
}

impl MidenExtension {
    /// A fresh extension, which has found no binary yet.
    pub fn new() -> (r: Self)
        ensures
            r.cached_binary_path is None,
    {
        MidenExtension { cached_binary_path: None }
    }

    /// The command that runs the binary at `path`, which is remembered.
    pub fn command_from_path(
        &mut self,
        path: String,
        args: Vec<String>,
        env: Vec<(String, String)>,
    ) -> (r: LaunchCommand)
        ensures
            final(self).cached_binary_path.deep_view() == Some(path@),
            r@ == (LaunchCommandView {
                command: path@,
                args: args.deep_view(),
                env: env.deep_view(),
            }),
    {
        self.cached_binary_path = Some(path.clone());
        LaunchCommand { command: path, args, env }
    }

    /// Whether answering a request for `language_server_id` with the binary
    /// settings `binary_settings` needs a PATH lookup of `miden-lsp`: the
    /// server is this extension's, no path is configured and none has been
    /// found before.
    pub fn needs_path_lookup(
        &self,
        language_server_id: &str,
        binary_settings: &Option<BinarySettings>,
    ) -> (r: bool)
        ensures
            r == (language_server_id@ == SERVER_NAME@ && match settings_view(*binary_settings) {
                Some(b) => b.path is None,
                None => true,
            } && self.cached_binary_path is None),
    {
        if !serves_language_server(language_server_id) {
            return false;
        }
        let configured = match binary_settings {
            Some(b) => b.path.is_some(),
            None => false,
        };
        !configured && self.cached_binary_path.is_none()
    }

    /// The command that starts the language server `language_server_id`,
    /// given the user's binary settings, the worktree's shell environment
    /// and where `miden-lsp` is on the worktree's PATH.
    pub fn language_server_command(
        &mut self,
        language_server_id: &str,
        binary_settings: Option<BinarySettings>,
        env: Vec<(String, String)>,
        which_server: Option<String>,
    ) -> (r: Result<LaunchCommand, String>)
        ensures
            (command_result(r), final(self).cached_binary_path.deep_view()) == lsp_command_spec(
                old(self).cached_binary_path.deep_view(),
                language_server_id@,
                settings_view(binary_settings),
                env.deep_view(),
                which_server.deep_view(),
            ),
    {
        if !same_text(language_server_id, SERVER_NAME) {
            let mut e = String::from_str("unknown language server ID ");
            e.append(language_server_id);
            return Err(e);
        }
        let ghost want_args = configured_arguments(settings_view(binary_settings));
        let (path, arguments) = match binary_settings {
            Some(b) => (b.path, b.arguments),
            None => (None, None),
        };
        let args: Vec<String> = match arguments {
            Some(a) => a,
            None => Vec::new(),
        };
        assert(args.deep_view() =~= want_args);
        if let Some(p) = path {
            return Ok(self.command_from_path(p, args, env));
        }
        if let Some(p) = self.cached_binary_path.clone() {
            return Ok(LaunchCommand { command: p, args, env });
        }
        if let Some(p) = which_server {
            return Ok(self.command_from_path(p, args, env));
        }
        Err(
            String::from_str(
                "miden-lsp was not found in PATH; configure lsp.binary.path or install miden-lsp",
            ),
        )
    }
}

/// A request that `needs_path_lookup` says needs no PATH lookup answers,
/// and leaves the remembered binary, the same without one; a request for
/// another server answers the same without settings, environment or lookup.
pub proof fn lemma_unneeded_lookup_ignored(
    cached: Option<Seq<char>>,
    language_server_id: Seq<char>,
    binary: Option<BinarySettingsView>,
    env: Seq<(Seq<char>, Seq<char>)>,
    which_server: Option<Seq<char>>,
)
    ensures
        !(language_server_id == SERVER_NAME@ && match binary {
            Some(b) => b.path is None,
            None => true,
        } && cached is None) ==> lsp_command_spec(
            cached,
            language_server_id,
            binary,
            env,
            which_server,
        ) == lsp_command_spec(cached, language_server_id, binary, env, None),
        language_server_id != SERVER_NAME@ ==> lsp_command_spec(
            cached,
            language_server_id,
            binary,
            env,
            which_server,
        ) == lsp_command_spec(
            cached,
            language_server_id,
            None,
            Seq::<(Seq<char>, Seq<char>)>::empty(),
            None,
        ),
{
}

/// Once the language server binary has been found (configured or on
/// PATH), a later request without a configured path runs that same binary
/// and remembers it still, whatever PATH holds by then.
pub proof fn lemma_found_binary_is_reused(
    cached: Option<Seq<char>>,
    binary: Option<BinarySettingsView>,
    env: Seq<(Seq<char>, Seq<char>)>,
    which_server: Option<Seq<char>>,
    later_arguments: Option<Seq<Seq<char>>>,
    later_env: Seq<(Seq<char>, Seq<char>)>,
    later_which: Option<Seq<char>>,
)
    requires
        lsp_command_spec(cached, SERVER_NAME@, binary, env, which_server).0 is Ok,
    ensures
        ({
            let (first, remembered) = lsp_command_spec(
                cached,
                SERVER_NAME@,
                binary,
                env,
                which_server,
            );
            let later_binary = Some(BinarySettingsView { path: None, arguments: later_arguments });
            let (second, remembered_after) = lsp_command_spec(
                remembered,
                SERVER_NAME@,
                later_binary,
                later_env,
                later_which,
            );
            &&& remembered == Some(first->Ok_0.command)
            &&& second is Ok
            &&& second->Ok_0.command == first->Ok_0.command
            &&& remembered_after == remembered
        }),
{
}

/// Whichever binary a request runs (the configured path, the one found
/// before, or the one on PATH), it runs with the configured arguments (none
/// only where none are configured) and with the worktree's shell
/// environment.
pub proof fn lemma_command_keeps_configured_arguments(
    cached: Option<Seq<char>>,
    language_server_id: Seq<char>,
    binary: Option<BinarySettingsView>,
    env: Seq<(Seq<char>, Seq<char>)>,
    which_server: Option<Seq<char>>,
)
    ensures
        lsp_command_spec(cached, language_server_id, binary, env, which_server).0 matches Ok(c) ==> {
            &&& c.env == env
            &&& c.args == match binary {
                Some(b) => match b.arguments {
                    Some(a) => a,
                    None => Seq::<Seq<char>>::empty(),
                },
                None => Seq::<Seq<char>>::empty(),
            }
        },
{
}

/// Which binary a request for this extension's server runs: the
/// configured path whenever one is configured (and it is remembered); else
/// the binary found before (which stays remembered); else the one on PATH
/// (which is remembered); with none of these the request fails and nothing
/// is remembered. A request for another server fails and changes nothing.
pub proof fn lemma_command_binary_choice(
    cached: Option<Seq<char>>,
    language_server_id: Seq<char>,
    binary: Option<BinarySettingsView>,
    env: Seq<(Seq<char>, Seq<char>)>,
    which_server: Option<Seq<char>>,
)
    ensures
        ({
            let (r, remembered) = lsp_command_spec(
                cached,
                language_server_id,
                binary,
                env,
                which_server,
            );
            let configured = match binary {
                Some(b) => b.path,
                None => None,
            };
            &&& language_server_id != SERVER_NAME@ ==> r is Err && remembered == cached
            &&& language_server_id == SERVER_NAME@ ==> {
                &&& configured matches Some(p) ==> r is Ok && r->Ok_0.command == p && remembered
                    == Some(p)
                &&& configured is None ==> (cached matches Some(q) ==> r is Ok && r->Ok_0.command
                    == q && remembered == cached)
                &&& (configured is None && cached is None) ==> (which_server matches Some(w) ==> r is Ok
                    && r->Ok_0.command == w && remembered == Some(w))
                &&& configured is None && cached is None && which_server is None ==> r is Err
                    && remembered is None
            }
        }),
{
}

} // verus!
