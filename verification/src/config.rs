//! The debug configuration a user writes (in `.zed/debug.json`), as the
//! debug adapter code reads it.

use vstd::prelude::*;

use crate::json::{json_str_member, json_u64_member, json_array_member, json_str_member_of,
    json_u64_member_of, json_array_member_of};

verus! {

/// The members of a debug configuration that the adapter code reads.
pub struct MidenDebugConfig {
    pub host: Option<String>,
    pub port: Option<u16>,
    pub script_path: Option<String>,
    pub miden_client_path: Option<String>,
    pub python_path: Option<String>,
    pub account_id: Option<String>,
    pub cwd: Option<String>,
    pub runtime: Option<String>,
    pub program_path: Option<String>,
    pub miden_debug_path: Option<String>,
    pub program_args: Option<Vec<String>>,
    pub link_libraries: Option<Vec<String>>,
}

/// A debug configuration, its texts taken by their views.
pub struct DebugConfigView {
    pub host: Option<Seq<char>>,
    pub port: Option<u16>,
    pub script_path: Option<Seq<char>>,
    pub miden_client_path: Option<Seq<char>>,
    pub python_path: Option<Seq<char>>,
    pub account_id: Option<Seq<char>>,
    pub cwd: Option<Seq<char>>,
    pub runtime: Option<Seq<char>>,
    pub program_path: Option<Seq<char>>,
    pub miden_debug_path: Option<Seq<char>>,
    pub program_args: Option<Seq<Seq<char>>>,
    pub link_libraries: Option<Seq<Seq<char>>>,
}

impl View for MidenDebugConfig {
    type V = DebugConfigView;

    open spec fn view(&self) -> DebugConfigView {
        DebugConfigView {
            host: self.host.deep_view(),
            port: self.port,
            script_path: self.script_path.deep_view(),
            miden_client_path: self.miden_client_path.deep_view(),
            python_path: self.python_path.deep_view(),
            account_id: self.account_id.deep_view(),
            cwd: self.cwd.deep_view(),
            runtime: self.runtime.deep_view(),
            program_path: self.program_path.deep_view(),
            miden_debug_path: self.miden_debug_path.deep_view(),
            program_args: self.program_args.deep_view(),
            link_libraries: self.link_libraries.deep_view(),
        }
    }
}

/// A port number read from JSON: kept where it fits `u16`, else dropped,
/// as `u16::try_from(n).ok()` does.
pub open spec fn port_of(n: Option<u64>) -> Option<u16> {
    match n {
        Some(v) => if v <= 65535 { Some(v as u16) } else { None },
        None => None,
    }
}

/// The debug configuration held by the JSON text `text`: each member read
/// as a string (`port` as a number), and absent where the member is missing
/// or of another type (`programArgs` and `linkLibraries` read as lists of strings,
/// absent where any of their items is no string).
pub open spec fn debug_config_of(text: Seq<char>) -> DebugConfigView {
    DebugConfigView {
        host: json_str_member(text, "host"@),
        port: port_of(json_u64_member(text, "port"@)),
        script_path: json_str_member(text, "scriptPath"@),
        miden_client_path: json_str_member(text, "midenClientPath"@),
        python_path: json_str_member(text, "pythonPath"@),
        account_id: json_str_member(text, "accountId"@),
        cwd: json_str_member(text, "cwd"@),
        runtime: json_str_member(text, "runtime"@),
        program_path: json_str_member(text, "programPath"@),
        miden_debug_path: json_str_member(text, "midenDebugPath"@),
        program_args: string_list(json_array_member(text, "programArgs"@)),
        link_libraries: string_list(json_array_member(text, "linkLibraries"@)),
    }
}

/// The texts of an array whose items are all strings; `None` for no array,
/// or for an array with an item of another type.
pub open spec fn string_list(items: Option<Seq<Option<Seq<char>>>>) -> Option<Seq<Seq<char>>> {
    match items {
        None => None,
        Some(v) => if forall|i: int| 0 <= i < v.len() ==> (#[trigger] v[i]) is Some {
            Some(v.map_values(|x: Option<Seq<char>>| x->0))
        } else {
            None
        },
    }
}

/// Keeps an array of strings, item by item; drops an array with an item of
/// another type.
pub fn string_items(items: Option<Vec<Option<String>>>) -> (r: Option<Vec<String>>)
    ensures
        r.deep_view() == string_list(items.deep_view()),
{
    let list = match items {
        None => {
            return None;
        },
        Some(v) => v,
    };
    let ghost v = list.deep_view();
    let mut out: Vec<String> = Vec::new();
    let mut i: usize = 0;
    while i < list.len()
        invariant
            v == list.deep_view(),
            items.deep_view() == Some(v),
            i <= list.len(),
            forall|j: int| 0 <= j < i ==> (#[trigger] v[j]) is Some,
            out.deep_view() =~= v.take(i as int).map_values(|x: Option<Seq<char>>| x->0),
        decreases list.len() - i,
    {
        match &list[i] {
            Some(s) => {
                out.push(s.clone());
            },
            None => {
                assert(v[i as int] is None);
                return None;
            },
        }
        assert(v.take(i + 1).map_values(|x: Option<Seq<char>>| x->0) =~= v.take(i as int).map_values(
            |x: Option<Seq<char>>| x->0,
        ).push(v[i as int]->0));
        i = i + 1;
    }
    assert(v.take(i as int) =~= v);
    Some(out)
}

impl MidenDebugConfig {
    /// Builds the configuration from the members read out of the JSON: the
    /// texts and lists as they are, the port where it fits `u16`.
    pub fn from_members(
        host: Option<String>,
        port: Option<u64>,
        script_path: Option<String>,
        miden_client_path: Option<String>,
        python_path: Option<String>,
        account_id: Option<String>,
        cwd: Option<String>,
        runtime: Option<String>,
        program_path: Option<String>,
        miden_debug_path: Option<String>,
        program_args: Option<Vec<String>>,
        link_libraries: Option<Vec<String>>,
    ) -> (r: Self)
        ensures
            r@ == (DebugConfigView {
                host: host.deep_view(),
                port: port_of(port),
                script_path: script_path.deep_view(),
                miden_client_path: miden_client_path.deep_view(),
                python_path: python_path.deep_view(),
                account_id: account_id.deep_view(),
                cwd: cwd.deep_view(),
                runtime: runtime.deep_view(),
                program_path: program_path.deep_view(),
                miden_debug_path: miden_debug_path.deep_view(),
                program_args: program_args.deep_view(),
                link_libraries: link_libraries.deep_view(),
            }),
    {
        let port = match port {
            Some(n) => if n <= 65535 { Some(n as u16) } else { None },
            None => None,
        };
        MidenDebugConfig {
            host,
            port,
            script_path,
            miden_client_path,
            python_path,
            account_id,
            cwd,
            runtime,
            program_path,
            miden_debug_path,
            program_args,
            link_libraries,
        }
    }

    /// Reads the debug configuration out of the JSON text `config_text`.
    pub fn from_json(config_text: &str) -> (r: Self)
        ensures
            r@ == debug_config_of(config_text@),
    {
        MidenDebugConfig::from_members(
            json_str_member_of(config_text, "host"),
            json_u64_member_of(config_text, "port"),
            json_str_member_of(config_text, "scriptPath"),
            json_str_member_of(config_text, "midenClientPath"),
            json_str_member_of(config_text, "pythonPath"),
            json_str_member_of(config_text, "accountId"),
            json_str_member_of(config_text, "cwd"),
            json_str_member_of(config_text, "runtime"),
            json_str_member_of(config_text, "programPath"),
            json_str_member_of(config_text, "midenDebugPath"),
            string_items(json_array_member_of(config_text, "programArgs")),
            string_items(json_array_member_of(config_text, "linkLibraries")),
        )
    }
}

/// The configuration's port is the `port` member alone: present exactly
/// where that member is an unsigned number that fits `u16`, and then that
/// number, whatever the other members hold.
pub proof fn lemma_port_is_port_member(text: Seq<char>)
    ensures
        debug_config_of(text).port matches Some(p) ==> json_u64_member(text, "port"@) == Some(
            p as u64,
        ),
        json_u64_member(text, "port"@) matches Some(n) ==> (if n <= 65535 {
            debug_config_of(text).port == Some(n as u16)
        } else {
            debug_config_of(text).port is None
        }),
        json_u64_member(text, "port"@) is None ==> debug_config_of(text).port is None,
{
}

/// Each text member of the configuration is its own JSON member, whatever
/// the others hold: two texts whose members agree give the same
/// configuration.
pub proof fn lemma_config_depends_on_members(t1: Seq<char>, t2: Seq<char>)
    requires
        json_str_member(t1, "host"@) == json_str_member(t2, "host"@),
        json_u64_member(t1, "port"@) == json_u64_member(t2, "port"@),
        json_str_member(t1, "scriptPath"@) == json_str_member(t2, "scriptPath"@),
        json_str_member(t1, "midenClientPath"@) == json_str_member(t2, "midenClientPath"@),
        json_str_member(t1, "pythonPath"@) == json_str_member(t2, "pythonPath"@),
        json_str_member(t1, "accountId"@) == json_str_member(t2, "accountId"@),
        json_str_member(t1, "cwd"@) == json_str_member(t2, "cwd"@),
        json_str_member(t1, "runtime"@) == json_str_member(t2, "runtime"@),
        json_str_member(t1, "programPath"@) == json_str_member(t2, "programPath"@),
        json_str_member(t1, "midenDebugPath"@) == json_str_member(t2, "midenDebugPath"@),
        json_array_member(t1, "programArgs"@) == json_array_member(t2, "programArgs"@),
        json_array_member(t1, "linkLibraries"@) == json_array_member(t2, "linkLibraries"@),
    ensures
        debug_config_of(t1) == debug_config_of(t2),
        debug_config_of(t1).host == json_str_member(t1, "host"@),
        debug_config_of(t1).script_path == json_str_member(t1, "scriptPath"@),
        debug_config_of(t1).cwd == json_str_member(t1, "cwd"@),
{
}

/// Every text member of the configuration is that JSON member read as a
/// string; each list member is the JSON array's items where all of them are
/// strings, and absent otherwise.
pub proof fn lemma_config_members(text: Seq<char>)
    ensures
        debug_config_of(text).host == json_str_member(text, "host"@),
        debug_config_of(text).script_path == json_str_member(text, "scriptPath"@),
        debug_config_of(text).miden_client_path == json_str_member(text, "midenClientPath"@),
        debug_config_of(text).python_path == json_str_member(text, "pythonPath"@),
        debug_config_of(text).account_id == json_str_member(text, "accountId"@),
        debug_config_of(text).cwd == json_str_member(text, "cwd"@),
        debug_config_of(text).runtime == json_str_member(text, "runtime"@),
        debug_config_of(text).program_path == json_str_member(text, "programPath"@),
        debug_config_of(text).miden_debug_path == json_str_member(text, "midenDebugPath"@),
        debug_config_of(text).program_args matches Some(v) ==> json_array_member(
            text,
            "programArgs"@,
        ) matches Some(items) && items.len() == v.len() && forall|i: int|
            0 <= i < v.len() ==> items[i] == Some(#[trigger] v[i]),
        json_array_member(text, "programArgs"@) matches Some(items) ==> ((forall|i: int|
            0 <= i < items.len() ==> (#[trigger] items[i]) is Some) <==> debug_config_of(
            text,
        ).program_args is Some),
        debug_config_of(text).link_libraries matches Some(v) ==> json_array_member(
            text,
            "linkLibraries"@,
        ) matches Some(items) && items.len() == v.len() && forall|i: int|
            0 <= i < v.len() ==> items[i] == Some(#[trigger] v[i]),
        json_array_member(text, "linkLibraries"@) matches Some(items) ==> ((forall|i: int|
            0 <= i < items.len() ==> (#[trigger] items[i]) is Some) <==> debug_config_of(
            text,
        ).link_libraries is Some),
{
}

} // verus!
