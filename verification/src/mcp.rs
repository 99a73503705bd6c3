//! The MCP tool surface: how a JSON-RPC method and a tool name are
//! recognised, the error codes and messages of the server, and the catalogue
//! of tools with their parameters. No tool takes a secret: a machine is named
//! by its identifier, and its password or key stays in the private registry.

use vstd::prelude::*;
use crate::text::{starts_with, str_equal};

verus! {

/// The protocol revision announced at `initialize`.
pub open spec fn protocol_version_text() -> Seq<char> {
    "2025-06-18"@
}

pub fn protocol_version() -> (res: &'static str)
    ensures
        res@ == protocol_version_text(),
{
    "2025-06-18"
}

/// The server name announced at `initialize`.
pub open spec fn server_name_text() -> Seq<char> {
    "plugin-ssh"@
}

pub fn server_name() -> (res: &'static str)
    ensures
        res@ == server_name_text(),
{
    "plugin-ssh"
}

/// A line that is not JSON.
pub const PARSE_ERROR: i64 = -32700;

/// A method the server does not know.
pub const METHOD_NOT_FOUND: i64 = -32601;

/// A tool call that failed.
pub const TOOL_FAILED: i64 = -32000;

/// The JSON-RPC methods the server tells apart.
#[derive(PartialEq, Eq, Structural)]
pub enum RpcMethod {
    Initialize,
    ListTools,
    CallTool,
    /// A `notifications/...` message: it gets no result and no error.
    Notification,
    Unknown,
}

pub open spec fn method_kind(method: Seq<char>) -> RpcMethod {
    if method == "initialize"@ {
        RpcMethod::Initialize
    } else if method == "tools/list"@ {
        RpcMethod::ListTools
    } else if method == "tools/call"@ {
        RpcMethod::CallTool
    } else if "notifications/"@.len() <= method.len() && method.subrange(
        0,
        "notifications/"@.len() as int,
    ) == "notifications/"@ {
        RpcMethod::Notification
    } else {
        RpcMethod::Unknown
    }
}

/// Recognises a request's method (the empty string when it has none).
pub fn classify_method(method: &str) -> (res: RpcMethod)
    ensures
        res == method_kind(method@),
{
    if str_equal(method, "initialize") {
        RpcMethod::Initialize
    } else if str_equal(method, "tools/list") {
        RpcMethod::ListTools
    } else if str_equal(method, "tools/call") {
        RpcMethod::CallTool
    } else if starts_with(method, "notifications/") {
        RpcMethod::Notification
    } else {
        RpcMethod::Unknown
    }
}

/// The tools the server offers.
#[derive(Clone, Copy, PartialEq, Eq, Structural)]
pub enum ToolName {
    ListServers,
    ProbeServer,
    SshExec,
    TrustHostKey,
}

impl ToolName {
    pub open spec fn text(self) -> Seq<char> {
        match self {
            ToolName::ListServers => "list_servers"@,
            ToolName::ProbeServer => "probe_server"@,
            ToolName::SshExec => "ssh_exec"@,
            ToolName::TrustHostKey => "trust_host_key"@,
        }
    }

    pub fn name(&self) -> (res: &'static str)
        ensures
            res@ == self.text(),
    {
        match self {
            ToolName::ListServers => "list_servers",
            ToolName::ProbeServer => "probe_server",
            ToolName::SshExec => "ssh_exec",
            ToolName::TrustHostKey => "trust_host_key",
        }
    }
}

/// The tool a call names, if the server has one by that name.
pub fn classify_tool(name: &str) -> (res: Option<ToolName>)
    ensures
        res matches Some(t) ==> t.text() == name@,
        res is None ==> forall|t: ToolName| t.text() != name@,
{
    proof {
        reveal_strlit("list_servers");
        reveal_strlit("probe_server");
        reveal_strlit("ssh_exec");
        reveal_strlit("trust_host_key");
    }
    if str_equal(name, "list_servers") {
        Some(ToolName::ListServers)
    } else if str_equal(name, "probe_server") {
        Some(ToolName::ProbeServer)
    } else if str_equal(name, "ssh_exec") {
        Some(ToolName::SshExec)
    } else if str_equal(name, "trust_host_key") {
        Some(ToolName::TrustHostKey)
    } else {
        proof {
            assert forall|t: ToolName| t.text() != name@ by {
                match t {
                    ToolName::ListServers => {},
                    ToolName::ProbeServer => {},
                    ToolName::SshExec => {},
                    ToolName::TrustHostKey => {},
                }
            }
        }
        None
    }
}

/// `prefix` followed by `detail`.
fn joined(prefix: &str, detail: &str) -> (res: String)
    ensures
        res@ == prefix@ + detail@,
{
    let mut out = String::from_str(prefix);
    out.append(detail);
    out
}

/// A JSON-RPC error: its code and message.
pub struct RpcError {
    pub code: i64,
    pub message: String,
}

/// The error for a line that is not valid JSON; `detail` is the parser's
/// account of it.
pub fn parse_error(detail: &str) -> (res: RpcError)
    ensures
        res.code == PARSE_ERROR,
        res.message@ == "JSON invalide : "@ + detail@,
{
    RpcError { code: PARSE_ERROR, message: joined("JSON invalide : ", detail) }
}

/// The error for a method the server does not know.
pub fn unknown_method(method: &str) -> (res: RpcError)
    ensures
        res.code == METHOD_NOT_FOUND,
        res.message@ == "méthode MCP inconnue : "@ + method@,
{
    RpcError { code: METHOD_NOT_FOUND, message: joined("méthode MCP inconnue : ", method) }
}

/// The error for a tool call that failed with `message`.
pub fn tool_failed(message: String) -> (res: RpcError)
    ensures
        res.code == TOOL_FAILED,
        res.message == message,
{
    RpcError { code: TOOL_FAILED, message }
}

/// The message for a tool the server does not have.
pub fn unknown_tool_message(name: &str) -> (res: String)
    ensures
        res@ == "Outil SSH inconnu : "@ + name@,
{
    joined("Outil SSH inconnu : ", name)
}

/// The message for `ssh_exec` arguments that do not form a request.
pub fn invalid_exec_params_message(detail: &str) -> (res: String)
    ensures
        res@ == "Paramètres SSH invalides : "@ + detail@,
{
    joined("Paramètres SSH invalides : ", detail)
}

/// The message for a required text argument that is absent.
pub open spec fn missing_param_text(key: Seq<char>) -> Seq<char> {
    "Le paramètre « "@ + key + " » manque."@
}

/// A required text argument: its value when the call carries it as a string,
/// else the error that names it.
pub fn require_param(key: &str, value: Option<String>) -> (res: Result<String, String>)
    ensures
        match value {
            Some(v) => res == Ok::<String, String>(v),
            None => res matches Err(m) && m@ == missing_param_text(key@),
        },
{
    match value {
        Some(v) => Ok(v),
        None => {
            let mut out = String::from_str("Le paramètre « ");
            out.append(key);
            out.append(" » manque.");
            Err(out)
        },
    }
}

/// A parameter of a tool; every parameter is a string.
pub struct ParamSpec {
    pub name: &'static str,
    pub description: Option<&'static str>,
    pub required: bool,
}

/// A tool as the catalogue lists it.
pub struct ToolSpec {
    pub tool: ToolName,
    pub description: &'static str,
    pub params: Vec<ParamSpec>,
}

/// The catalogue's order.
pub open spec fn tool_order() -> Seq<ToolName> {
    seq![ToolName::ListServers, ToolName::ProbeServer, ToolName::SshExec, ToolName::TrustHostKey]
}

pub open spec fn tool_description(t: ToolName) -> Seq<char> {
    match t {
        ToolName::ListServers => "Les machines enregistrées dans ce morph : identifiant, hôte,                                 utilisateur, méthode d'authentification et si la clé d'hôte est                                 déjà épinglée. Aucun secret n'est rendu."@,
        ToolName::ProbeServer => "Se connecte et rend ce que la machine permet : système, identité,                                 lecture, écriture, sudo sans mot de passe. Le test d'écriture se                                 confine au dossier personnel et efface son fichier. Rend aussi                                 l'empreinte de la clé d'hôte ; `host_key_new` dit qu'elle n'est                                 pas encore épinglée."@,
        ToolName::SshExec => "Exécute une commande sur une machine enregistrée et rend sa sortie                                 et son code de retour. La commande part telle quelle ; le dossier                                 de travail, lui, est cité."@,
        ToolName::TrustHostKey => "Épingle l'empreinte de clé d'hôte d'une machine. À n'appeler                                 qu'après avoir montré l'empreinte à la personne : c'est elle qui                                 décide de faire confiance. Une empreinte déjà épinglée ne peut pas                                 être remplacée par cet outil."@,
    }
}

/// The parameters of a tool, in order: name, description, required.
pub open spec fn tool_params(t: ToolName) -> Seq<(Seq<char>, Option<Seq<char>>, bool)> {
    match t {
        ToolName::ListServers => seq![],
        ToolName::ProbeServer => seq![("server_id"@, Some("Identifiant du serveur, tel que rendu par `list_servers`"@), true)],
        ToolName::SshExec => seq![
            ("server_id"@, Some("Identifiant du serveur, tel que rendu par `list_servers`"@), true),
            ("command"@, Some("Commande shell à exécuter"@), true),
            ("working_dir"@, Some("Dossier où se placer avant d'exécuter"@), false),
        ],
        ToolName::TrustHostKey => seq![
            ("server_id"@, None, true),
            ("fingerprint"@, Some("Empreinte SHA256:… telle que rendue par `probe_server`"@), true),
        ],
    }
}

pub open spec fn param_model(p: ParamSpec) -> (Seq<char>, Option<Seq<char>>, bool) {
    (
        p.name@,
        match p.description {
            Some(d) => Some(d@),
            None => None,
        },
        p.required,
    )
}

fn param(name: &'static str, description: Option<&'static str>, required: bool) -> (res: ParamSpec)
    ensures
        res.name == name,
        res.description == description,
        res.required == required,
{
    ParamSpec { name, description, required }
}

/// The tools the server lists, with their descriptions and parameters.
pub fn tool_catalog() -> (res: Vec<ToolSpec>)
    ensures
        res@.len() == tool_order().len(),
        forall|i: int|
            0 <= i < res@.len() ==> {
                &&& (#[trigger] res@[i]).tool == tool_order()[i]
                &&& res@[i].description@ == tool_description(res@[i].tool)
                &&& res@[i].params@.map_values(|p: ParamSpec| param_model(p)) == tool_params(
                    res@[i].tool,
                )
            },
{
    let list_servers = ToolSpec {
        tool: ToolName::ListServers,
        description: "Les machines enregistrées dans ce morph : identifiant, hôte,                                 utilisateur, méthode d'authentification et si la clé d'hôte est                                 déjà épinglée. Aucun secret n'est rendu.",
        params: Vec::new(),
    };
    let probe_server = ToolSpec {
        tool: ToolName::ProbeServer,
        description: "Se connecte et rend ce que la machine permet : système, identité,                                 lecture, écriture, sudo sans mot de passe. Le test d'écriture se                                 confine au dossier personnel et efface son fichier. Rend aussi                                 l'empreinte de la clé d'hôte ; `host_key_new` dit qu'elle n'est                                 pas encore épinglée.",
        params: vec![param("server_id", Some("Identifiant du serveur, tel que rendu par `list_servers`"), true)],
    };
    let ssh_exec = ToolSpec {
        tool: ToolName::SshExec,
        description: "Exécute une commande sur une machine enregistrée et rend sa sortie                                 et son code de retour. La commande part telle quelle ; le dossier                                 de travail, lui, est cité.",
        params: vec![
            param("server_id", Some("Identifiant du serveur, tel que rendu par `list_servers`"), true),
            param("command", Some("Commande shell à exécuter"), true),
            param("working_dir", Some("Dossier où se placer avant d'exécuter"), false),
        ],
    };
    let trust_host_key = ToolSpec {
        tool: ToolName::TrustHostKey,
        description: "Épingle l'empreinte de clé d'hôte d'une machine. À n'appeler                                 qu'après avoir montré l'empreinte à la personne : c'est elle qui                                 décide de faire confiance. Une empreinte déjà épinglée ne peut pas                                 être remplacée par cet outil.",
        params: vec![param("server_id", None, true), param("fingerprint", Some("Empreinte SHA256:… telle que rendue par `probe_server`"), true)],
    };
    assert(list_servers.params@.map_values(|p: ParamSpec| param_model(p)) =~= tool_params(
        ToolName::ListServers,
    ));
    assert(probe_server.params@.map_values(|p: ParamSpec| param_model(p)) =~= tool_params(
        ToolName::ProbeServer,
    ));
    assert(ssh_exec.params@.map_values(|p: ParamSpec| param_model(p)) =~= tool_params(
        ToolName::SshExec,
    ));
    assert(trust_host_key.params@.map_values(|p: ParamSpec| param_model(p)) =~= tool_params(
        ToolName::TrustHostKey,
    ));
    let res = vec![list_servers, probe_server, ssh_exec, trust_host_key];
    res
}

/// Distinct tools have distinct names, so a tool's own name is recognised as
/// that tool and as no other.
pub proof fn lemma_tool_names_identify_tools(a: ToolName, b: ToolName)
    ensures
        a.text() == b.text() <==> a == b,
{
    reveal_strlit("list_servers");
    reveal_strlit("probe_server");
    reveal_strlit("ssh_exec");
    reveal_strlit("trust_host_key");
    if a != b {
        match (a, b) {
            (ToolName::ListServers, _) => {
                assert(a.text()[0] != b.text()[0] || a.text().len() != b.text().len());
            },
            (ToolName::ProbeServer, _) => {
                assert(a.text()[0] != b.text()[0] || a.text().len() != b.text().len());
            },
            (ToolName::SshExec, _) => {
                assert(a.text()[1] != b.text()[1] || a.text().len() != b.text().len());
            },
            (ToolName::TrustHostKey, _) => {
                assert(a.text()[0] != b.text()[0] || a.text().len() != b.text().len());
            },
        }
    }
}

/// No tool takes a secret: every parameter of every tool is a server
/// identifier, a command, a working directory or a host-key fingerprint.
pub proof fn lemma_no_tool_takes_a_secret(t: ToolName, i: int)
    requires
        0 <= i < tool_params(t).len(),
    ensures
        tool_params(t)[i].0 == "server_id"@ || tool_params(t)[i].0 == "command"@
            || tool_params(t)[i].0 == "working_dir"@ || tool_params(t)[i].0 == "fingerprint"@,
{
}

/// Each tool is described by its own text, whatever order the catalogue
/// lists them in: `list_servers` by the registered machines, `probe_server`
/// by what connecting reveals, `ssh_exec` by running a command,
/// `trust_host_key` by pinning a fingerprint.
pub proof fn lemma_descriptions_follow_names(t: ToolName)
    ensures
        t.text() == "list_servers"@ ==> tool_description(t) == "Les machines enregistrées dans ce morph : identifiant, hôte,                                 utilisateur, méthode d'authentification et si la clé d'hôte est                                 déjà épinglée. Aucun secret n'est rendu."@,
        t.text() == "probe_server"@ ==> tool_description(t) == "Se connecte et rend ce que la machine permet : système, identité,                                 lecture, écriture, sudo sans mot de passe. Le test d'écriture se                                 confine au dossier personnel et efface son fichier. Rend aussi                                 l'empreinte de la clé d'hôte ; `host_key_new` dit qu'elle n'est                                 pas encore épinglée."@,
        t.text() == "ssh_exec"@ ==> tool_description(t) == "Exécute une commande sur une machine enregistrée et rend sa sortie                                 et son code de retour. La commande part telle quelle ; le dossier                                 de travail, lui, est cité."@,
        t.text() == "trust_host_key"@ ==> tool_description(t) == "Épingle l'empreinte de clé d'hôte d'une machine. À n'appeler                                 qu'après avoir montré l'empreinte à la personne : c'est elle qui                                 décide de faire confiance. Une empreinte déjà épinglée ne peut pas                                 être remplacée par cet outil."@,
{
    lemma_tool_names_identify_tools(t, ToolName::ListServers);
    lemma_tool_names_identify_tools(t, ToolName::ProbeServer);
    lemma_tool_names_identify_tools(t, ToolName::SshExec);
    lemma_tool_names_identify_tools(t, ToolName::TrustHostKey);
}

/// Only `initialize`, `tools/list` and `tools/call` name their methods; any
/// method under `notifications/` is a notification, and every other method is
/// unknown.
pub proof fn lemma_method_kinds(m: Seq<char>)
    ensures
        (method_kind(m) == RpcMethod::Initialize) == (m == "initialize"@),
        (method_kind(m) == RpcMethod::ListTools) == (m == "tools/list"@),
        (method_kind(m) == RpcMethod::CallTool) == (m == "tools/call"@),
        (method_kind(m) == RpcMethod::Notification) == ("notifications/"@.len() <= m.len()
            && m.subrange(0, "notifications/"@.len() as int) == "notifications/"@),
        (method_kind(m) == RpcMethod::Unknown) == (m != "initialize"@ && m != "tools/list"@ && m
            != "tools/call"@ && !("notifications/"@.len() <= m.len() && m.subrange(
            0,
            "notifications/"@.len() as int,
        ) == "notifications/"@)),
{
    reveal_strlit("initialize");
    reveal_strlit("tools/list");
    reveal_strlit("tools/call");
    reveal_strlit("notifications/");
    assert("initialize"@[0] != "tools/list"@[0]);
    assert("initialize"@[0] != "tools/call"@[0]);
    assert("tools/list"@[6] != "tools/call"@[6]);
    assert("initialize"@.len() < "notifications/"@.len());
    assert("tools/list"@.len() < "notifications/"@.len());
    assert("tools/call"@.len() < "notifications/"@.len());
}

} // verus!
