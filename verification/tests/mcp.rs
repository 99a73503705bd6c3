use locaryn_plugin_ssh::mcp::{
    classify_method, classify_tool, invalid_exec_params_message, parse_error, protocol_version,
    require_param, server_name, tool_catalog, tool_failed, unknown_method, unknown_tool_message,
    RpcMethod, ToolName, METHOD_NOT_FOUND, PARSE_ERROR, TOOL_FAILED,
};

#[test]
fn methods_are_recognised() {
    assert!(classify_method("initialize") == RpcMethod::Initialize);
    assert!(classify_method("tools/list") == RpcMethod::ListTools);
    assert!(classify_method("tools/call") == RpcMethod::CallTool);
    assert!(classify_method("notifications/initialized") == RpcMethod::Notification);
    assert!(classify_method("notifications/") == RpcMethod::Notification);
    assert!(classify_method("notification") == RpcMethod::Unknown);
    assert!(classify_method("") == RpcMethod::Unknown);
    assert!(classify_method("Initialize") == RpcMethod::Unknown);
}

#[test]
fn server_identity_and_codes() {
    assert_eq!(protocol_version(), "2025-06-18");
    assert_eq!(server_name(), "plugin-ssh");
    assert_eq!(PARSE_ERROR, -32700);
    assert_eq!(METHOD_NOT_FOUND, -32601);
    assert_eq!(TOOL_FAILED, -32000);
}

#[test]
fn tools_are_recognised_by_name() {
    for t in [ToolName::ListServers, ToolName::ProbeServer, ToolName::SshExec, ToolName::TrustHostKey] {
        assert!(classify_tool(t.name()) == Some(t));
    }
    assert!(classify_tool("ssh_exec ") == None);
    assert!(classify_tool("rm") == None);
}

#[test]
fn server_messages() {
    let p = parse_error("EOF while parsing");
    assert_eq!((p.code, p.message.as_str()), (-32700, "JSON invalide : EOF while parsing"));
    let u = unknown_method("ping");
    assert_eq!((u.code, u.message.as_str()), (-32601, "méthode MCP inconnue : ping"));
    let t = tool_failed("boom".to_string());
    assert_eq!((t.code, t.message.as_str()), (-32000, "boom"));
    assert_eq!(unknown_tool_message("rm"), "Outil SSH inconnu : rm");
    assert_eq!(
        invalid_exec_params_message("missing field `command`"),
        "Paramètres SSH invalides : missing field `command`"
    );
}

#[test]
fn required_parameter() {
    assert_eq!(require_param("server_id", Some("prod".to_string())), Ok("prod".to_string()));
    assert_eq!(
        require_param("fingerprint", None),
        Err("Le paramètre « fingerprint » manque.".to_string())
    );
}

#[test]
fn catalogue_lists_four_tools_without_secrets() {
    let cat = tool_catalog();
    let names: Vec<&str> = cat.iter().map(|t| t.tool.name()).collect();
    assert_eq!(names, vec!["list_servers", "probe_server", "ssh_exec", "trust_host_key"]);
    let params: Vec<Vec<(&str, bool)>> =
        cat.iter().map(|t| t.params.iter().map(|p| (p.name, p.required)).collect()).collect();
    assert_eq!(
        params,
        vec![
            vec![],
            vec![("server_id", true)],
            vec![("server_id", true), ("command", true), ("working_dir", false)],
            vec![("server_id", true), ("fingerprint", true)],
        ]
    );
    assert!(cat[3].params[0].description.is_none());
    assert_eq!(cat[2].params[1].description, Some("Commande shell à exécuter"));
    assert!(cat[3].description.starts_with("Épingle l'empreinte de clé d'hôte"));
    assert!(cat[3].description.ends_with("être remplacée par cet outil."));
    for t in &cat {
        for p in &t.params {
            assert!(!p.name.contains("password") && !p.name.contains("passphrase"));
        }
    }
}
