use locaryn_plugin_ssh::{ssh_exec, SshExecRequest};

#[test]
fn ssh_exec_refuses_without_running_anything() {
    let req = SshExecRequest {
        server_id: "prod".to_string(),
        command: "rm -rf /tmp/x".to_string(),
        working_dir: Some("/srv".to_string()),
    };
    let res = ssh_exec(req);
    assert_eq!(
        res.unwrap_err(),
        "L'execution distante n'est pas implementee : ce morph n'ouvre aucune connexion SSH. Aucune commande n'a ete executee."
    );
}
