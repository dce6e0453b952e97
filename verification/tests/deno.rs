use winter_mcp::deno::{
    deno_args, env_allowlist_of, judge_run, DenoError, DenoExecutor, DenoPermissions,
    WorkspacePermission, DEFAULT_TIMEOUT_SECS,
};

fn perms() -> DenoPermissions {
    DenoPermissions {
        network: false,
        secrets: vec![],
        workspace: None,
        allowed_commands: vec![],
        allowed_tools: vec![],
        tool_name_map: vec![],
        tool_token: None,
        mcp_url: None,
    }
}

#[test]
fn sandbox_without_privileges() {
    let args = deno_args(&perms(), "/tmp/tool.ts", "/tmp/wrap.ts", ",/etc/ssl/certs");
    assert_eq!(
        args,
        vec![
            "run",
            "--no-prompt",
            "--allow-env=WINTER_WORKSPACE",
            "--allow-read=/tmp/tool.ts,/tmp/wrap.ts",
            "/tmp/wrap.ts",
        ]
    );
}

#[test]
fn sandbox_with_all_privileges() {
    let mut p = perms();
    p.network = true;
    p.secrets = vec![("WINTER_SECRET_KEY".to_string(), "v".to_string())];
    p.workspace = Some(WorkspacePermission { path: "/ws".to_string(), read: true, write: true });
    p.allowed_commands = vec!["git".to_string(), "ls".to_string()];
    p.allowed_tools = vec!["query_facts".to_string()];
    let args = deno_args(&p, "/t.ts", "/w.ts", ",/etc/ssl/certs");
    assert_eq!(
        args,
        vec![
            "run",
            "--no-prompt",
            "--allow-net",
            "--allow-env=HTTP_PROXY,HTTPS_PROXY,NO_PROXY,http_proxy,https_proxy,no_proxy,WINTER_SECRET_KEY,WINTER_WORKSPACE,WINTER_MCP_URL,WINTER_TOOL_TOKEN",
            "--allow-read=/t.ts,/w.ts,/etc/ssl/certs,/ws",
            "--allow-write=/ws",
            "--allow-run=git,ls",
            "/w.ts",
        ]
    );
}

#[test]
fn chaining_allows_only_localhost() {
    let mut p = perms();
    p.allowed_tools = vec!["query_facts".to_string()];
    p.workspace = Some(WorkspacePermission { path: "/ws".to_string(), read: false, write: false });
    let args = deno_args(&p, "/t.ts", "/w.ts", ",/certs");
    assert_eq!(args[2], "--allow-net=127.0.0.1,localhost");
    assert_eq!(args[4], "--allow-read=/t.ts,/w.ts");
    assert_eq!(
        env_allowlist_of(&p),
        vec!["WINTER_WORKSPACE", "WINTER_MCP_URL", "WINTER_TOOL_TOKEN"]
    );
}

#[test]
fn judging_runs() {
    assert!(judge_run(true, String::new(), true, None).is_ok());
    assert_eq!(
        judge_run(false, "boom".to_string(), true, None).unwrap_err().message(),
        "Deno execution failed: boom"
    );
    assert_eq!(
        judge_run(true, String::new(), false, None).unwrap_err().message(),
        "Deno execution failed: unknown error"
    );
    assert_eq!(DenoError::Timeout(30000).message(), "execution timeout after 30000ms");
    assert_eq!(DenoError::DenoNotFound.message(), "Deno not found - is Deno installed?");
    let ex = DenoExecutor::new(std::time::Duration::from_secs(DEFAULT_TIMEOUT_SECS));
    assert_eq!(ex.timeout.as_secs(), 30);
}
