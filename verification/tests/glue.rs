use pty_session::{
    AuthStatus, ConfigDirListing, check_auth_status, check_dependencies, get_claude_config_dir,
    get_claude_config_info, get_shell_path, install_claude_code, join_path, latest_nvm_version,
    str_lt,
};

const FALLBACK: &str = "/opt/homebrew/bin:/usr/local/bin:/usr/bin:/bin:/usr/sbin:/sbin:/opt/homebrew/opt/node/bin:/usr/local/opt/node/bin";

#[test]
fn config_dir_is_under_home() {
    let home = "/Users/me".to_string();
    assert_eq!(
        get_claude_config_dir(Some(&home), ".shellcli"),
        Some("/Users/me/.shellcli".to_string())
    );
    assert_eq!(get_claude_config_dir(None, ".shellcli"), None);
}

#[test]
fn join_path_inserts_separator() {
    assert_eq!(join_path("/Users/me/.shellcli", "config.json"), "/Users/me/.shellcli/config.json");
}

#[test]
fn auth_status_needs_home_and_a_config_file() {
    let home = "/Users/me".to_string();
    let st = check_auth_status(Some(&home), ".shellcli", true, false);
    assert!(st.authenticated);
    assert_eq!(st.config_path, Some("/Users/me/.shellcli".to_string()));
    let st = check_auth_status(Some(&home), ".shellcli", false, true);
    assert!(st.authenticated);
    let st = check_auth_status(Some(&home), ".shellcli", false, false);
    assert!(!st.authenticated);
    let st: AuthStatus = check_auth_status(None, ".shellcli", true, true);
    assert!(!st.authenticated);
    assert_eq!(st.config_path, None);
}

#[test]
fn config_info_reports_each_case() {
    assert_eq!(
        get_claude_config_info(ConfigDirListing::NoHome),
        Err("Could not find home directory".to_string())
    );
    assert_eq!(
        get_claude_config_info(ConfigDirListing::Missing),
        Ok(vec!["Config directory does not exist".to_string()])
    );
    assert_eq!(
        get_claude_config_info(ConfigDirListing::ReadFailed("denied".to_string())),
        Err("Failed to read config directory: denied".to_string())
    );
    let entries = vec!["config.json".to_string(), "projects".to_string()];
    assert_eq!(get_claude_config_info(ConfigDirListing::Entries(entries.clone())), Ok(entries));
}

#[test]
fn string_order_is_lexicographic() {
    assert!(str_lt("a", "b"));
    assert!(str_lt("", "a"));
    assert!(str_lt("v20", "v20.1"));
    assert!(!str_lt("b", "a"));
    assert!(!str_lt("same", "same"));
    assert!(str_lt("v18.2.0", "v20.10.0"));
}

#[test]
fn latest_version_is_the_greatest() {
    let dirs = vec!["v18.2.0".to_string(), "v20.10.0".to_string(), "v16.1.0".to_string()];
    assert_eq!(latest_nvm_version(&dirs), Some("v20.10.0".to_string()));
    assert_eq!(latest_nvm_version(&Vec::new()), None);
}

#[test]
fn shell_path_prefers_the_login_shell() {
    let r = get_shell_path(Some("/usr/bin:/bin".to_string()), Some("/n/bin".to_string()));
    assert_eq!(r, "/usr/bin:/bin");
}

#[test]
fn shell_path_falls_back_when_probe_is_empty() {
    let r = get_shell_path(Some(String::new()), None);
    assert_eq!(r, FALLBACK);
    let r = get_shell_path(None, None);
    assert_eq!(r, FALLBACK);
}

#[test]
fn shell_path_puts_nvm_first() {
    let nvm = "/Users/me/.nvm/versions/node/v20.10.0/bin".to_string();
    let r = get_shell_path(None, Some(nvm.clone()));
    assert_eq!(r, format!("{nvm}:{FALLBACK}"));
}

#[test]
fn dependency_report_keeps_the_probes() {
    let st = check_dependencies(Some("v20.10.0".to_string()), None, true);
    assert_eq!(st.node, Some("v20.10.0".to_string()));
    assert_eq!(st.claude, None);
    assert!(st.authenticated);
}

#[test]
fn install_result_follows_the_exit_status() {
    assert!(install_claude_code(true, &"Some(0)".to_string()).is_ok());
    assert_eq!(
        install_claude_code(false, &"Some(1)".to_string()),
        Err("npm install failed with exit code: Some(1)".to_string())
    );
}
