use geph_launcher::daemon::{check_host, DaemonConfig, HostOs, LaunchError, LaunchPlan};
use geph_launcher::utils::{AuthFlagsError, RpcAuthKind};

fn config() -> DaemonConfig {
    DaemonConfig {
        username: "a".to_string(),
        password: "b".to_string(),
        exit_hostname: "ex.example.com".to_string(),
        force_bridges: false,
        vpn_mode: false,
        prc_whitelist: false,
        listen_all: false,
        force_protocol: None,
    }
}

fn strs(v: &[String]) -> Vec<&str> {
    v.iter().map(|s| s.as_str()).collect()
}

#[test]
fn plain_password_config_gives_the_minimal_vector() {
    let args = config().common_args("/tmp/logs.db");
    assert_eq!(
        strs(&args),
        vec![
            "--exit-server",
            "ex.example.com",
            "--debugpack-path",
            "/tmp/logs.db",
            "auth-password",
            "--username",
            "a",
            "--password",
            "b"
        ]
    );
}

#[test]
fn plain_config_is_launched_as_connect_without_elevation() {
    let plan = config()
        .launch_plan(HostOs::Linux, false, "/tmp/logs.db")
        .unwrap();
    assert_eq!(plan.executable, "geph4-client");
    assert_eq!(plan.elevation, None);
    assert!(!plan.hide_console);
    assert_eq!(plan.args[0], "connect");
    assert_eq!(plan.args[1..].to_vec(), config().common_args("/tmp/logs.db"));
    assert_eq!(
        strs(&plan.command_line()),
        vec![
            "geph4-client",
            "connect",
            "--exit-server",
            "ex.example.com",
            "--debugpack-path",
            "/tmp/logs.db",
            "auth-password",
            "--username",
            "a",
            "--password",
            "b"
        ]
    );
}

#[test]
fn every_option_set_gives_the_full_vector_in_order() {
    let mut c = config();
    c.force_protocol = Some("obfs4".to_string());
    c.prc_whitelist = true;
    c.force_bridges = true;
    c.listen_all = true;
    let args = c.common_args("/var/db");
    assert_eq!(
        strs(&args),
        vec![
            "--exit-server",
            "ex.example.com",
            "--force-protocol",
            "obfs4",
            "--debugpack-path",
            "/var/db",
            "--exclude-prc",
            "--use-bridges",
            "--socks5-listen",
            "0.0.0.0:9909",
            "--http-listen",
            "0.0.0.0:9910",
            "auth-password",
            "--username",
            "a",
            "--password",
            "b"
        ]
    );
}

#[test]
fn same_config_gives_the_same_vector() {
    let mut c = config();
    c.listen_all = true;
    let first = c.common_args("/p");
    let second = c.clone().common_args("/p");
    assert_eq!(first, second);
}

#[test]
fn forced_protocol_follows_its_flag() {
    let mut c = config();
    c.force_protocol = Some("obfs4".to_string());
    let args = c.common_args("/p");
    let at = args.iter().position(|a| a == "--force-protocol").unwrap();
    assert_eq!(at, 2);
    assert_eq!(args[at + 1], "obfs4");
}

#[test]
fn no_forced_protocol_no_flag() {
    let args = config().common_args("/p");
    assert!(!args.iter().any(|a| a == "--force-protocol"));
}

#[test]
fn listen_all_binds_both_listeners_to_the_wildcard() {
    let mut c = config();
    c.listen_all = true;
    let args = c.common_args("/p");
    let socks = args.iter().position(|a| a == "--socks5-listen").unwrap();
    assert_eq!(args[socks + 1], "0.0.0.0:9909");
    let http = args.iter().position(|a| a == "--http-listen").unwrap();
    assert_eq!(args[http + 1], "0.0.0.0:9910");
    assert_eq!(http, socks + 2);
}

#[test]
fn without_listen_all_no_listener_flag() {
    let args = config().common_args("/p");
    assert!(!args.iter().any(|a| a == "--socks5-listen"));
    assert!(!args.iter().any(|a| a == "--http-listen"));
    assert!(!args.iter().any(|a| a == "0.0.0.0:9909"));
    assert!(!args.iter().any(|a| a == "0.0.0.0:9910"));
}

#[test]
fn switches_come_one_by_one() {
    let mut c = config();
    c.prc_whitelist = true;
    let args = c.common_args("/p");
    assert_eq!(args[4], "--exclude-prc");
    assert_eq!(args[5], "auth-password");
    let mut c = config();
    c.force_bridges = true;
    let args = c.common_args("/p");
    assert_eq!(args[4], "--use-bridges");
    assert_eq!(args[5], "auth-password");
}

#[test]
fn password_block_is_the_only_authentication_block() {
    let args = config().common_args("/p");
    let n = args.len();
    assert_eq!(
        strs(&args[n - 5..]),
        vec!["auth-password", "--username", "a", "--password", "b"]
    );
    assert!(!args.iter().any(|a| a == "auth-keypair"));
    assert!(!args.iter().any(|a| a == "--sk-path"));
    assert_eq!(args.iter().filter(|a| *a == "auth-password").count(), 1);
}

#[test]
fn vpn_on_linux_goes_through_pkexec() {
    let mut c = config();
    c.vpn_mode = true;
    let plan = c.launch_plan(HostOs::Linux, false, "/p").unwrap();
    assert_eq!(plan.elevation, Some("pkexec".to_string()));
    assert_eq!(plan.executable, "geph4-client");
    assert!(!plan.hide_console);
    assert_eq!(
        strs(&plan.args[..3]),
        vec!["connect", "--vpn-mode", "tun-route"]
    );
    assert_eq!(plan.args[3..].to_vec(), c.common_args("/p"));
    let line = plan.command_line();
    assert_eq!(
        strs(&line[..5]),
        vec!["pkexec", "geph4-client", "connect", "--vpn-mode", "tun-route"]
    );
    assert_eq!(line.len(), plan.args.len() + 2);
}

#[test]
fn vpn_on_windows_with_elevation_uses_windivert() {
    let mut c = config();
    c.vpn_mode = true;
    let plan = c.launch_plan(HostOs::Windows, true, "/p").unwrap();
    assert_eq!(plan.elevation, None);
    assert!(plan.hide_console);
    assert_eq!(
        strs(&plan.args[..3]),
        vec!["connect", "--vpn-mode", "windivert"]
    );
    assert_eq!(plan.args[3..].to_vec(), c.common_args("/p"));
}

#[test]
fn vpn_on_windows_without_elevation_is_refused() {
    let mut c = config();
    c.vpn_mode = true;
    assert_eq!(
        c.launch_plan(HostOs::Windows, false, "/p"),
        Err(LaunchError::InsufficientPrivilege)
    );
    assert_eq!(
        c.start(HostOs::Windows, false),
        Err(LaunchError::InsufficientPrivilege)
    );
}

#[test]
fn vpn_on_macos_is_unsupported() {
    let mut c = config();
    c.vpn_mode = true;
    for elevated in [false, true] {
        assert_eq!(
            c.launch_plan(HostOs::MacOs, elevated, "/p"),
            Err(LaunchError::UnsupportedPlatform)
        );
        assert_eq!(
            c.clone().start(HostOs::MacOs, elevated),
            Err(LaunchError::UnsupportedPlatform)
        );
    }
}

#[test]
fn normal_mode_is_the_same_on_every_host_but_for_the_console() {
    for (host, hide) in [
        (HostOs::Linux, false),
        (HostOs::Windows, true),
        (HostOs::MacOs, false),
    ] {
        for elevated in [false, true] {
            let plan = config().launch_plan(host, elevated, "/p").unwrap();
            let mut args = vec!["connect".to_string()];
            args.extend(config().common_args("/p"));
            assert_eq!(
                plan,
                LaunchPlan {
                    executable: "geph4-client".to_string(),
                    elevation: None,
                    args,
                    hide_console: hide,
                }
            );
        }
    }
}

#[test]
fn start_plans_with_the_resolved_log_store() {
    match config().start(HostOs::Linux, false) {
        Ok(plan) => {
            let path = geph_launcher::daemon::debugpack_path().unwrap();
            let text = path.to_string_lossy().to_string();
            assert_eq!(
                plan,
                config().launch_plan(HostOs::Linux, false, &text).unwrap()
            );
            assert_eq!(plan.args[3], "--debugpack-path");
            assert_eq!(plan.args[4], text);
        }
        Err(e) => {
            assert_eq!(e, LaunchError::NoDataDirectory);
            assert!(geph_launcher::daemon::debugpack_path().is_none());
        }
    }
}

#[test]
fn log_store_is_a_file_of_the_local_data_directory() {
    match geph_launcher::daemon::debugpack_path() {
        Some(path) => {
            assert_eq!(path.file_name().unwrap().to_str(), Some("geph4-logs.db"));
            assert_eq!(path.parent().map(|p| p.to_path_buf()), dirs::data_local_dir());
        }
        None => assert!(dirs::data_local_dir().is_none()),
    }
}

#[test]
fn options_are_the_vector_without_its_authentication_block() {
    let mut c = config();
    c.force_bridges = true;
    let options = c.option_args("/p");
    assert_eq!(
        strs(&options),
        vec![
            "--exit-server",
            "ex.example.com",
            "--debugpack-path",
            "/p",
            "--use-bridges"
        ]
    );
    let all = c.common_args("/p");
    assert_eq!(all[..options.len()].to_vec(), options);
}

#[test]
fn signing_key_kind_ends_the_vector_with_the_keypair_block() {
    let c = config();
    let args = c
        .args_with_auth("/p", RpcAuthKind::Signature {}, Ok("/keys/sk".to_string()))
        .unwrap();
    assert_eq!(
        strs(&args),
        vec![
            "--exit-server",
            "ex.example.com",
            "--debugpack-path",
            "/p",
            "auth-keypair",
            "--sk-path",
            "/keys/sk"
        ]
    );
    assert!(!args.iter().any(|a| a == "auth-password"));
    assert!(!args.iter().any(|a| a == "--username"));
    assert_eq!(
        c.args_with_auth(
            "/p",
            RpcAuthKind::Signature {},
            Err(AuthFlagsError::NoKeyDirectory)
        ),
        Err(AuthFlagsError::NoKeyDirectory)
    );
    assert_eq!(
        c.args_with_auth(
            "/p",
            RpcAuthKind::Signature {},
            Err(AuthFlagsError::KeyPathNotUnicode)
        ),
        Err(AuthFlagsError::KeyPathNotUnicode)
    );
}

#[test]
fn password_kind_ends_the_vector_with_the_given_credentials() {
    let c = config();
    let kind = RpcAuthKind::Password {
        username: "carol".to_string(),
        password: "pw".to_string(),
    };
    let args = c
        .args_with_auth("/p", kind, Err(AuthFlagsError::NoKeyDirectory))
        .unwrap();
    assert_eq!(
        strs(&args[4..]),
        vec!["auth-password", "--username", "carol", "--password", "pw"]
    );
    assert!(!args.iter().any(|a| a == "auth-keypair"));
    let own = RpcAuthKind::Password {
        username: "a".to_string(),
        password: "b".to_string(),
    };
    assert_eq!(
        c.args_with_auth("/p", own, Ok("unused".to_string())).unwrap(),
        c.common_args("/p")
    );
}

#[test]
fn empty_protocol_override_is_not_well_formed() {
    let mut c = config();
    assert!(c.is_well_formed());
    c.force_protocol = Some("obfs4".to_string());
    assert!(c.is_well_formed());
    c.force_protocol = Some(String::new());
    assert!(!c.is_well_formed());
}

#[test]
fn host_check_refuses_only_vpn_mode() {
    for host in [HostOs::Linux, HostOs::Windows, HostOs::MacOs] {
        for elevated in [false, true] {
            assert_eq!(check_host(false, host, elevated), None);
        }
    }
    assert_eq!(check_host(true, HostOs::Linux, false), None);
    assert_eq!(check_host(true, HostOs::Linux, true), None);
    assert_eq!(check_host(true, HostOs::Windows, true), None);
    assert_eq!(
        check_host(true, HostOs::Windows, false),
        Some(LaunchError::InsufficientPrivilege)
    );
    assert_eq!(
        check_host(true, HostOs::MacOs, false),
        Some(LaunchError::UnsupportedPlatform)
    );
    assert_eq!(
        check_host(true, HostOs::MacOs, true),
        Some(LaunchError::UnsupportedPlatform)
    );
}

#[test]
fn each_launch_error_says_what_failed() {
    assert_eq!(
        LaunchError::UnsupportedPlatform.message(),
        "VPN mode not supported on macOS"
    );
    assert_eq!(
        LaunchError::InsufficientPrivilege.message(),
        "VPN mode requires admin privileges on Windows"
    );
    assert_eq!(LaunchError::NoDataDirectory.message(), "no local data directory");
}

#[test]
fn log_store_path_ends_with_the_file_name() {
    if let Some(path) = geph_launcher::daemon::debugpack_path() {
        let text = path.to_string_lossy().into_owned();
        assert!(text.ends_with("geph4-logs.db"));
        assert_ne!(Some(path), dirs::data_local_dir());
    }
    if let Ok(plan) = config().start(HostOs::Linux, false) {
        assert!(plan.args[4].ends_with("geph4-logs.db"));
    }
}

#[test]
fn log_store_lies_in_the_given_directory() {
    let dir = std::path::PathBuf::from("data").join("local");
    let path = geph_launcher::daemon::debugpack_in(Some(dir.clone())).unwrap();
    assert_eq!(path, dir.join("geph4-logs.db"));
    assert_eq!(path.parent(), Some(dir.as_path()));
    assert_eq!(path.file_name().unwrap().to_str(), Some("geph4-logs.db"));
    assert_eq!(geph_launcher::daemon::debugpack_in(None), None);
    assert_eq!(
        geph_launcher::daemon::debugpack_path(),
        geph_launcher::daemon::debugpack_in(dirs::data_local_dir())
    );
}

#[test]
fn command_line_without_override_or_listeners_holds_none_of_their_words() {
    for vpn_mode in [false, true] {
        for (host, elevated) in [
            (HostOs::Linux, false),
            (HostOs::Windows, true),
            (HostOs::MacOs, false),
        ] {
            let mut c = config();
            c.vpn_mode = vpn_mode;
            c.prc_whitelist = true;
            c.force_bridges = true;
            if let Ok(plan) = c.launch_plan(host, elevated, "/data/geph4-logs.db") {
                let line = plan.command_line();
                for word in [
                    "--force-protocol",
                    "--socks5-listen",
                    "--http-listen",
                    "0.0.0.0:9909",
                    "0.0.0.0:9910",
                ] {
                    assert!(!line.iter().any(|a| a == word), "{}", word);
                }
            }
        }
    }
}
