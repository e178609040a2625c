use zapret_ui::lists::{list_kinds, ListKind, ZapretLists};
use zapret_ui::process::{is_zapret_running, list_engine_args, stop_engine_args, tcp_timestamps_args};
use zapret_ui::winws::{
    plan_default_strategy, powershell_args, run_list_files, powershell_command, tcp_ports, udp_ports,
    winws_args, winws_paths, WinwsPaths,
};

fn sample_paths() -> WinwsPaths {
    winws_paths("/res/zapret/bin", "/tmp/zl")
}

fn expected_args(game_tcp: &str, game_udp: &str, wf_tcp: &str, wf_udp: &str) -> Vec<String> {
    let b = "/res/zapret/bin";
    let t = "/tmp/zl";
    let quic = format!("{}/quic_initial_www_google_com.bin", b);
    let tls_g = format!("{}/tls_clienthello_www_google_com.bin", b);
    let tls_4 = format!("{}/tls_clienthello_4pda_to.bin", b);
    let lg = format!("{}/list-general.txt", t);
    let lgu = format!("{}/list-general-user.txt", t);
    let le = format!("{}/list-exclude.txt", t);
    let leu = format!("{}/list-exclude-user.txt", t);
    let ia = format!("{}/ipset-all.txt", t);
    let ie = format!("{}/ipset-exclude.txt", t);
    let ieu = format!("{}/ipset-exclude-user.txt", t);
    vec![
        format!("--wf-tcp={}", wf_tcp),
        format!("--wf-udp={}", wf_udp),
        "--filter-udp=443".into(),
        format!("--hostlist={}", lg),
        format!("--hostlist={}", lgu),
        format!("--hostlist-exclude={}", le),
        format!("--hostlist-exclude={}", leu),
        format!("--ipset-exclude={}", ie),
        format!("--ipset-exclude={}", ieu),
        "--dpi-desync=fake".into(),
        "--dpi-desync-repeats=6".into(),
        format!("--dpi-desync-fake-quic={}", quic),
        "--new".into(),
        "--filter-udp=19294-19344,50000-50100".into(),
        "--filter-l7=discord,stun".into(),
        "--dpi-desync=fake".into(),
        "--dpi-desync-repeats=6".into(),
        "--new".into(),
        "--filter-tcp=2053,2083,2087,2096,8443".into(),
        "--hostlist-domains=discord.media".into(),
        "--dpi-desync=multisplit".into(),
        "--dpi-desync-split-seqovl=681".into(),
        "--dpi-desync-split-pos=1".into(),
        format!("--dpi-desync-split-seqovl-pattern={}", tls_g),
        "--new".into(),
        "--filter-tcp=443".into(),
        format!("--hostlist={}", ia),
        "--ip-id=zero".into(),
        "--dpi-desync=multisplit".into(),
        "--dpi-desync-split-seqovl=681".into(),
        "--dpi-desync-split-pos=1".into(),
        format!("--dpi-desync-split-seqovl-pattern={}", tls_g),
        "--new".into(),
        "--filter-tcp=80,443".into(),
        format!("--hostlist={}", lg),
        format!("--hostlist={}", lgu),
        format!("--hostlist-exclude={}", le),
        format!("--hostlist-exclude={}", leu),
        format!("--ipset-exclude={}", ie),
        format!("--ipset-exclude={}", ieu),
        "--dpi-desync=multisplit".into(),
        "--dpi-desync-split-seqovl=568".into(),
        "--dpi-desync-split-pos=1".into(),
        format!("--dpi-desync-split-seqovl-pattern={}", tls_4),
        "--new".into(),
        "--filter-udp=443".into(),
        format!("--ipset={}", ia),
        format!("--hostlist-exclude={}", le),
        format!("--hostlist-exclude={}", leu),
        format!("--ipset-exclude={}", ie),
        format!("--ipset-exclude={}", ieu),
        "--dpi-desync=fake".into(),
        "--dpi-desync-repeats=6".into(),
        format!("--dpi-desync-fake-quic={}", quic),
        "--new".into(),
        "--filter-tcp=80,443,8443".into(),
        format!("--ipset={}", ia),
        format!("--hostlist-exclude={}", le),
        format!("--hostlist-exclude={}", leu),
        format!("--ipset-exclude={}", ie),
        format!("--ipset-exclude={}", ieu),
        "--dpi-desync=multisplit".into(),
        "--dpi-desync-split-seqovl=568".into(),
        "--dpi-desync-split-pos=1".into(),
        format!("--dpi-desync-split-seqovl-pattern={}", tls_4),
        "--new".into(),
        format!("--filter-tcp={}", game_tcp),
        format!("--ipset={}", ia),
        format!("--ipset-exclude={}", ie),
        format!("--ipset-exclude={}", ieu),
        "--dpi-desync=multisplit".into(),
        "--dpi-desync-any-protocol=1".into(),
        "--dpi-desync-cutoff=n3".into(),
        "--dpi-desync-split-seqovl=568".into(),
        "--dpi-desync-split-pos=1".into(),
        format!("--dpi-desync-split-seqovl-pattern={}", tls_4),
        "--new".into(),
        format!("--filter-udp={}", game_udp),
        format!("--ipset={}", ia),
        format!("--ipset-exclude={}", ie),
        format!("--ipset-exclude={}", ieu),
        "--dpi-desync=fake".into(),
        "--dpi-desync-repeats=12".into(),
        "--dpi-desync-any-protocol=1".into(),
        format!("--dpi-desync-fake-unknown-udp={}", quic),
        "--dpi-desync-cutoff=n2".into(),
    ]
}

#[test]
fn paths_lie_in_bin_and_the_list_directory() {
    let p = sample_paths();
    assert_eq!(p.winws, "/res/zapret/bin/winws.exe");
    assert_eq!(p.quic_google, "/res/zapret/bin/quic_initial_www_google_com.bin");
    assert_eq!(p.tls_google, "/res/zapret/bin/tls_clienthello_www_google_com.bin");
    assert_eq!(p.tls_4pda, "/res/zapret/bin/tls_clienthello_4pda_to.bin");
    assert_eq!(p.list_path(ListKind::ListGeneral), "/tmp/zl/list-general.txt");
    assert_eq!(p.list_path(ListKind::IpsetExcludeUser), "/tmp/zl/ipset-exclude-user.txt");
}

#[test]
fn port_lists_take_the_game_filter_unless_blank() {
    assert_eq!(tcp_ports(""), "80,443,2053,2083,2087,2096,8443");
    assert_eq!(tcp_ports("   "), "80,443,2053,2083,2087,2096,8443");
    assert_eq!(tcp_ports("1024-65535"), "80,443,2053,2083,2087,2096,8443,1024-65535");
    assert_eq!(tcp_ports(" 27015 "), "80,443,2053,2083,2087,2096,8443, 27015 ");
    assert_eq!(udp_ports(""), "443,19294-19344,50000-50100");
    assert_eq!(udp_ports("\t"), "443,19294-19344,50000-50100");
    assert_eq!(udp_ports("27015"), "443,19294-19344,50000-50100,27015");
}

#[test]
fn engine_arguments_without_game_filters() {
    let args = winws_args(&sample_paths(), "", "");
    let expected = expected_args(
        "",
        "",
        "80,443,2053,2083,2087,2096,8443",
        "443,19294-19344,50000-50100",
    );
    assert_eq!(args.len(), 86);
    assert_eq!(args, expected);
}

#[test]
fn engine_arguments_with_game_filters() {
    let args = winws_args(&sample_paths(), "1024-65535", "27015");
    let expected = expected_args(
        "1024-65535",
        "27015",
        "80,443,2053,2083,2087,2096,8443,1024-65535",
        "443,19294-19344,50000-50100,27015",
    );
    assert_eq!(args, expected);
}

#[test]
fn every_list_file_reaches_the_engine() {
    let p = sample_paths();
    let args = winws_args(&p, "", "");
    for k in list_kinds() {
        let path = p.list_path(k);
        assert!(args.iter().any(|a| a.ends_with(path) && a.starts_with("--")));
    }
    assert_eq!(args.iter().filter(|a| a.as_str() == "--new").count(), 8);
}

#[test]
fn powershell_command_starts_the_engine_elevated() {
    let args = vec!["--a=1".to_string(), "--new".to_string(), "--b".to_string()];
    let cmd = powershell_command("C:\\z\\bin\\winws.exe", &args);
    assert_eq!(
        cmd,
        "Start-Process -FilePath 'C:\\z\\bin\\winws.exe' -ArgumentList '--a=1 --new --b' -Verb RunAs"
    );
    assert_eq!(
        powershell_args(&cmd),
        vec!["-NoProfile".to_string(), "-Command".to_string(), cmd.clone()]
    );
}

#[test]
fn plan_of_the_default_strategy() {
    let launch = plan_default_strategy("/res/zapret", "/tmp/zl", Some("1024-65535".to_string()), None);
    assert_eq!(launch.bin, "/res/zapret/bin");
    assert_eq!(launch.paths.winws, "/res/zapret/bin/winws.exe");
    let expected = expected_args(
        "1024-65535",
        "",
        "80,443,2053,2083,2087,2096,8443,1024-65535",
        "443,19294-19344,50000-50100",
    );
    assert_eq!(launch.args, expected);
    let joined = expected.join(" ");
    assert_eq!(
        launch.command,
        format!(
            "Start-Process -FilePath '/res/zapret/bin/winws.exe' -ArgumentList '{}' -Verb RunAs",
            joined
        )
    );
    assert_eq!(launch.shell_args.len(), 3);
    assert_eq!(launch.shell_args[2], launch.command);
}

#[test]
fn running_engine_is_seen_in_the_task_list() {
    let out = b"\r\nImage Name                     PID Session Name\r\n=============\r\nwinws.exe                     4242 Console\r\n";
    assert!(is_zapret_running(out));
    assert!(!is_zapret_running(b"INFO: No tasks are running which match the specified criteria.\r\n"));
    assert!(!is_zapret_running(b""));
    assert!(is_zapret_running(b"\xff\xfe winws.exe \x80"));
    assert!(!is_zapret_running(b"winws\xff.exe"));
}

#[test]
fn system_command_arguments() {
    assert_eq!(tcp_timestamps_args(), vec!["interface", "tcp", "set", "global", "timestamps=enabled"]);
    assert_eq!(stop_engine_args(), vec!["/C", "taskkill /F /IM winws.exe"]);
    assert_eq!(list_engine_args(), vec!["/C", "tasklist /FI \"IMAGENAME eq winws.exe\""]);
}

#[test]
fn run_list_files_carry_the_store_to_the_engine_paths() {
    let p = sample_paths();
    let mut store = ZapretLists::new();
    store.set_content(ListKind::ListGeneral, "discord.com\r\n".to_string());
    store.set_content(ListKind::IpsetAll, "1.2.3.0/24\r\n".to_string());
    let files = run_list_files(&p, &store);
    assert_eq!(files.len(), 7);
    for (f, k) in files.iter().zip(list_kinds()) {
        assert_eq!(f.kind, k);
        assert_eq!(f.path, p.list_path(k));
        assert_eq!(f.content, store.content(k));
    }
    assert_eq!(files[0].path, "/tmp/zl/list-general.txt");
    assert_eq!(files[0].content, "discord.com\r\n");
    assert_eq!(files[4].path, "/tmp/zl/ipset-all.txt");
    assert_eq!(files[4].content, "1.2.3.0/24\r\n");
    assert_eq!(files[6].content, "");
}
