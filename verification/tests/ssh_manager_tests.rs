use remote_hosts::error::AppError;
use remote_hosts::paths::dir_entry_names;
use remote_hosts::remote_host::RemoteHost;
use remote_hosts::ssh_manager::{connect_address, remote_path_for, SshManager, SshSession};
use remote_hosts::text::{decimal_string, trimmed};

fn host(id: &str, port: u16) -> RemoteHost {
    RemoteHost {
        id: id.to_string(),
        name: format!("name-{}", id),
        host: "example.org".to_string(),
        port,
        username: "alice".to_string(),
        password: "pw".to_string(),
        created_at: 0,
    }
}

#[test]
fn address_is_host_colon_port() {
    assert_eq!(connect_address(&host("a", 22)), "example.org:22");
    assert_eq!(connect_address(&host("a", 0)), "example.org:0");
    assert_eq!(connect_address(&host("a", 65535)), "example.org:65535");
}

#[test]
fn decimal_text() {
    assert_eq!(decimal_string(0), "0");
    assert_eq!(decimal_string(7), "7");
    assert_eq!(decimal_string(10), "10");
    assert_eq!(decimal_string(2222), "2222");
    assert_eq!(decimal_string(u16::MAX), "65535");
}

#[test]
fn trimming_matches_str_trim() {
    for s in ["  /home/bob\n", "x", "", "   ", "\u{3000}a b\u{a0}\u{2028}", "\t\r\nmid dle \u{85}", "\u{200b}z"] {
        assert_eq!(trimmed(s), s.trim(), "on {:?}", s);
    }
}

#[test]
fn new_session_shows_the_host() {
    let s = SshSession::new(&host("h1", 22), 5u32, "/home/bob".to_string());
    assert_eq!(s.info.remote_home, "/home/bob");
    assert_eq!(s.info.host_id, "h1");
    assert_eq!(s.info.name, "name-h1");
    assert_eq!(s.info.username, "alice");
    assert_eq!(*s.session(), 5u32);
    assert_eq!(s.session, 5u32);
}

#[test]
fn manager_connect_disconnect() {
    let mut m: SshManager<u8> = SshManager::new();
    assert!(!m.is_connected());
    assert!(m.get_active_info().is_none());
    match m.active_session() {
        Err(AppError::Config(msg)) => assert_eq!(msg, "未连接到远程主机"),
        _ => panic!("expected not connected"),
    }
    assert!(m.to_remote_path("/x").is_none());
    let info = m.connect(SshSession::new(&host("h1", 22), 1, "/home/alice".to_string()));
    assert_eq!(info.host_id, "h1");
    assert!(m.is_connected());
    assert_eq!(m.get_active_info().unwrap().remote_home, "/home/alice");
    assert_eq!(*m.active_session().unwrap().session(), 1);
    m.connect(SshSession::new(&host("h2", 22), 2, "/root".to_string()));
    assert_eq!(m.get_active_info().unwrap().host_id, "h2");
    m.disconnect();
    assert!(!m.is_connected());
}

#[test]
fn releasing_a_host_closes_only_its_session() {
    let mut m: SshManager<()> = SshManager::new();
    m.connect(SshSession::new(&host("h1", 22), (), "/h".to_string()));
    m.release_host("other");
    assert!(m.is_connected());
    m.release_host("h1");
    assert!(!m.is_connected());
    m.release_host("h1");
    assert!(!m.is_connected());
}

#[test]
fn remote_paths() {
    let home = Some("/home/alice".to_string());
    assert_eq!(remote_path_for("/home/alice/.ssh/config", home.clone(), "/root"), "/root/.ssh/config");
    assert_eq!(remote_path_for("/etc/hosts", home.clone(), "/root"), "/etc/hosts");
    assert_eq!(remote_path_for("/home/alicex/f", home.clone(), "/root"), "/home/alicex/f");
    assert_eq!(remote_path_for("/tmp/a/b", None, "/home/r"), "/home/r/a/b");
    assert_eq!(remote_path_for("/home/alice", home, "/root"), "/root/");
}

#[test]
fn session_remote_path_leaves_relative_paths() {
    let s = SshSession::new(&host("h", 22), (), "/remote".to_string());
    assert_eq!(s.to_remote_path("relative/file.txt"), "relative/file.txt");
    let mut m: SshManager<()> = SshManager::new();
    m.connect(s);
    assert_eq!(m.to_remote_path("relative/file.txt").unwrap(), "relative/file.txt");
}

#[test]
fn entry_names_skip_paths_without_a_name() {
    let paths = vec!["/a/b.txt".to_string(), "/a/..".to_string(), "/a/dir/".to_string(), "/".to_string()];
    assert_eq!(dir_entry_names(&paths), vec!["b.txt".to_string(), "dir".to_string()]);
}
