use remote_hosts::commands::{
    create_remote_host, delete_remote_host, disconnect_remote_host, get_active_remote_host,
    list_remote_hosts, remote_host_to_connect, test_remote_connection_host,
    test_remote_connection_report, update_remote_host,
};
use remote_hosts::database::Database;
use remote_hosts::error::AppError;
use remote_hosts::remote_host::{CreateRemoteHostRequest, UpdateRemoteHostRequest};
use remote_hosts::ssh_manager::{SshManager, SshSession};

fn req(name: &str) -> CreateRemoteHostRequest {
    CreateRemoteHostRequest {
        name: name.to_string(),
        host: "10.1.1.1".to_string(),
        port: None,
        username: "u".to_string(),
        password: "p".to_string(),
    }
}

#[test]
fn commands_report_error_messages() {
    let mut db = Database::new();
    assert_eq!(list_remote_hosts(&db).unwrap_err(), "no such table: remote_hosts");
    db.ensure_remote_hosts_table().unwrap();
    assert_eq!(remote_host_to_connect(&db, "abc").unwrap_err(), "远程主机 abc 不存在");
    let err = update_remote_host(
        &mut db,
        UpdateRemoteHostRequest {
            id: "abc".to_string(),
            name: "n".to_string(),
            host: "h".to_string(),
            port: Some(1),
            username: "u".to_string(),
            password: "p".to_string(),
        },
    )
    .unwrap_err();
    assert_eq!(err, "远程主机 abc 不存在");
}

#[test]
fn create_list_and_connect_target() {
    let mut db = Database::new();
    db.ensure_remote_hosts_table().unwrap();
    let h = create_remote_host(&mut db, req("first"), 10).unwrap();
    let listed = list_remote_hosts(&db).unwrap();
    assert_eq!(listed.len(), 1);
    assert_eq!(listed[0].id, h.id);
    let target = remote_host_to_connect(&db, &h.id).unwrap();
    assert_eq!(target.name, "first");
}

#[test]
fn deleting_the_connected_host_disconnects() {
    let mut db = Database::new();
    db.ensure_remote_hosts_table().unwrap();
    let h = create_remote_host(&mut db, req("srv"), 1).unwrap();
    let other = create_remote_host(&mut db, req("other"), 2).unwrap();
    let mut ssh: SshManager<()> = SshManager::new();
    ssh.connect(SshSession::new(&h, (), "/home/u".to_string()));
    delete_remote_host(&mut db, &mut ssh, &other.id).unwrap();
    assert!(ssh.is_connected());
    delete_remote_host(&mut db, &mut ssh, &h.id).unwrap();
    assert!(!ssh.is_connected());
    assert!(list_remote_hosts(&db).unwrap().is_empty());
    assert!(get_active_remote_host(&ssh).unwrap().is_none());
}

#[test]
fn disconnect_command_always_succeeds() {
    let mut ssh: SshManager<u8> = SshManager::new();
    assert!(disconnect_remote_host(&mut ssh).is_ok());
    ssh.connect(SshSession::new(
        &test_remote_connection_host("h".to_string(), 22, "u".to_string(), "p".to_string()),
        0,
        "/home/u".to_string(),
    ));
    assert_eq!(get_active_remote_host(&ssh).unwrap().unwrap().host_id, "test");
    assert!(disconnect_remote_host(&mut ssh).is_ok());
    assert!(!ssh.is_connected());
}

#[test]
fn connection_test_host_and_report() {
    let h = test_remote_connection_host("1.2.3.4".to_string(), 2022, "root".to_string(), "pw".to_string());
    assert_eq!(h.id, "test");
    assert_eq!(h.name, "test");
    assert_eq!(h.port, 2022);
    assert_eq!(h.created_at, 0);
    assert_eq!(test_remote_connection_report(Ok("Linux box 6.1 x86_64\n".to_string())), "Linux box 6.1 x86_64");
    assert_eq!(test_remote_connection_report(Err(AppError::Config("no".to_string()))), "connected");
}

#[test]
fn error_message_is_its_text() {
    assert_eq!(AppError::Database("d".to_string()).message(), "d");
    assert_eq!(AppError::Config("c".to_string()).duplicate().message(), "c");
}
