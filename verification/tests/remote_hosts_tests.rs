use remote_hosts::database::Database;
use remote_hosts::error::AppError;
use remote_hosts::remote_host::{CreateRemoteHostRequest, RemoteHost, UpdateRemoteHostRequest};

fn request(name: &str, port: Option<u16>) -> CreateRemoteHostRequest {
    CreateRemoteHostRequest {
        name: name.to_string(),
        host: format!("{}.example.com", name),
        port,
        username: "alice".to_string(),
        password: "SECRET-REDACTED".to_string(),
    }
}

fn ready_database() -> Database {
    let mut db = Database::new();
    db.ensure_remote_hosts_table().unwrap();
    db
}

fn database_message(r: Result<impl std::fmt::Debug, AppError>) -> String {
    match r {
        Err(AppError::Database(m)) => m,
        other => panic!("expected a database error, got {:?}", other),
    }
}

#[test]
fn table_must_exist_before_use() {
    let mut db = Database::new();
    assert_eq!(database_message(db.list_remote_hosts()), "no such table: remote_hosts");
    assert_eq!(database_message(db.get_remote_host("x")), "no such table: remote_hosts");
    assert_eq!(database_message(db.create_remote_host(request("a", None), 1)), "no such table: remote_hosts");
    assert_eq!(database_message(db.delete_remote_host("x")), "no such table: remote_hosts");
}

#[test]
fn ensuring_the_table_twice_keeps_its_rows() {
    let mut db = ready_database();
    db.create_remote_host_with_id("h1".to_string(), request("a", None), 5).unwrap();
    db.ensure_remote_hosts_table().unwrap();
    db.ensure_remote_hosts_table().unwrap();
    let hosts = db.list_remote_hosts().unwrap();
    assert_eq!(hosts.len(), 1);
    assert_eq!(hosts[0].id, "h1");
}

#[test]
fn create_defaults_the_port_and_reads_back() {
    let mut db = ready_database();
    let h = db.create_remote_host(request("box", None), 1_700_000_000).unwrap();
    assert_eq!(h.port, 22);
    assert_eq!(h.name, "box");
    assert_eq!(h.host, "box.example.com");
    assert_eq!(h.created_at, 1_700_000_000);
    assert_eq!(h.id.len(), 36);
    let bytes: Vec<char> = h.id.chars().collect();
    for (i, c) in bytes.iter().enumerate() {
        if i == 8 || i == 13 || i == 18 || i == 23 {
            assert_eq!(*c, '-');
        } else {
            assert!(c.is_ascii_hexdigit() && !c.is_ascii_uppercase());
        }
    }
    assert_eq!(bytes[14], '4');
    let got = db.get_remote_host(&h.id).unwrap().unwrap();
    assert_eq!(got.id, h.id);
    assert_eq!(got.port, 22);
    let other = db.create_remote_host(request("box2", Some(2222)), 1).unwrap();
    assert_eq!(other.port, 2222);
    assert_ne!(other.id, h.id);
}

#[test]
fn create_with_a_taken_id_fails() {
    let mut db = ready_database();
    db.create_remote_host_with_id("same".to_string(), request("a", None), 1).unwrap();
    let r = db.create_remote_host_with_id("same".to_string(), request("b", None), 2);
    assert_eq!(database_message(r), "UNIQUE constraint failed: remote_hosts.id");
    assert_eq!(db.list_remote_hosts().unwrap().len(), 1);
    assert_eq!(db.get_remote_host("same").unwrap().unwrap().name, "a");
}

#[test]
fn listing_is_by_creation_time_then_by_insertion() {
    let mut db = ready_database();
    db.create_remote_host_with_id("c".to_string(), request("c", None), 30).unwrap();
    db.create_remote_host_with_id("a1".to_string(), request("a1", None), 10).unwrap();
    db.create_remote_host_with_id("b".to_string(), request("b", None), 20).unwrap();
    db.create_remote_host_with_id("a2".to_string(), request("a2", None), 10).unwrap();
    let ids: Vec<String> = db.list_remote_hosts().unwrap().into_iter().map(|h| h.id).collect();
    assert_eq!(ids, vec!["a1", "a2", "b", "c"]);
}

#[test]
fn get_unknown_id_is_none() {
    let db = ready_database();
    assert!(db.get_remote_host("nope").unwrap().is_none());
}

#[test]
fn update_unknown_id_fails_with_config_error() {
    let mut db = ready_database();
    let r = db.update_remote_host(UpdateRemoteHostRequest {
        id: "ghost".to_string(),
        name: "n".to_string(),
        host: "h".to_string(),
        port: None,
        username: "u".to_string(),
        password: "p".to_string(),
    });
    match r {
        Err(AppError::Config(m)) => assert_eq!(m, "远程主机 ghost 不存在"),
        other => panic!("unexpected {:?}", other),
    }
}

#[test]
fn update_keeps_creation_time_and_others() {
    let mut db = ready_database();
    db.create_remote_host_with_id("one".to_string(), request("one", Some(2200)), 100).unwrap();
    db.create_remote_host_with_id("two".to_string(), request("two", None), 200).unwrap();
    let h = db
        .update_remote_host(UpdateRemoteHostRequest {
            id: "one".to_string(),
            name: "renamed".to_string(),
            host: "10.0.0.1".to_string(),
            port: None,
            username: "bob".to_string(),
            password: "pw".to_string(),
        })
        .unwrap();
    assert_eq!(h.created_at, 100);
    assert_eq!(h.port, 22);
    assert_eq!(h.name, "renamed");
    let got = db.get_remote_host("one").unwrap().unwrap();
    assert_eq!(got.host, "10.0.0.1");
    assert_eq!(got.created_at, 100);
    assert_eq!(got.username, "bob");
    let two = db.get_remote_host("two").unwrap().unwrap();
    assert_eq!(two.name, "two");
    assert_eq!(db.list_remote_hosts().unwrap().len(), 2);
}

#[test]
fn delete_then_get_is_none_and_delete_is_idempotent() {
    let mut db = ready_database();
    db.create_remote_host_with_id("x".to_string(), request("x", None), 1).unwrap();
    db.create_remote_host_with_id("y".to_string(), request("y", None), 2).unwrap();
    db.delete_remote_host("x").unwrap();
    assert!(db.get_remote_host("x").unwrap().is_none());
    db.delete_remote_host("x").unwrap();
    let ids: Vec<String> = db.list_remote_hosts().unwrap().into_iter().map(|h| h.id).collect();
    assert_eq!(ids, vec!["y"]);
}

#[test]
fn create_then_delete_restores_the_table() {
    let mut db = ready_database();
    db.create_remote_host_with_id("keep".to_string(), request("keep", None), 1).unwrap();
    let h = db.create_remote_host(request("temp", None), 2).unwrap();
    db.delete_remote_host(&h.id).unwrap();
    let ids: Vec<String> = db.list_remote_hosts().unwrap().into_iter().map(|h| h.id).collect();
    assert_eq!(ids, vec!["keep"]);
}

#[test]
fn row_port_keeps_low_sixteen_bits() {
    let row = |p: i64| {
        RemoteHost::from_row(
            "i".to_string(),
            "n".to_string(),
            "h".to_string(),
            p,
            "u".to_string(),
            "p".to_string(),
            7,
        )
    };
    assert_eq!(row(22).port, 22);
    assert_eq!(row(65535).port, 65535);
    assert_eq!(row(65536 + 22).port, 22);
    assert_eq!(row(-1).port, 65535);
    assert_eq!(row(i64::MIN).port, 0);
    assert_eq!(row(8022).created_at, 7);
}

#[test]
fn from_request_sets_every_field() {
    let h = RemoteHost::from_request("id-1".to_string(), request("srv", Some(443)), 99);
    assert_eq!(h.id, "id-1");
    assert_eq!(h.port, 443);
    assert_eq!(h.username, "alice");
    assert_eq!(h.created_at, 99);
    let copy = h.duplicate();
    assert_eq!(copy.host, h.host);
    assert_eq!(copy.password, h.password);
}

#[test]
fn create_on_an_empty_table_defaults_the_port() {
    let mut db = ready_database();
    let h = db
        .create_remote_host(
            CreateRemoteHostRequest {
                name: "dev".to_string(),
                host: "192.168.1.10".to_string(),
                port: None,
                username: "root".to_string(),
                password: "pw".to_string(),
            },
            0,
        )
        .unwrap();
    assert_eq!((h.name.as_str(), h.host.as_str(), h.port), ("dev", "192.168.1.10", 22));
    assert_eq!((h.username.as_str(), h.password.as_str()), ("root", "pw"));
    assert_eq!(db.get_remote_host(&h.id).unwrap().unwrap().port, 22);
}

#[test]
fn create_on_an_empty_table_keeps_a_given_port() {
    let mut db = ready_database();
    let h = db
        .create_remote_host(
            CreateRemoteHostRequest {
                name: "lab".to_string(),
                host: "lab.local".to_string(),
                port: Some(2222),
                username: "bob".to_string(),
                password: "s3".to_string(),
            },
            0,
        )
        .unwrap();
    assert_eq!((h.name.as_str(), h.host.as_str(), h.port), ("lab", "lab.local", 2222));
    assert_eq!((h.username.as_str(), h.password.as_str()), ("bob", "s3"));
}

#[test]
fn created_host_is_listed_once_after_other_changes() {
    let mut db = ready_database();
    let h = db.create_remote_host(request("kept", Some(2022)), 50).unwrap();
    db.create_remote_host_with_id("o1".to_string(), request("o1", None), 10).unwrap();
    db.create_remote_host_with_id("o2".to_string(), request("o2", None), 60).unwrap();
    db.update_remote_host(UpdateRemoteHostRequest {
        id: "o1".to_string(),
        name: "o1b".to_string(),
        host: "h".to_string(),
        port: None,
        username: "u".to_string(),
        password: "p".to_string(),
    })
    .unwrap();
    db.delete_remote_host("o2").unwrap();
    let listed = db.list_remote_hosts().unwrap();
    let matches: Vec<&RemoteHost> = listed.iter().filter(|x| x.id == h.id).collect();
    assert_eq!(matches.len(), 1);
    let k = matches[0];
    assert_eq!((k.name.as_str(), k.port, k.created_at), ("kept", 2022, 50));
    assert_eq!(listed.iter().map(|x| x.id.clone()).collect::<Vec<_>>(), vec!["o1".to_string(), h.id.clone()]);
}

#[test]
fn ids_come_from_the_random_bytes() {
    let mut db = ready_database();
    let h = db.create_remote_host_from_random(Some([0u8; 16]), request("zero", None), 1).unwrap();
    assert_eq!(h.id, "00000000-0000-4000-8000-000000000000");
    let g = db.create_remote_host_from_random(Some([0xffu8; 16]), request("ones", None), 2).unwrap();
    assert_eq!(g.id, "ffffffff-ffff-4fff-bfff-ffffffffffff");
    let again = db.create_remote_host_from_random(Some([0u8; 16]), request("clash", None), 3);
    assert_eq!(database_message(again), "UNIQUE constraint failed: remote_hosts.id");
}

#[test]
fn failed_random_source_is_reported() {
    let mut db = ready_database();
    let r = db.create_remote_host_from_random(None, request("x", None), 1);
    assert_eq!(database_message(r), "could not retrieve random bytes for uuid");
    assert!(db.list_remote_hosts().unwrap().is_empty());
    let mut no_table = Database::new();
    let r = no_table.create_remote_host_from_random(None, request("x", None), 1);
    assert_eq!(database_message(r), "could not retrieve random bytes for uuid");
}
