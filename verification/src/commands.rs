use vstd::prelude::*;

use crate::database::{
    in_creation_order, lookup, missing_host_error_text, missing_host_message, no_table_message,
    duplicate_id_message, has_id, holds_uuid_id, random_failure_message, position_of, with_update, without_id, Database,
};
use crate::error::AppError;
use crate::remote_host::{
    is_uuid_v4_text, new_host, updated_host, CreateRemoteHostRequest, RemoteHost,
    UpdateRemoteHostRequest,
};
use crate::ssh_manager::{info_of, released, ActiveRemoteInfo, SshManager};
use crate::text::{trim, trimmed};

verus! {

/// `r` with its error turned into the error's message.
pub open spec fn as_text_result<T>(r: Result<T, AppError>, out: Result<T, String>) -> bool {
    match r {
        Ok(x) => out == Ok::<T, String>(x),
        Err(e) => out matches Err(m) && m@ == e.spec_message(),
    }
}

/// A result whose error is shown as its message.
fn to_text_result<T>(r: Result<T, AppError>) -> (out: Result<T, String>)
    ensures
        as_text_result(r, out),
{
    match r {
        Ok(x) => Ok(x),
        Err(e) => Err(e.message()),
    }
}

/// `out` is a failure whose message is `m`.
pub open spec fn fails_with_text<T>(out: Result<T, String>, m: Seq<char>) -> bool {
    out matches Err(t) && t@ == m
}

/// The saved hosts, by creation time.
pub fn list_remote_hosts(db: &Database) -> (out: Result<Vec<RemoteHost>, String>)
    ensures
        match db@ {
            None => fails_with_text(out, no_table_message()),
            Some(t) => out matches Ok(v) && in_creation_order(t, v@),
        },
{
    to_text_result(db.list_remote_hosts())
}

/// Saves a new host under a fresh random id, created at `created_at`.
pub fn create_remote_host(db: &mut Database, req: CreateRemoteHostRequest, created_at: i64) -> (out:
    Result<RemoteHost, String>)
    ensures
        match old(db)@ {
            None => final(db)@ == old(db)@ && (fails_with_text(out, no_table_message())
                || fails_with_text(out, random_failure_message())),
            Some(t) => match out {
                Ok(h) => h == new_host(h.id, req, created_at) && is_uuid_v4_text(h.id@)
                    && !has_id(t, h.id@) && final(db)@ == Some(t.push(h)),
                Err(m) => final(db)@ == old(db)@ && (m@ == random_failure_message()
                    || (m@ == duplicate_id_message() && holds_uuid_id(t))),
            },
        },
{
    to_text_result(db.create_remote_host(req, created_at))
}

/// Changes a saved host.
pub fn update_remote_host(db: &mut Database, req: UpdateRemoteHostRequest) -> (out: Result<
    RemoteHost,
    String,
>)
    ensures
        match old(db)@ {
            None => final(db)@ == old(db)@ && fails_with_text(out, no_table_message()),
            Some(t) => if has_id(t, req.id@) {
                out == Ok::<RemoteHost, String>(updated_host(t[position_of(t, req.id@)], req))
                    && final(db)@ == Some(with_update(t, req))
            } else {
                final(db)@ == old(db)@ && fails_with_text(out, missing_host_message(req.id@))
            },
        },
{
    to_text_result(db.update_remote_host(req))
}

/// Removes a saved host, first closing the active session where it is connected
/// to that host.
pub fn delete_remote_host<S>(db: &mut Database, ssh: &mut SshManager<S>, id: &str) -> (out: Result<
    (),
    String,
>)
    ensures
        final(ssh)@ == released(old(ssh)@, id@),
        match old(db)@ {
            None => final(db)@ == old(db)@ && fails_with_text(out, no_table_message()),
            Some(t) => out is Ok && final(db)@ == Some(without_id(t, id@)),
        },
{
    ssh.release_host(id);
    to_text_result(db.delete_remote_host(id))
}

/// The saved host to connect to, by id; fails where there is none.
pub fn remote_host_to_connect(db: &Database, id: &str) -> (out: Result<RemoteHost, String>)
    ensures
        match db@ {
            None => fails_with_text(out, no_table_message()),
            Some(t) => match lookup(t, id@) {
                Some(h) => out == Ok::<RemoteHost, String>(h),
                None => fails_with_text(out, missing_host_message(id@)),
            },
        },
{
    match db.get_remote_host(id) {
        Err(e) => Err(e.message()),
        Ok(None) => Err(missing_host_error_text(id)),
        Ok(Some(h)) => Ok(h),
    }
}

/// Closes the active session.
pub fn disconnect_remote_host<S>(ssh: &mut SshManager<S>) -> (out: Result<(), String>)
    ensures
        out is Ok,
        final(ssh)@ is None,
{
    ssh.disconnect();
    Ok(())
}

/// What is shown of the active session, if any.
pub fn get_active_remote_host<S>(ssh: &SshManager<S>) -> (out: Result<Option<ActiveRemoteInfo>, String>)
    ensures
        out == Ok::<Option<ActiveRemoteInfo>, String>(info_of(ssh@)),
{
    Ok(ssh.get_active_info())
}

/// The unsaved host that a connection test logs in to.
pub fn test_remote_connection_host(host: String, port: u16, username: String, password: String) -> (h:
    RemoteHost)
    ensures
        h.id@ == "test"@,
        h.name@ == "test"@,
        h.host == host,
        h.port == port,
        h.username == username,
        h.password == password,
        h.created_at == 0,
{
    RemoteHost {
        id: "test".to_owned(),
        name: "test".to_owned(),
        host,
        port,
        username,
        password,
        created_at: 0,
    }
}

/// The report of a connection test: the trimmed output of `uname -a`, or
/// `connected` where that command failed.
pub fn test_remote_connection_report(uname_output: Result<String, AppError>) -> (report: String)
    ensures
        report@ == trim(
            match uname_output {
                Ok(out) => out@,
                Err(_) => "connected"@,
            },
        ),
{
    match uname_output {
        Ok(out) => trimmed(out.as_str()),
        Err(_) => trimmed("connected"),
    }
}

} // verus!
