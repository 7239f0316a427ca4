use vstd::prelude::*;

use crate::error::{fails_with, AppError, ErrorView};
use crate::paths::{opt_view, join_paths, local_home_dir, path_join, path_strip_prefix, strip_path_prefix};
use crate::remote_host::RemoteHost;
use crate::text::{decimal, decimal_string, trim};

verus! {

/// What the application shows of the machine it is connected to.
#[derive(Debug, Clone)]
pub struct ActiveRemoteInfo {
    pub host_id: String,
    pub name: String,
    pub host: String,
    pub username: String,
    pub remote_home: String,
}

impl ActiveRemoteInfo {
    /// A field-for-field copy.
    pub fn duplicate(&self) -> (i: ActiveRemoteInfo)
        ensures
            i == *self,
    {
        ActiveRemoteInfo {
            host_id: self.host_id.clone(),
            name: self.name.clone(),
            host: self.host.clone(),
            username: self.username.clone(),
            remote_home: self.remote_home.clone(),
        }
    }
}

/// The `host:port` address that a connection to `host` dials.
pub open spec fn address_of(host: RemoteHost) -> Seq<char> {
    host.host@ + ":"@ + decimal(host.port as nat)
}

/// The message of a login that the server did not accept.
pub open spec fn auth_failed_message() -> Seq<char> {
    "SSH 认证失败：用户名或密码错误"@
}

/// The message of a file operation while no machine is connected.
pub open spec fn not_connected_message() -> Seq<char> {
    "未连接到远程主机"@
}

/// The remote home directory: the trimmed output of `echo $HOME` on the remote
/// machine, or `/home/<username>` where that command failed.
pub open spec fn remote_home_from(probe: Result<String, AppError>, username: Seq<char>) -> Seq<char> {
    match probe {
        Ok(out) => trim(out@),
        Err(_) => "/home/"@ + username,
    }
}

/// The local home directory, `/tmp` where it cannot be found.
pub open spec fn home_or_tmp(home: Option<Seq<char>>) -> Seq<char> {
    match home {
        Some(h) => h,
        None => "/tmp"@,
    }
}

/// The remote path of a local path: a path under the local home is moved under
/// the remote home; any other path stays as it is.
pub open spec fn rebase(local: Seq<char>, local_home: Seq<char>, remote_home: Seq<char>) -> Seq<char> {
    match path_strip_prefix(local, local_home) {
        Some(rest) => path_join(remote_home, rest),
        None => local,
    }
}

/// The address `host:port` to dial for `host`.
pub fn connect_address(host: &RemoteHost) -> (a: String)
    ensures
        a@ == address_of(*host),
{
    let mut a = host.host.clone();
    a.append(":");
    let port = decimal_string(host.port);
    a.append(port.as_str());
    a
}

/// The remote path of `local_path`, given the local home directory (`None` where
/// it could not be found, which makes it `/tmp`) and the remote one.
pub fn remote_path_for(local_path: &str, local_home: Option<String>, remote_home: &str) -> (p: String)
    ensures
        p@ == rebase(
            local_path@,
            home_or_tmp(opt_view(local_home)),
            remote_home@,
        ),
{
    let home = match local_home {
        Some(h) => h,
        None => "/tmp".to_owned(),
    };
    match strip_path_prefix(local_path, home.as_str()) {
        Some(rest) => join_paths(remote_home, rest.as_str()),
        None => local_path.to_owned(),
    }
}

/// An open, logged-in connection to a remote machine, with what is shown of it.
/// `S` is the transport handle that performs the remote work.
pub struct SshSession<S> {
    pub info: ActiveRemoteInfo,
    pub session: S,
}

impl<S> SshSession<S> {
    /// The session for `host` over the logged-in transport `session`, with the
    /// remote home directory `remote_home` (what the connect flow found).
    pub fn new(host: &RemoteHost, session: S, remote_home: String) -> (s: SshSession<S>)
        ensures
            s.info.host_id == host.id,
            s.info.name == host.name,
            s.info.host == host.host,
            s.info.username == host.username,
            s.info.remote_home == remote_home,
            s.session == session,
    {
        let info = ActiveRemoteInfo {
            host_id: host.id.clone(),
            name: host.name.clone(),
            host: host.host.clone(),
            username: host.username.clone(),
            remote_home: remote_home,
        };
        SshSession { info, session }
    }

    /// The transport handle of this session.
    pub fn session(&self) -> (s: &S)
        ensures
            *s == self.session,
    {
        &self.session
    }

    /// The remote path of `local_path`: under the remote home where `local_path` is
    /// under the local home (`/tmp` where that cannot be found), else unchanged.
    pub fn to_remote_path(&self, local_path: &str) -> (p: String)
        ensures
            exists|home: Option<Seq<char>>|
                (home matches Some(h) ==> h.len() > 0)
                && p@ == rebase(local_path@, home_or_tmp(home), self.info.remote_home@),
    {
        let home = local_home_dir();
        let ghost h = opt_view(home);
        let p = remote_path_for(local_path, home, self.info.remote_home.as_str());
        assert(p@ == rebase(local_path@, home_or_tmp(h), self.info.remote_home@));
        p
    }
}

/// The single active SSH session of the application, if any.
pub struct SshManager<S> {
    active: Option<SshSession<S>>,
}

impl<S> View for SshManager<S> {
    type V = Option<SshSession<S>>;

    closed spec fn view(&self) -> Option<SshSession<S>> {
        self.active
    }
}

/// What is shown of the active session, if any.
pub open spec fn info_of<S>(active: Option<SshSession<S>>) -> Option<ActiveRemoteInfo> {
    match active {
        Some(s) => Some(s.info),
        None => None,
    }
}

/// The active session after the host with the id `id` has been let go: the
/// session is closed where it is connected to that host.
pub open spec fn released<S>(active: Option<SshSession<S>>, id: Seq<char>) -> Option<SshSession<S>> {
    match active {
        Some(s) => if s.info.host_id@ == id { None } else { Some(s) },
        None => None,
    }
}

impl<S> SshManager<S> {
    /// A manager with no active session.
    pub fn new() -> (m: SshManager<S>)
        ensures
            m@ is None,
    {
        SshManager { active: None }
    }

    /// Makes `session` the active session (closing any earlier one) and returns
    /// what is shown of it.
    pub fn connect(&mut self, session: SshSession<S>) -> (info: ActiveRemoteInfo)
        ensures
            info == session.info,
            final(self)@ == Some(session),
    {
        let info = session.info.duplicate();
        self.active = Some(session);
        info
    }

    /// Closes the active session, if any.
    pub fn disconnect(&mut self)
        ensures
            final(self)@ is None,
    {
        self.active = None;
    }

    /// What is shown of the active session, if any.
    pub fn get_active_info(&self) -> (r: Option<ActiveRemoteInfo>)
        ensures
            r == info_of(self@),
    {
        match &self.active {
            Some(s) => Some(s.info.duplicate()),
            None => None,
        }
    }

    /// Whether a session is active.
    pub fn is_connected(&self) -> (b: bool)
        ensures
            b == self@ is Some,
    {
        self.active.is_some()
    }

    /// The active session, for remote work; fails while none is active.
    pub fn active_session(&self) -> (r: Result<&SshSession<S>, AppError>)
        ensures
            match self@ {
                Some(s) => r matches Ok(a) && *a == s,
                None => fails_with(r, ErrorView::Config(not_connected_message())),
            },
    {
        match &self.active {
            Some(s) => Ok(s),
            None => Err(AppError::Config("未连接到远程主机".to_owned())),
        }
    }

    /// The remote path of `local_path` on the active session; `None` while no
    /// session is active.
    pub fn to_remote_path(&self, local_path: &str) -> (r: Option<String>)
        ensures
            match self@ {
                None => r is None,
                Some(s) => r matches Some(p) && exists|home: Option<Seq<char>>|
                    (home matches Some(h) ==> h.len() > 0)
                    && p@ == rebase(local_path@, home_or_tmp(home), s.info.remote_home@),
            },
    {
        match &self.active {
            Some(s) => Some(s.to_remote_path(local_path)),
            None => None,
        }
    }

    /// Closes the active session where it is connected to the host with the id `id`.
    pub fn release_host(&mut self, id: &str)
        ensures
            final(self)@ == released(old(self)@, id@),
    {
        let key = id.to_owned();
        let connected_to_it = match &self.active {
            Some(s) => s.info.host_id == key,
            None => false,
        };
        if connected_to_it {
            self.disconnect();
        }
    }
}

/// After a connect, the manager shows what the new session shows; after a
/// disconnect it shows nothing.
pub proof fn law_connect_then_info<S>(session: SshSession<S>)
    ensures
        info_of(Some(session)) == Some(session.info),
        info_of::<S>(None) is None,
{
}

/// After a host has been let go, no active session refers to it, and a session
/// on another host stays.
pub proof fn law_release_host<S>(active: Option<SshSession<S>>, id: Seq<char>)
    ensures
        released(active, id) matches Some(s) ==> s.info.host_id@ != id,
        (active matches Some(s) && s.info.host_id@ != id) ==> released(active, id) == active,
        released(released(active, id), id) == released(active, id),
{
}

} // verus!
