use vstd::prelude::*;

verus! {

/// The SSH port used when a request names none.
pub const DEFAULT_SSH_PORT: u16 = 22;

/// A saved remote machine: where it is and how to log in to it.
#[derive(Debug, Clone)]
pub struct RemoteHost {
    pub id: String,
    pub name: String,
    pub host: String,
    pub port: u16,
    pub username: String,
    /// Kept in clear text: the table is local and for personal use.
    pub password: String,
    pub created_at: i64,
}

/// What a caller gives to save a new remote machine.
#[derive(Debug, Clone)]
pub struct CreateRemoteHostRequest {
    pub name: String,
    pub host: String,
    pub port: Option<u16>,
    pub username: String,
    pub password: String,
}

/// What a caller gives to change a saved remote machine.
#[derive(Debug, Clone)]
pub struct UpdateRemoteHostRequest {
    pub id: String,
    pub name: String,
    pub host: String,
    pub port: Option<u16>,
    pub username: String,
    pub password: String,
}

/// The port of a request, 22 where it names none.
pub open spec fn resolve_port(port: Option<u16>) -> u16 {
    match port {
        Some(p) => p,
        None => DEFAULT_SSH_PORT,
    }
}

/// The port read back from the table's integer column: its low 16 bits.
pub open spec fn port_from_column(value: i64) -> u16 {
    (value % 65536) as u16
}

/// The host that a create request saves under `id` at time `created_at`.
pub open spec fn new_host(id: String, req: CreateRemoteHostRequest, created_at: i64) -> RemoteHost {
    RemoteHost {
        id: id,
        name: req.name,
        host: req.host,
        port: resolve_port(req.port),
        username: req.username,
        password: req.password,
        created_at: created_at,
    }
}

/// The host that an update request makes of `old`: every field from the request,
/// the creation time kept.
pub open spec fn updated_host(old: RemoteHost, req: UpdateRemoteHostRequest) -> RemoteHost {
    RemoteHost {
        id: req.id,
        name: req.name,
        host: req.host,
        port: resolve_port(req.port),
        username: req.username,
        password: req.password,
        created_at: old.created_at,
    }
}

pub open spec fn is_lower_hex(c: char) -> bool {
    ('0' <= c <= '9') || ('a' <= c <= 'f')
}

/// The hyphenated lower-case text of a random (version 4, RFC 4122 variant) UUID.
pub open spec fn is_uuid_v4_text(s: Seq<char>) -> bool {
    &&& s.len() == 36
    &&& forall|i: int|
        0 <= i < 36 ==> if i == 8 || i == 13 || i == 18 || i == 23 {
            s[i] == '-'
        } else {
            is_lower_hex(#[trigger] s[i])
        }
    &&& s[14] == '4'
    &&& (s[19] == '8' || s[19] == '9' || s[19] == 'a' || s[19] == 'b')
}

/// The `Display` text of `uuid::Builder::from_random_bytes(bytes).into_uuid()`.
pub uninterp spec fn uuid_v4_text(bytes: Seq<u8>) -> Seq<char>;

/// `getrandom::fill` on a 16-byte buffer: random bytes from the operating system,
/// or `None` where the system source reports a failure. The bytes are random, so
/// nothing is stated of them.
#[verifier::external_body]
pub(crate) fn random_uuid_bytes() -> (r: Option<[u8; 16]>) {
    let mut bytes = [0u8; 16];
    match getrandom::fill(&mut bytes) {
        Ok(()) => Some(bytes),
        Err(_) => None,
    }
}

/// `uuid::Builder::from_random_bytes(bytes).into_uuid()` and its `Display` text.
/// The builder sets the version nibble to 4 and the variant bits to `10`; the text
/// is the lower-case hyphenated form, so it is 32 hex digits in groups 8-4-4-4-12
/// with the digit 4 at index 14 and one of 8, 9, a, b at index 19.
#[verifier::external_body]
pub(crate) fn uuid_text_from_random_bytes(bytes: [u8; 16]) -> (id: String)
    ensures
        id@ == uuid_v4_text(bytes@),
        is_uuid_v4_text(id@),
{
    uuid::Builder::from_random_bytes(bytes).into_uuid().to_string()
}

impl RemoteHost {
    /// A field-for-field copy.
    pub fn duplicate(&self) -> (h: RemoteHost)
        ensures
            h == *self,
    {
        RemoteHost {
            id: self.id.clone(),
            name: self.name.clone(),
            host: self.host.clone(),
            port: self.port,
            username: self.username.clone(),
            password: self.password.clone(),
            created_at: self.created_at,
        }
    }

    /// A host as read from a row of the table, whose port column is an integer
    /// that is cut to its low 16 bits.
    pub fn from_row(
        id: String,
        name: String,
        host: String,
        port: i64,
        username: String,
        password: String,
        created_at: i64,
    ) -> (h: RemoteHost)
        ensures
            h == (RemoteHost {
                id: id,
                name: name,
                host: host,
                port: port_from_column(port),
                username: username,
                password: password,
                created_at: created_at,
            }),
    {
        let low: u16 = match port.checked_rem_euclid(65536) {
            Some(r) => r as u16,
            None => 0,
        };
        RemoteHost { id, name, host, port: low, username, password, created_at }
    }

    /// The host that a create request saves under `id` at time `created_at`.
    pub fn from_request(id: String, req: CreateRemoteHostRequest, created_at: i64) -> (h: RemoteHost)
        ensures
            h == new_host(id, req, created_at),
    {
        RemoteHost {
            id: id,
            name: req.name,
            host: req.host,
            port: req.port.unwrap_or(DEFAULT_SSH_PORT),
            username: req.username,
            password: req.password,
            created_at: created_at,
        }
    }
}

/// A port written to the table's integer column reads back unchanged.
pub proof fn law_port_column_round_trip(p: u16)
    ensures
        port_from_column(p as i64) == p,
{
}

/// A request that names no port saves the host with port 22; one that names a port
/// saves that port.
pub proof fn law_port_default(id: String, req: CreateRemoteHostRequest, created_at: i64)
    ensures
        req.port is None ==> new_host(id, req, created_at).port == 22,
        req.port matches Some(p) ==> new_host(id, req, created_at).port == p,
{
}

/// A created host takes every field from its request and its id and creation time
/// from the call; the port is the request's, or 22 where it names none.
pub proof fn law_new_host_fields(id: String, req: CreateRemoteHostRequest, created_at: i64)
    ensures
        new_host(id, req, created_at).id == id,
        new_host(id, req, created_at).name == req.name,
        new_host(id, req, created_at).host == req.host,
        new_host(id, req, created_at).username == req.username,
        new_host(id, req, created_at).password == req.password,
        new_host(id, req, created_at).created_at == created_at,
        req.port matches Some(p) ==> new_host(id, req, created_at).port == p,
        req.port is None ==> new_host(id, req, created_at).port == 22,
{
}

/// An updated host takes its id, name, address, user name and password from the
/// request, its port from the request (22 where it names none), and keeps only
/// its creation time.
pub proof fn law_updated_host_fields(old: RemoteHost, req: UpdateRemoteHostRequest)
    ensures
        updated_host(old, req).id == req.id,
        updated_host(old, req).name == req.name,
        updated_host(old, req).host == req.host,
        updated_host(old, req).username == req.username,
        updated_host(old, req).password == req.password,
        updated_host(old, req).created_at == old.created_at,
        req.port matches Some(p) ==> updated_host(old, req).port == p,
        req.port is None ==> updated_host(old, req).port == 22,
{
}

} // verus!
