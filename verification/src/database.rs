use vstd::prelude::*;

use crate::error::{fails_with, AppError, ErrorView};
use crate::remote_host::{random_uuid_bytes, uuid_text_from_random_bytes, uuid_v4_text, DEFAULT_SSH_PORT, RemoteHost, UpdateRemoteHostRequest, CreateRemoteHostRequest, updated_host, new_host, is_uuid_v4_text};

verus! {

/// No two rows of the table share an id (the table's primary key).
pub open spec fn ids_unique(t: Seq<RemoteHost>) -> bool {
    forall|i: int, j: int|
        0 <= i < t.len() && 0 <= j < t.len() && i != j ==> #[trigger] t[i].id@ != #[trigger] t[j].id@
}

/// Some row of the table has the id `id`.
pub open spec fn has_id(t: Seq<RemoteHost>, id: Seq<char>) -> bool {
    exists|i: int| 0 <= i < t.len() && #[trigger] t[i].id@ == id
}

/// The position of the row with the id `id` (meaningful where `has_id`).
pub open spec fn position_of(t: Seq<RemoteHost>, id: Seq<char>) -> int {
    choose|i: int| 0 <= i < t.len() && #[trigger] t[i].id@ == id
}

/// The row with the id `id`, if there is one.
pub open spec fn lookup(t: Seq<RemoteHost>, id: Seq<char>) -> Option<RemoteHost> {
    if has_id(t, id) {
        Some(t[position_of(t, id)])
    } else {
        None
    }
}

/// The table without the row with the id `id`.
pub open spec fn without_id(t: Seq<RemoteHost>, id: Seq<char>) -> Seq<RemoteHost> {
    if has_id(t, id) {
        t.remove(position_of(t, id))
    } else {
        t
    }
}

/// The table after an update request has been applied to the row it names
/// (meaningful where that row exists).
pub open spec fn with_update(t: Seq<RemoteHost>, req: UpdateRemoteHostRequest) -> Seq<RemoteHost> {
    let i = position_of(t, req.id@);
    t.update(i, updated_host(t[i], req))
}

/// Row `i` of the table comes before row `j` when listed: earlier creation time
/// first, and rows created at the same second in the order the table holds them.
pub open spec fn listed_before(t: Seq<RemoteHost>, i: int, j: int) -> bool {
    ||| t[i].created_at < t[j].created_at
    ||| (t[i].created_at == t[j].created_at && i < j)
}

/// `r` lists the rows of `t` by creation time, `perm` giving for each entry of `r`
/// the row of `t` it is.
pub open spec fn listed_as(t: Seq<RemoteHost>, r: Seq<RemoteHost>, perm: Seq<int>) -> bool {
    &&& r.len() == t.len()
    &&& perm.len() == t.len()
    &&& forall|k: int| 0 <= k < r.len() ==> 0 <= #[trigger] perm[k] < t.len() && r[k] == t[perm[k]]
    &&& forall|k: int, l: int|
        0 <= k < l < r.len() ==> listed_before(t, #[trigger] perm[k], #[trigger] perm[l])
    &&& forall|m: int| 0 <= m < t.len() ==> r.contains(#[trigger] t[m])
}

/// `r` is the table `t` ordered by creation time (ascending).
pub open spec fn in_creation_order(t: Seq<RemoteHost>, r: Seq<RemoteHost>) -> bool {
    exists|perm: Seq<int>| listed_as(t, r, perm)
}

/// A database state whose table, where it exists, holds no id twice.
pub open spec fn table_ok(d: Option<Seq<RemoteHost>>) -> bool {
    match d {
        Some(t) => ids_unique(t),
        None => true,
    }
}

/// The database after the `remote_hosts` table has been made sure to exist.
pub open spec fn with_table(d: Option<Seq<RemoteHost>>) -> Option<Seq<RemoteHost>> {
    match d {
        Some(t) => Some(t),
        None => Some(Seq::empty()),
    }
}

/// Some row of the table has an id shaped like a random UUID: the only tables on
/// which a freshly generated id can clash.
pub open spec fn holds_uuid_id(t: Seq<RemoteHost>) -> bool {
    exists|id: Seq<char>| is_uuid_v4_text(id) && #[trigger] has_id(t, id)
}

/// The error of a create when the system's random source fails.
pub open spec fn random_failure_message() -> Seq<char> {
    "could not retrieve random bytes for uuid"@
}

/// The error of any access to the table before it has been created.
pub open spec fn no_table_message() -> Seq<char> {
    "no such table: remote_hosts"@
}

/// The error of saving a row whose id the table already holds.
pub open spec fn duplicate_id_message() -> Seq<char> {
    "UNIQUE constraint failed: remote_hosts.id"@
}

/// The error of updating or connecting to an id that the table does not hold.
pub open spec fn missing_host_message(id: Seq<char>) -> Seq<char> {
    "远程主机 "@ + id + " 不存在"@
}

/// The application's local database, as far as remote hosts go: the
/// `remote_hosts` table, or nothing before that table has been created.
pub struct Database {
    remote_hosts: Option<Vec<RemoteHost>>,
}

impl View for Database {
    type V = Option<Seq<RemoteHost>>;

    closed spec fn view(&self) -> Option<Seq<RemoteHost>> {
        match self.remote_hosts {
            Some(v) => Some(v@),
            None => None,
        }
    }
}

fn no_table_error() -> (e: AppError)
    ensures
        e@ == ErrorView::Database(no_table_message()),
{
    AppError::Database("no such table: remote_hosts".to_owned())
}

fn random_failure_error() -> (e: AppError)
    ensures
        e@ == ErrorView::Database(random_failure_message()),
{
    AppError::Database("could not retrieve random bytes for uuid".to_owned())
}

fn duplicate_id_error() -> (e: AppError)
    ensures
        e@ == ErrorView::Database(duplicate_id_message()),
{
    AppError::Database("UNIQUE constraint failed: remote_hosts.id".to_owned())
}

/// The message of a missing host.
pub fn missing_host_error_text(id: &str) -> (m: String)
    ensures
        m@ == missing_host_message(id@),
{
    let mut m = "远程主机 ".to_owned();
    m.append(id);
    m.append(" 不存在");
    m
}

/// The position of the row with the id `id` in `rows`, if any.
fn find_id(rows: &Vec<RemoteHost>, id: &String) -> (r: Option<usize>)
    ensures
        match r {
            Some(i) => i < rows@.len() && rows@[i as int].id@ == id@,
            None => !has_id(rows@, id@),
        },
{
    let mut i: usize = 0;
    while i < rows.len()
        invariant
            i <= rows@.len(),
            forall|k: int| 0 <= k < i ==> (#[trigger] rows@[k]).id@ != id@,
        decreases rows@.len() - i,
    {
        if rows[i].id == *id {
            return Some(i);
        }
        i = i + 1;
    }
    None
}

/// Under unique ids, the row found is the one `position_of` names.
proof fn lemma_position(t: Seq<RemoteHost>, id: Seq<char>, i: int)
    requires
        ids_unique(t),
        0 <= i < t.len(),
        t[i].id@ == id,
    ensures
        has_id(t, id),
        position_of(t, id) == i,
        lookup(t, id) == Some(t[i]),
{
    assert(has_id(t, id));
    let j = position_of(t, id);
    assert(t[j].id@ == id);
}

/// The rows of `rows` ordered by creation time, rows created at the same second
/// in the order `rows` holds them (a stable insertion sort).
fn sorted_by_creation(rows: &Vec<RemoteHost>) -> (r: Vec<RemoteHost>)
    ensures
        in_creation_order(rows@, r@),
{
    let ghost t = rows@;
    let n = rows.len();
    let mut r: Vec<RemoteHost> = Vec::new();
    let ghost mut perm: Seq<int> = Seq::empty();
    let ghost mut inv: Seq<int> = Seq::empty();
    let mut i: usize = 0;
    while i < n
        invariant
            t == rows@,
            n == t.len(),
            i <= n,
            r@.len() == i,
            perm.len() == i,
            inv.len() == i,
            forall|k: int| 0 <= k < i ==> 0 <= #[trigger] perm[k] < i && r@[k] == t[perm[k]],
            forall|k: int, l: int|
                0 <= k < l < i ==> listed_before(t, #[trigger] perm[k], #[trigger] perm[l]),
            forall|m: int| 0 <= m < i ==> 0 <= #[trigger] inv[m] < i && perm[inv[m]] == m,
        decreases n - i,
    {
        let x = rows[i].duplicate();
        let mut p: usize = 0;
        while p < r.len() && r[p].created_at <= x.created_at
            invariant
                p <= r@.len(),
                forall|q: int| 0 <= q < p ==> (#[trigger] r@[q]).created_at <= x.created_at,
            decreases r@.len() - p,
        {
            p = p + 1;
        }
        proof {
            // every entry from `p` on was created after `x`
            assert forall|q: int| p <= q < i implies (#[trigger] r@[q]).created_at > x.created_at by {
                if q > p {
                    assert(listed_before(t, perm[p as int], perm[q]));
                }
            }
        }
        let ghost old_r = r@;
        let ghost old_perm = perm;
        let ghost old_inv = inv;
        r.insert(p, x);
        proof {
            perm = old_perm.insert(p as int, i as int);
            inv = Seq::new(
                (i + 1) as nat,
                |m: int| if m == i { p as int } else if old_inv[m] >= p { old_inv[m] + 1 } else { old_inv[m] },
            );
            assert forall|k: int| 0 <= k < i + 1 implies 0 <= #[trigger] perm[k] < i + 1 && r@[k] == t[perm[k]] by {
                if k < p {
                    assert(perm[k] == old_perm[k]);
                } else if k > p {
                    assert(perm[k] == old_perm[k - 1]);
                }
            }
            assert forall|k: int, l: int| 0 <= k < l < i + 1 implies listed_before(t, #[trigger] perm[k], #[trigger] perm[l]) by {
                if l < p {
                    assert(listed_before(t, old_perm[k], old_perm[l]));
                } else if k > p {
                    assert(listed_before(t, old_perm[k - 1], old_perm[l - 1]));
                } else if k < p && l > p {
                    assert(listed_before(t, old_perm[k], old_perm[l - 1]));
                } else if k == p {
                    assert(old_r[l - 1].created_at > x.created_at);
                } else {
                    assert(old_r[k].created_at <= x.created_at);
                }
            }
            assert forall|m: int| 0 <= m < i + 1 implies 0 <= #[trigger] inv[m] < i + 1 && perm[inv[m]] == m by {
                if m < i {
                    assert(old_perm[old_inv[m]] == m);
                }
            }
        }
        i = i + 1;
    }
    proof {
        assert forall|m: int| 0 <= m < t.len() implies r@.contains(#[trigger] t[m]) by {
            assert(r@[inv[m]] == t[m]);
        }
        assert(listed_as(t, r@, perm));
    }
    r
}

impl Database {
    #[verifier::type_invariant]
    spec fn well_formed(self) -> bool {
        match self.remote_hosts {
            Some(v) => ids_unique(v@),
            None => true,
        }
    }

    /// A database that holds no table yet.
    pub fn new() -> (db: Database)
        ensures
            db@ is None,
            table_ok(db@),
    {
        Database { remote_hosts: None }
    }

    /// Creates the `remote_hosts` table if it does not exist; an existing table is
    /// left as it is.
    pub fn ensure_remote_hosts_table(&mut self) -> (r: Result<(), AppError>)
        ensures
            r is Ok,
            final(self)@ == with_table(old(self)@),
            table_ok(final(self)@),
    {
        proof { use_type_invariant(&*self); }
        if self.remote_hosts.is_none() {
            self.remote_hosts = Some(Vec::new());
        }
        Ok(())
    }

    /// All saved hosts, by creation time (ascending).
    pub fn list_remote_hosts(&self) -> (r: Result<Vec<RemoteHost>, AppError>)
        ensures
            table_ok(self@),
            match self@ {
                None => fails_with(r, ErrorView::Database(no_table_message())),
                Some(t) => r matches Ok(v) && in_creation_order(t, v@),
            },
    {
        proof { use_type_invariant(&*self); }
        match &self.remote_hosts {
            None => Err(no_table_error()),
            Some(rows) => Ok(sorted_by_creation(rows)),
        }
    }

    /// The saved host with the id `id`, or `None` where there is none.
    pub fn get_remote_host(&self, id: &str) -> (r: Result<Option<RemoteHost>, AppError>)
        ensures
            table_ok(self@),
            match self@ {
                None => fails_with(r, ErrorView::Database(no_table_message())),
                Some(t) => r == Ok::<Option<RemoteHost>, AppError>(lookup(t, id@)),
            },
    {
        proof { use_type_invariant(&*self); }
        match &self.remote_hosts {
            None => Err(no_table_error()),
            Some(rows) => {
                let key = id.to_owned();
                match find_id(rows, &key) {
                    Some(i) => {
                        proof { lemma_position(rows@, id@, i as int); }
                        Ok(Some(rows[i].duplicate()))
                    },
                    None => Ok(None),
                }
            },
        }
    }

    /// Saves `host` as a new row; a row with the same id already there makes it fail.
    pub fn insert_remote_host(&mut self, host: RemoteHost) -> (r: Result<(), AppError>)
        ensures
            old(self)@ matches Some(t) ==> final(self)@ == Some(apply_change(t, TableChange::Insert(host))),
            table_ok(final(self)@),
            match old(self)@ {
                None => final(self)@ == old(self)@
                    && fails_with(r, ErrorView::Database(no_table_message())),
                Some(t) => if has_id(t, host.id@) {
                    final(self)@ == old(self)@
                        && fails_with(r, ErrorView::Database(duplicate_id_message()))
                } else {
                    r is Ok && final(self)@ == Some(t.push(host))
                },
            },
    {
        proof { use_type_invariant(&*self); }
        let mut table: Option<Vec<RemoteHost>> = None;
        std::mem::swap(&mut table, &mut self.remote_hosts);
        match table {
            None => Err(no_table_error()),
            Some(mut rows) => {
                match find_id(&rows, &host.id) {
                    Some(i) => {
                        self.remote_hosts = Some(rows);
                        Err(duplicate_id_error())
                    },
                    None => {
                        let ghost before = rows@;
                        rows.push(host);
                        assert(ids_unique(rows@)) by {
                            assert forall|i: int, j: int|
                                0 <= i < rows@.len() && 0 <= j < rows@.len() && i != j
                                implies #[trigger] rows@[i].id@ != #[trigger] rows@[j].id@ by {
                                if i == before.len() {
                                    assert(before[j].id@ != host.id@);
                                } else if j == before.len() {
                                    assert(before[i].id@ != host.id@);
                                }
                            }
                        }
                        self.remote_hosts = Some(rows);
                        Ok(())
                    },
                }
            },
        }
    }

    /// Saves the host that `req` describes under the id `id`, created at `created_at`,
    /// and returns it.
    pub fn create_remote_host_with_id(
        &mut self,
        id: String,
        req: CreateRemoteHostRequest,
        created_at: i64,
    ) -> (r: Result<RemoteHost, AppError>)
        ensures
            old(self)@ matches Some(t) ==> final(self)@ == Some(
                apply_change(t, TableChange::Insert(new_host(id, req, created_at))),
            ),
            table_ok(final(self)@),
            match old(self)@ {
                None => final(self)@ == old(self)@
                    && fails_with(r, ErrorView::Database(no_table_message())),
                Some(t) => if has_id(t, id@) {
                    final(self)@ == old(self)@
                        && fails_with(r, ErrorView::Database(duplicate_id_message()))
                } else {
                    r == Ok::<RemoteHost, AppError>(new_host(id, req, created_at))
                        && final(self)@ == Some(t.push(new_host(id, req, created_at)))
                },
            },
    {
        let host = RemoteHost::from_request(id, req, created_at);
        let saved = host.duplicate();
        match self.insert_remote_host(saved) {
            Ok(()) => Ok(host),
            Err(e) => Err(e),
        }
    }

    /// Saves the host that `req` describes under the id that the random bytes
    /// `random` give (`None`: the random source failed), created at `created_at`,
    /// and returns it.
    pub fn create_remote_host_from_random(
        &mut self,
        random: Option<[u8; 16]>,
        req: CreateRemoteHostRequest,
        created_at: i64,
    ) -> (r: Result<RemoteHost, AppError>)
        ensures
            table_ok(final(self)@),
            random matches Some(b) ==> is_uuid_v4_text(uuid_v4_text(b@)),
            match random {
                None => final(self)@ == old(self)@
                    && fails_with(r, ErrorView::Database(random_failure_message())),
                Some(b) => match old(self)@ {
                    None => final(self)@ == old(self)@
                        && fails_with(r, ErrorView::Database(no_table_message())),
                    Some(t) => if has_id(t, uuid_v4_text(b@)) {
                        final(self)@ == old(self)@
                            && fails_with(r, ErrorView::Database(duplicate_id_message()))
                    } else {
                        r matches Ok(h) && h == new_host(h.id, req, created_at)
                            && h.id@ == uuid_v4_text(b@) && is_uuid_v4_text(h.id@)
                            && final(self)@ == Some(t.push(h))
                            && final(self)@ == Some(apply_change(t, TableChange::Insert(h)))
                    },
                },
            },
    {
        proof { use_type_invariant(&*self); }
        match random {
            None => Err(random_failure_error()),
            Some(bytes) => {
                let id = uuid_text_from_random_bytes(bytes);
                self.create_remote_host_with_id(id, req, created_at)
            },
        }
    }

    /// Saves the host that `req` describes under a fresh random id, created at
    /// `created_at` (seconds since the Unix epoch), and returns it. The port
    /// defaults to 22. It fails where the system's random source fails, or where
    /// the drawn id is one the table already holds.
    pub fn create_remote_host(&mut self, req: CreateRemoteHostRequest, created_at: i64) -> (r: Result<
        RemoteHost,
        AppError,
    >)
        ensures
            r matches Ok(h) ==> {
                &&& h.name == req.name
                &&& h.host == req.host
                &&& h.username == req.username
                &&& h.password == req.password
                &&& h.created_at == created_at
                &&& (req.port matches Some(p) ==> h.port == p)
                &&& (req.port is None ==> h.port == 22)
            },
            table_ok(final(self)@),
            match old(self)@ {
                None => final(self)@ == old(self)@
                    && (fails_with(r, ErrorView::Database(no_table_message()))
                        || fails_with(r, ErrorView::Database(random_failure_message()))),
                Some(t) => match r {
                    Ok(h) => h == new_host(h.id, req, created_at) && is_uuid_v4_text(h.id@)
                        && !has_id(t, h.id@) && final(self)@ == Some(t.push(h))
                        && final(self)@ == Some(apply_change(t, TableChange::Insert(h))),
                    Err(e) => final(self)@ == old(self)@ && (
                        e@ == ErrorView::Database(random_failure_message())
                        || (e@ == ErrorView::Database(duplicate_id_message()) && holds_uuid_id(t))),
                },
            },
    {
        let random = random_uuid_bytes();
        let r = self.create_remote_host_from_random(random, req, created_at);
        proof {
            if old(self)@ is Some && random is Some
                && has_id(old(self)@->0, uuid_v4_text(random->0@)) {
                assert(is_uuid_v4_text(uuid_v4_text(random->0@)));
            }
        }
        r
    }

    /// Replaces every field of the host that `req` names but its creation time,
    /// and returns the host as it now stands; fails where no host has that id.
    pub fn update_remote_host(&mut self, req: UpdateRemoteHostRequest) -> (r: Result<
        RemoteHost,
        AppError,
    >)
        ensures
            r matches Ok(h) ==> {
                &&& h.id == req.id
                &&& h.name == req.name
                &&& h.host == req.host
                &&& h.username == req.username
                &&& h.password == req.password
                &&& (req.port matches Some(p) ==> h.port == p)
                &&& (req.port is None ==> h.port == 22)
            },
            old(self)@ matches Some(t) ==> final(self)@ == Some(apply_change(t, TableChange::Update(req))),
            table_ok(final(self)@),
            match old(self)@ {
                None => final(self)@ == old(self)@
                    && fails_with(r, ErrorView::Database(no_table_message())),
                Some(t) => if has_id(t, req.id@) {
                    r == Ok::<RemoteHost, AppError>(updated_host(t[position_of(t, req.id@)], req))
                        && final(self)@ == Some(with_update(t, req))
                } else {
                    final(self)@ == old(self)@
                        && fails_with(r, ErrorView::Config(missing_host_message(req.id@)))
                },
            },
    {
        proof { use_type_invariant(&*self); }
        let mut table: Option<Vec<RemoteHost>> = None;
        std::mem::swap(&mut table, &mut self.remote_hosts);
        match table {
            None => Err(no_table_error()),
            Some(mut rows) => {
                match find_id(&rows, &req.id) {
                    None => {
                        let msg = missing_host_error_text(req.id.as_str());
                        self.remote_hosts = Some(rows);
                        Err(AppError::Config(msg))
                    },
                    Some(i) => {
                        let ghost before = rows@;
                        proof { lemma_position(before, req.id@, i as int); }
                        let created_at = rows[i].created_at;
                        let host = RemoteHost {
                            id: req.id,
                            name: req.name,
                            host: req.host,
                            port: req.port.unwrap_or(DEFAULT_SSH_PORT),
                            username: req.username,
                            password: req.password,
                            created_at: created_at,
                        };
                        let stored = host.duplicate();
                        rows.set(i, stored);
                        assert(ids_unique(rows@)) by {
                            assert forall|a: int, b: int|
                                0 <= a < rows@.len() && 0 <= b < rows@.len() && a != b
                                implies #[trigger] rows@[a].id@ != #[trigger] rows@[b].id@ by {
                                if a == i {
                                    assert(before[b].id@ != before[a].id@);
                                } else if b == i {
                                    assert(before[b].id@ != before[a].id@);
                                } else {
                                    assert(before[b].id@ != before[a].id@);
                                }
                            }
                        }
                        self.remote_hosts = Some(rows);
                        Ok(host)
                    },
                }
            },
        }
    }

    /// Removes the host with the id `id`; removing an id the table does not hold
    /// succeeds and changes nothing.
    pub fn delete_remote_host(&mut self, id: &str) -> (r: Result<(), AppError>)
        ensures
            old(self)@ matches Some(t) ==> final(self)@ == Some(apply_change(t, TableChange::Delete(id@))),
            table_ok(final(self)@),
            match old(self)@ {
                None => final(self)@ == old(self)@
                    && fails_with(r, ErrorView::Database(no_table_message())),
                Some(t) => r is Ok && final(self)@ == Some(without_id(t, id@)),
            },
    {
        proof { use_type_invariant(&*self); }
        let mut table: Option<Vec<RemoteHost>> = None;
        std::mem::swap(&mut table, &mut self.remote_hosts);
        match table {
            None => Err(no_table_error()),
            Some(mut rows) => {
                let key = id.to_owned();
                match find_id(&rows, &key) {
                    None => {
                        self.remote_hosts = Some(rows);
                        Ok(())
                    },
                    Some(i) => {
                        let ghost before = rows@;
                        proof { lemma_position(before, id@, i as int); }
                        rows.remove(i);
                        assert(ids_unique(rows@)) by {
                            assert forall|a: int, b: int|
                                0 <= a < rows@.len() && 0 <= b < rows@.len() && a != b
                                implies #[trigger] rows@[a].id@ != #[trigger] rows@[b].id@ by {
                                let a0 = if a < i { a } else { a + 1 };
                                let b0 = if b < i { b } else { b + 1 };
                                assert(rows@[a] == before[a0]);
                                assert(rows@[b] == before[b0]);
                            }
                        }
                        self.remote_hosts = Some(rows);
                        Ok(())
                    },
                }
            },
        }
    }
}


/// Making sure the table exists twice is the same as doing it once, and it never
/// changes a table that is already there.
pub proof fn law_ensure_table_idempotent(d: Option<Seq<RemoteHost>>)
    ensures
        with_table(with_table(d)) == with_table(d),
        d is Some ==> with_table(d) == d,
{
}

/// Read after write: right after a host has been saved, looking up its id gives
/// back exactly that host.
pub proof fn law_get_after_create(t: Seq<RemoteHost>, h: RemoteHost)
    requires
        ids_unique(t),
        !has_id(t, h.id@),
    ensures
        ids_unique(t.push(h)),
        lookup(t.push(h), h.id@) == Some(h),
{
    let u = t.push(h);
    assert forall|i: int, j: int| 0 <= i < u.len() && 0 <= j < u.len() && i != j implies
        #[trigger] u[i].id@ != #[trigger] u[j].id@ by {
        if i == t.len() {
            assert(t[j].id@ != h.id@);
        } else if j == t.len() {
            assert(t[i].id@ != h.id@);
        } else {
            assert(t[i] == u[i] && t[j] == u[j]);
        }
    }
    lemma_position(u, h.id@, t.len() as int);
}

/// Saving a host leaves every other id where it was: looking up any other id gives
/// the same answer as before.
pub proof fn law_create_keeps_others(t: Seq<RemoteHost>, h: RemoteHost, id: Seq<char>)
    requires
        ids_unique(t),
        !has_id(t, h.id@),
        id != h.id@,
    ensures
        lookup(t.push(h), id) == lookup(t, id),
{
    law_get_after_create(t, h);
    let u = t.push(h);
    if has_id(t, id) {
        let i = position_of(t, id);
        assert(u[i] == t[i]);
        lemma_position(t, id, i);
        lemma_position(u, id, i);
    } else {
        assert(!has_id(u, id)) by {
            if has_id(u, id) {
                let j = position_of(u, id);
                assert(j != t.len());
                assert(t[j] == u[j]);
            }
        }
    }
}

/// A listing holds every saved host exactly once, and no other, in ascending order
/// of creation time.
pub proof fn law_listing_is_the_table_by_creation_time(t: Seq<RemoteHost>, r: Seq<RemoteHost>)
    requires
        in_creation_order(t, r),
    ensures
        r.len() == t.len(),
        forall|h: RemoteHost| r.contains(h) <==> t.contains(h),
        forall|k: int, l: int| 0 <= k < l < r.len() ==> r[k].created_at <= r[l].created_at,
{
    let perm = choose|perm: Seq<int>| listed_as(t, r, perm);
    assert forall|h: RemoteHost| r.contains(h) implies t.contains(h) by {
        let k = choose|k: int| 0 <= k < r.len() && r[k] == h;
        assert(t[perm[k]] == h);
    }
    assert forall|h: RemoteHost| t.contains(h) implies r.contains(h) by {
        let m = choose|m: int| 0 <= m < t.len() && t[m] == h;
        assert(r.contains(t[m]));
    }
    assert forall|k: int, l: int| 0 <= k < l < r.len() implies r[k].created_at <= r[l].created_at by {
        assert(listed_before(t, perm[k], perm[l]));
    }
}

/// After a host has been saved, the listing holds it.
pub proof fn law_list_after_create(t: Seq<RemoteHost>, h: RemoteHost, r: Seq<RemoteHost>)
    requires
        in_creation_order(t.push(h), r),
    ensures
        r.contains(h),
{
    law_listing_is_the_table_by_creation_time(t.push(h), r);
    assert(t.push(h)[t.len() as int] == h);
}

/// An update replaces the fields of the host it names, keeps its id and its
/// creation time, and leaves the ids of the table unique.
pub proof fn law_update_keeps_creation_time(t: Seq<RemoteHost>, req: UpdateRemoteHostRequest)
    requires
        ids_unique(t),
        has_id(t, req.id@),
    ensures
        ids_unique(with_update(t, req)),
        with_update(t, req).len() == t.len(),
        lookup(with_update(t, req), req.id@) == Some(updated_host(t[position_of(t, req.id@)], req)),
        lookup(with_update(t, req), req.id@).unwrap().created_at == lookup(t, req.id@).unwrap().created_at,
{
    let i = position_of(t, req.id@);
    let u = with_update(t, req);
    assert forall|a: int, b: int| 0 <= a < u.len() && 0 <= b < u.len() && a != b implies
        #[trigger] u[a].id@ != #[trigger] u[b].id@ by {
        assert(t[a].id@ != t[b].id@);
    }
    lemma_position(t, req.id@, i);
    lemma_position(u, req.id@, i);
}

/// An update leaves every other host as it was.
pub proof fn law_update_keeps_others(t: Seq<RemoteHost>, req: UpdateRemoteHostRequest, id: Seq<char>)
    requires
        ids_unique(t),
        has_id(t, req.id@),
        id != req.id@,
    ensures
        lookup(with_update(t, req), id) == lookup(t, id),
{
    law_update_keeps_creation_time(t, req);
    let i = position_of(t, req.id@);
    let u = with_update(t, req);
    if has_id(t, id) {
        let j = position_of(t, id);
        assert(j != i);
        lemma_position(t, id, j);
        lemma_position(u, id, j);
    } else {
        assert(!has_id(u, id)) by {
            if has_id(u, id) {
                let j = position_of(u, id);
                assert(j != i);
                assert(t[j] == u[j]);
            }
        }
    }
}

/// After a delete, the id is gone; deleting it again changes nothing.
pub proof fn law_delete_then_get(t: Seq<RemoteHost>, id: Seq<char>)
    requires
        ids_unique(t),
    ensures
        ids_unique(without_id(t, id)),
        lookup(without_id(t, id), id) is None,
        without_id(without_id(t, id), id) == without_id(t, id),
{
    let u = without_id(t, id);
    if has_id(t, id) {
        let i = position_of(t, id);
        assert forall|a: int, b: int| 0 <= a < u.len() && 0 <= b < u.len() && a != b implies
            #[trigger] u[a].id@ != #[trigger] u[b].id@ by {
            let a0 = if a < i { a } else { a + 1 };
            let b0 = if b < i { b } else { b + 1 };
            assert(u[a] == t[a0] && u[b] == t[b0]);
        }
        assert(!has_id(u, id)) by {
            if has_id(u, id) {
                let j = position_of(u, id);
                let j0 = if j < i { j } else { j + 1 };
                assert(u[j] == t[j0]);
            }
        }
    }
}

/// Saving a host and then deleting it gives back the table as it was.
pub proof fn law_create_then_delete(t: Seq<RemoteHost>, h: RemoteHost)
    requires
        ids_unique(t),
        !has_id(t, h.id@),
    ensures
        without_id(t.push(h), h.id@) == t,
{
    law_get_after_create(t, h);
    assert(position_of(t.push(h), h.id@) == t.len());
    assert(t.push(h).remove(t.len() as int) =~= t);
}

/// Two listings of the same table put the same rows at the same positions, up to `k`.
proof fn lemma_listings_agree(
    t: Seq<RemoteHost>,
    r1: Seq<RemoteHost>,
    p1: Seq<int>,
    r2: Seq<RemoteHost>,
    p2: Seq<int>,
    k: int,
)
    requires
        ids_unique(t),
        listed_as(t, r1, p1),
        listed_as(t, r2, p2),
        0 <= k <= t.len(),
    ensures
        forall|j: int| 0 <= j < k ==> p1[j] == p2[j],
    decreases k,
{
    if k > 0 {
        lemma_listings_agree(t, r1, p1, r2, p2, k - 1);
        let n = k - 1;
        assert(r2.contains(t[p1[n]]));
        let m = choose|m: int| 0 <= m < r2.len() && r2[m] == t[p1[n]];
        assert(0 <= p2[m] < t.len() && 0 <= p1[n] < t.len());
        assert(t[p2[m]].id@ == t[p1[n]].id@);
        assert(p2[m] == p1[n]);
        assert(r1.contains(t[p2[n]]));
        let m2 = choose|m2: int| 0 <= m2 < r1.len() && r1[m2] == t[p2[n]];
        assert(0 <= p1[m2] < t.len() && 0 <= p2[n] < t.len());
        assert(t[p1[m2]].id@ == t[p2[n]].id@);
        assert(p1[m2] == p2[n]);
        if m < n {
            assert(p2[m] == p1[m]);
            assert(listed_before(t, p1[m], p1[n]));
        } else if m2 < n {
            assert(p1[m2] == p2[m2]);
            assert(listed_before(t, p2[m2], p2[n]));
        } else if m > n && m2 > n {
            assert(listed_before(t, p2[n], p2[m]));
            assert(listed_before(t, p1[n], p1[m2]));
        }
    }
}

/// The listing of a table is determined by it: any two listings are equal.
pub proof fn law_listing_is_unique(t: Seq<RemoteHost>, r1: Seq<RemoteHost>, r2: Seq<RemoteHost>)
    requires
        ids_unique(t),
        in_creation_order(t, r1),
        in_creation_order(t, r2),
    ensures
        r1 == r2,
{
    let p1 = choose|p: Seq<int>| listed_as(t, r1, p);
    let p2 = choose|p: Seq<int>| listed_as(t, r2, p);
    lemma_listings_agree(t, r1, p1, r2, p2, t.len() as int);
    assert forall|k: int| 0 <= k < r1.len() implies r1[k] == r2[k] by {
        assert(p1[k] == p2[k]);
    }
    assert(r1 =~= r2);
}

/// A change that a successful or refused call makes to an existing table.
pub enum TableChange {
    /// `insert_remote_host` / `create_remote_host`: the row is added unless its id is taken.
    Insert(RemoteHost),
    /// `update_remote_host`: the named row is changed if it exists.
    Update(UpdateRemoteHostRequest),
    /// `delete_remote_host`: the row with this id is removed if it exists.
    Delete(Seq<char>),
}

/// The table after one change.
pub open spec fn apply_change(t: Seq<RemoteHost>, c: TableChange) -> Seq<RemoteHost> {
    match c {
        TableChange::Insert(h) => if has_id(t, h.id@) { t } else { t.push(h) },
        TableChange::Update(req) => if has_id(t, req.id@) { with_update(t, req) } else { t },
        TableChange::Delete(id) => without_id(t, id),
    }
}

/// The table after a series of changes, first to last.
pub open spec fn apply_changes(t: Seq<RemoteHost>, cs: Seq<TableChange>) -> Seq<RemoteHost>
    decreases cs.len(),
{
    if cs.len() == 0 {
        t
    } else {
        apply_change(apply_changes(t, cs.drop_last()), cs.last())
    }
}

/// The change updates or deletes the row with the id `id`.
pub open spec fn touches(c: TableChange, id: Seq<char>) -> bool {
    match c {
        TableChange::Insert(_) => false,
        TableChange::Update(req) => req.id@ == id,
        TableChange::Delete(d) => d == id,
    }
}

/// Deleting a row leaves every other id as it was.
pub proof fn law_delete_keeps_others(t: Seq<RemoteHost>, id: Seq<char>, other: Seq<char>)
    requires
        ids_unique(t),
        other != id,
    ensures
        lookup(without_id(t, id), other) == lookup(t, other),
{
    law_delete_then_get(t, id);
    if has_id(t, id) {
        let i = position_of(t, id);
        let u = without_id(t, id);
        if has_id(t, other) {
            let j = position_of(t, other);
            assert(j != i);
            let j1 = if j < i { j } else { j - 1 };
            assert(u[j1] == t[j]);
            lemma_position(t, other, j);
            lemma_position(u, other, j1);
        } else {
            assert(!has_id(u, other)) by {
                if has_id(u, other) {
                    let k = position_of(u, other);
                    let k0 = if k < i { k } else { k + 1 };
                    assert(u[k] == t[k0]);
                }
            }
        }
    }
}

/// A row stays exactly as it is, and the ids stay unique, through any changes
/// that do not update or delete it.
pub proof fn law_row_survives_changes(t: Seq<RemoteHost>, h: RemoteHost, cs: Seq<TableChange>)
    requires
        ids_unique(t),
        lookup(t, h.id@) == Some(h),
        forall|i: int| 0 <= i < cs.len() ==> !touches(#[trigger] cs[i], h.id@),
    ensures
        ids_unique(apply_changes(t, cs)),
        lookup(apply_changes(t, cs), h.id@) == Some(h),
    decreases cs.len(),
{
    if cs.len() > 0 {
        let before = cs.drop_last();
        assert forall|i: int| 0 <= i < before.len() implies !touches(#[trigger] before[i], h.id@) by {
            assert(before[i] == cs[i]);
        }
        law_row_survives_changes(t, h, before);
        let u = apply_changes(t, before);
        let c = cs.last();
        assert(!touches(c, h.id@));
        match c {
            TableChange::Insert(x) => {
                if !has_id(u, x.id@) {
                    law_get_after_create(u, x);
                    law_create_keeps_others(u, x, h.id@);
                }
            },
            TableChange::Update(req) => {
                if has_id(u, req.id@) {
                    law_update_keeps_creation_time(u, req);
                    law_update_keeps_others(u, req, h.id@);
                }
            },
            TableChange::Delete(id) => {
                law_delete_then_get(u, id);
                law_delete_keeps_others(u, id, h.id@);
            },
        }
    }
}

/// A host that has been created is listed exactly once, as it was created, after
/// any later changes that neither update nor delete it.
pub proof fn law_created_host_stays_listed(
    t: Seq<RemoteHost>,
    h: RemoteHost,
    cs: Seq<TableChange>,
    v: Seq<RemoteHost>,
)
    requires
        ids_unique(t),
        !has_id(t, h.id@),
        forall|i: int| 0 <= i < cs.len() ==> !touches(#[trigger] cs[i], h.id@),
        in_creation_order(apply_changes(t.push(h), cs), v),
    ensures
        exists|k: int| 0 <= k < v.len() && v[k] == h
            && forall|l: int| 0 <= l < v.len() && (#[trigger] v[l]).id@ == h.id@ ==> l == k,
{
    law_get_after_create(t, h);
    law_row_survives_changes(t.push(h), h, cs);
    let u = apply_changes(t.push(h), cs);
    let i = position_of(u, h.id@);
    assert(u[i] == h);
    let perm = choose|p: Seq<int>| listed_as(u, v, p);
    assert(v.contains(u[i]));
    let k = choose|k: int| 0 <= k < v.len() && v[k] == u[i];
    assert forall|l: int| 0 <= l < v.len() && (#[trigger] v[l]).id@ == h.id@ implies l == k by {
        assert(0 <= perm[l] < u.len() && 0 <= perm[k] < u.len());
        assert(u[perm[l]].id@ == u[perm[k]].id@);
        assert(perm[l] == perm[k]);
        if l < k {
            assert(listed_before(u, perm[l], perm[k]));
        } else if k < l {
            assert(listed_before(u, perm[k], perm[l]));
        }
    }
}

/// After an update of an existing row, looking up its id gives a host whose id,
/// name, address, user name and password are the request's, whose port is the
/// request's (22 where it names none), and whose creation time is the old row's;
/// that host is also what the update returns.
pub proof fn law_update_sets_request_fields(t: Seq<RemoteHost>, req: UpdateRemoteHostRequest)
    requires
        ids_unique(t),
        has_id(t, req.id@),
    ensures
        ({
            let old = lookup(t, req.id@).unwrap();
            let h = lookup(with_update(t, req), req.id@).unwrap();
            &&& lookup(with_update(t, req), req.id@) is Some
            &&& h == updated_host(t[position_of(t, req.id@)], req)
            &&& h.id == req.id
            &&& h.name == req.name
            &&& h.host == req.host
            &&& h.username == req.username
            &&& h.password == req.password
            &&& h.created_at == old.created_at
            &&& (req.port matches Some(p) ==> h.port == p)
            &&& (req.port is None ==> h.port == 22)
        }),
{
    law_update_keeps_creation_time(t, req);
    lemma_position(t, req.id@, position_of(t, req.id@));
}

} // verus!
