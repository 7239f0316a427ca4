# remote_hosts

The back end of a desktop tool that keeps a list of remote machines and one
active SSH session to them.

- `src/` is the verified library (Verus):
  - `remote_host.rs`: the host record and the create/update requests;
  - `database.rs`: the `remote_hosts` table (primary key, ordering by creation
    time, create/read/update/delete) and its laws;
  - `ssh_manager.rs`: the session record, the active-session manager, the dial
    address, the remote home and the local-to-remote path mapping;
  - `connect_flow.rs`: the steps of opening a session (dial, session, handshake,
    login, login check, home probe) as a step function that `app/` drives;
  - `commands.rs`: what each front-end command decides;
  - `text.rs`, `paths.rs`, `error.rs`: decimal text, trimming, path helpers, errors.
- `app/` is the unverified shell: SQLite storage (`rusqlite`), the SSH and SFTP
  transport (`ssh2`), serializable copies of the records (`serde`) and `main`.
- `tests/` runs the library on concrete values.
