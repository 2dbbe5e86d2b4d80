//! The current schema.
use vstd::prelude::*;

use crate::sqlite::migrations::Version;
use crate::sqlite::statement::Statement;

verus! {

/// The version of the current schema.
pub open spec fn current() -> crate::sqlite::migrations::VersionView {
    crate::sqlite::migrations::release(1, 19, 1)
}

/// The version of the current schema.
pub fn current_version() -> (r: Version)
    ensures
        r@ == current(),
{
    Version::new(1, 19, 1)
}

pub const CREATE_VERSION_TABLE: &'static str =
    "CREATE TABLE IF NOT EXISTS schema_version (
        version TEXT NOT NULL
    )";

pub const COUNT_VERSIONS: &'static str = "SELECT COUNT(*) FROM schema_version";

pub const CREATE_TABLES: &'static str =
    "CREATE TABLE IF NOT EXISTS filerequests (
        id TEXT PRIMARY KEY,
        title TEXT NOT NULL,
        description TEXT,
        created_at TEXT NOT NULL,
        updated_at TEXT NOT NULL,
        status TEXT CHECK (status IN ('active', 'paused')) NOT NULL DEFAULT 'active',
        access_type TEXT CHECK (access_type IN ('public', 'audience')) NOT NULL DEFAULT 'audience'
    );

    CREATE TABLE IF NOT EXISTS contacts (
        id TEXT PRIMARY KEY,
        name TEXT NOT NULL,
        created_at TEXT NOT NULL,
        updated_at TEXT NOT NULL,
        dilithium_public_key BLOB,
        ed25519_public_key BLOB
    );

    CREATE TABLE IF NOT EXISTS filerequest_audience (
        filerequest_id TEXT NOT NULL,
        contact_id TEXT NOT NULL,
        created_at TEXT NOT NULL,
        PRIMARY KEY (filerequest_id, contact_id),
        FOREIGN KEY (filerequest_id) REFERENCES filerequests(id) ON DELETE CASCADE,
        FOREIGN KEY (contact_id) REFERENCES contacts(id) ON DELETE CASCADE
    );

    CREATE TABLE IF NOT EXISTS node_keys (
        id INTEGER PRIMARY KEY CHECK (id = 1),
        key_bytes BLOB NOT NULL
    );

    CREATE TABLE IF NOT EXISTS remote_filerequests (
        id TEXT PRIMARY KEY,
        peer_id TEXT NOT NULL,
        filerequest_id TEXT NOT NULL,
        name TEXT NOT NULL,
        created_at TEXT NOT NULL,
        contact_id TEXT NOT NULL
    );

    CREATE TABLE IF NOT EXISTS pending_files (
        id TEXT PRIMARY KEY,
        file_path TEXT NOT NULL,
        target_filerequest_id TEXT NOT NULL,
        status TEXT NOT NULL DEFAULT 'Pending'
            CHECK (status IN ('Pending', 'Sending', 'Interrupted', 'Sent', 'Rejected', 'Failed')),
        retry_count INTEGER NOT NULL DEFAULT 0,
        progress_bytes INTEGER,
        file_size_bytes INTEGER,
        transfer_id TEXT,
        display_name TEXT,
        interruption_reasons TEXT NOT NULL DEFAULT '[]',
        created_at TEXT NOT NULL,
        FOREIGN KEY(target_filerequest_id) REFERENCES remote_filerequests(id) ON DELETE CASCADE,

        CHECK (
            -- Pending: no transfer data
            (status = 'Pending'
                AND progress_bytes IS NULL AND file_size_bytes IS NULL AND transfer_id IS NULL)
            OR
            -- Sending/Interrupted: transfer data required
            (status IN ('Sending', 'Interrupted')
                AND progress_bytes IS NOT NULL AND progress_bytes >= 0
                AND file_size_bytes IS NOT NULL AND file_size_bytes >= 0
                AND transfer_id IS NOT NULL)
            OR
            -- Terminal states: transfer metadata is optional (preserved for diagnostics)
            (status IN ('Sent', 'Rejected', 'Failed'))
        )
    );

    CREATE TABLE IF NOT EXISTS received_files (
        id              TEXT PRIMARY KEY,
        contact_id      TEXT,
        peer_id         TEXT NOT NULL,
        filerequest_id  TEXT NOT NULL,
        transfer_id     TEXT UNIQUE,
        file_name       TEXT NOT NULL,
        file_path       TEXT,
        file_size_bytes INTEGER NOT NULL,
        progress_bytes  INTEGER NOT NULL DEFAULT 0,
        status          TEXT NOT NULL DEFAULT 'Receiving'
            CHECK (status IN ('Receiving', 'Interrupted', 'Completed', 'Failed')),
        started_at_ms   INTEGER NOT NULL DEFAULT 0,
        received_at_ms  INTEGER,
        FOREIGN KEY(filerequest_id) REFERENCES filerequests(id) ON DELETE CASCADE
    );

    CREATE TABLE IF NOT EXISTS self_contact (
        id INTEGER PRIMARY KEY CHECK (id = 1),
        contact_id TEXT NOT NULL UNIQUE,
        name TEXT NOT NULL,
        dilithium_private_key BLOB,
        dilithium_public_key BLOB,
        ed25519_private_key BLOB,
        ed25519_public_key BLOB
    );

    CREATE TABLE IF NOT EXISTS settings (
        id INTEGER PRIMARY KEY CHECK (id = 1),
        data BLOB NOT NULL DEFAULT X'',
        version TEXT NOT NULL DEFAULT '0.0.0'
    );";

pub const INSERT_SCHEMA_VERSION: &'static str = "INSERT INTO schema_version (version) VALUES (?)";

/// What is to be run, in one transaction, on a database in which `count` versions are recorded:
/// nothing where there is one, else the tables are created and the current version is recorded.
pub fn initialize_tables(count: i64) -> (r: Vec<Statement>)
    ensures
        crate::domain_models::views(r@) == if count > 0 {
            Seq::empty()
        } else {
            seq![
                crate::sqlite::statement::StatementView::of(CREATE_TABLES@),
                crate::sqlite::statement::StatementView::of(INSERT_SCHEMA_VERSION@).text(
                    current().text(),
                ),
            ]
        },
{
    if count > 0 {
        let nothing: Vec<Statement> = Vec::new();
        assert(crate::domain_models::views(nothing@) =~= Seq::empty());
        return nothing;
    }
    let version = current_version().to_text();
    Statement::of(CREATE_TABLES).followed_by(
        Statement::of(INSERT_SCHEMA_VERSION).text(version.as_str()),
    )
}

} // verus!
