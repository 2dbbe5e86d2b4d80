//! All migrations that the schema has gone through, from the oldest to the newest.
use vstd::prelude::*;

use crate::sqlite::migrations::{DataStep, Migration, Script, Version};

verus! {

pub const FOREIGN_KEYS_OFF: &'static str = "PRAGMA foreign_keys = OFF";

pub const FOREIGN_KEYS_ON: &'static str = "PRAGMA foreign_keys = ON";

pub const LEGACY_ALTER_TABLE_ON: &'static str = "PRAGMA legacy_alter_table = ON";

pub const LEGACY_ALTER_TABLE_OFF: &'static str = "PRAGMA legacy_alter_table = OFF";

pub const NAME_REMOTE_FILEREQUESTS_UP_1: &'static str =
    "ALTER TABLE remote_filerequests ADD COLUMN name TEXT";

pub const NAME_REMOTE_FILEREQUESTS_UP_2: &'static str =
    "UPDATE remote_filerequests SET name = filerequest_id";

pub const NAME_REMOTE_FILEREQUESTS_UP_3: &'static str =
    "CREATE TABLE new_remote_filerequests (
         id TEXT PRIMARY KEY,
         peer_id TEXT NOT NULL,
         filerequest_id TEXT NOT NULL,
         name TEXT NOT NULL,
         created_at TEXT NOT NULL
     );
     INSERT INTO new_remote_filerequests
     SELECT id, peer_id, filerequest_id, name, created_at
     FROM remote_filerequests;
     DROP TABLE remote_filerequests;
     ALTER TABLE new_remote_filerequests RENAME TO remote_filerequests;";

pub const NAME_REMOTE_FILEREQUESTS_DOWN: &'static str =
    "CREATE TABLE new_remote_filerequests (
         id TEXT PRIMARY KEY,
         peer_id TEXT NOT NULL,
         filerequest_id TEXT NOT NULL,
         created_at TEXT NOT NULL
     );
     INSERT INTO new_remote_filerequests
     SELECT id, peer_id, filerequest_id, created_at
     FROM remote_filerequests;
     DROP TABLE remote_filerequests;
     ALTER TABLE new_remote_filerequests RENAME TO remote_filerequests;";

pub const NAME_PEERS_UP: &'static str =
    "CREATE TABLE new_peers (
         id TEXT NOT NULL,
         peer_id TEXT NOT NULL,
         contact_id TEXT NOT NULL,
         name TEXT NOT NULL,
         is_active BOOLEAN NOT NULL,
         created_at TEXT NOT NULL,
         updated_at TEXT NOT NULL,
         PRIMARY KEY (id, contact_id),
         FOREIGN KEY (contact_id) REFERENCES contacts(id) ON DELETE CASCADE
     );
     INSERT INTO new_peers
     SELECT id, peer_id, contact_id, peer_id as name, is_active, created_at, updated_at
     FROM peers;
     DROP TABLE peers;
     ALTER TABLE new_peers RENAME TO peers;";

pub const NAME_PEERS_DOWN: &'static str =
    "CREATE TABLE new_peers (
         id TEXT NOT NULL,
         peer_id TEXT NOT NULL,
         contact_id TEXT NOT NULL,
         multiaddr TEXT NOT NULL,
         is_active BOOLEAN NOT NULL,
         created_at TEXT NOT NULL,
         updated_at TEXT NOT NULL,
         PRIMARY KEY (id, contact_id),
         FOREIGN KEY (contact_id) REFERENCES contacts(id) ON DELETE CASCADE
     );
     INSERT INTO new_peers
     SELECT id, peer_id, contact_id, 'N/A' as multiaddr, is_active, created_at, updated_at
     FROM peers;
     DROP TABLE peers;
     ALTER TABLE new_peers RENAME TO peers;";

pub const RECORD_RECEIVED_FILES_UP_1: &'static str =
    "CREATE TABLE new_peers (
         id TEXT PRIMARY KEY,
         peer_id TEXT NOT NULL,
         contact_id TEXT NOT NULL,
         name TEXT NOT NULL,
         is_active BOOLEAN NOT NULL,
         created_at TEXT NOT NULL,
         updated_at TEXT NOT NULL,
         FOREIGN KEY (contact_id) REFERENCES contacts(id) ON DELETE CASCADE
     );
     INSERT INTO new_peers
     SELECT id, peer_id, contact_id, name, is_active, created_at, updated_at
     FROM peers;
     DROP TABLE peers;
     ALTER TABLE new_peers RENAME TO peers;";

pub const RECORD_RECEIVED_FILES_UP_2: &'static str =
    "CREATE TABLE received_files (
         id               TEXT PRIMARY KEY,
         peer_id          TEXT NOT NULL,
         filerequest_id   TEXT NOT NULL,
         file_name        TEXT NOT NULL,
         file_path        TEXT NOT NULL,
         size             INTEGER NOT NULL,
         received_at_ms   INTEGER NOT NULL,
         contact_id       TEXT NOT NULL,
         FOREIGN KEY(contact_id) REFERENCES contacts(id),
         FOREIGN KEY(peer_id)    REFERENCES peers(id),
         FOREIGN KEY(filerequest_id) REFERENCES filerequests(id)
     );";

pub const RECORD_RECEIVED_FILES_UP_3: &'static str =
    "CREATE TEMP TABLE remote_fr_temp AS SELECT * FROM remote_filerequests;
     ALTER TABLE remote_filerequests RENAME TO remote_fr_old;";

pub const RECORD_RECEIVED_FILES_UP_4: &'static str =
    "CREATE TABLE remote_filerequests (
         id TEXT PRIMARY KEY,
         peer_id TEXT NOT NULL,
         filerequest_id TEXT NOT NULL,
         name TEXT NOT NULL,
         created_at TEXT NOT NULL,
         FOREIGN KEY(peer_id) REFERENCES peers(id)
     );";

pub const RECORD_RECEIVED_FILES_UP_5: &'static str =
    "DROP TABLE remote_fr_old; DROP TABLE remote_fr_temp;";

pub const RECORD_RECEIVED_FILES_DOWN_1: &'static str =
    "CREATE TABLE new_peers (
         id TEXT NOT NULL,
         peer_id TEXT NOT NULL,
         contact_id TEXT NOT NULL,
         name TEXT NOT NULL,
         is_active BOOLEAN NOT NULL,
         created_at TEXT NOT NULL,
         updated_at TEXT NOT NULL,
         PRIMARY KEY (id, contact_id),
         FOREIGN KEY (contact_id) REFERENCES contacts(id) ON DELETE CASCADE
     );
     INSERT INTO new_peers
     SELECT id, peer_id, contact_id, name, is_active, created_at, updated_at
     FROM peers;
     DROP TABLE peers;
     ALTER TABLE new_peers RENAME TO peers;";

pub const RECORD_RECEIVED_FILES_DOWN_2: &'static str =
    "CREATE TABLE remote_filerequests (
         id TEXT PRIMARY KEY,
         peer_id TEXT NOT NULL,
         filerequest_id TEXT NOT NULL,
         name TEXT NOT NULL,
         created_at TEXT NOT NULL
     );";

pub const RECORD_RECEIVED_FILES_DOWN_3: &'static str =
    "DROP TABLE remote_fr_old;
     DROP TABLE remote_fr_temp;
     DROP TABLE IF EXISTS received_files;";

pub const INDEX_PEERS_UP: &'static str =
    "CREATE UNIQUE INDEX IF NOT EXISTS idx_peers_peer_id ON peers(peer_id)";

pub const INDEX_PEERS_DOWN: &'static str = "DROP INDEX IF EXISTS idx_peers_peer_id";

pub const DELETE_SOFTLY_UP: &'static str =
    "ALTER TABLE contacts ADD COLUMN deleted_at TEXT;
     ALTER TABLE peers ADD COLUMN deleted_at TEXT;

     -- Create indices for better performance on common queries
     CREATE INDEX idx_contacts_deleted_at ON contacts(deleted_at);
     CREATE INDEX idx_peers_deleted_at ON peers(deleted_at);";

pub const DELETE_SOFTLY_DOWN: &'static str =
    "DROP INDEX IF EXISTS idx_peers_deleted_at;
     DROP INDEX IF EXISTS idx_contacts_deleted_at;

     CREATE TABLE new_contacts (
         id TEXT PRIMARY KEY,
         name TEXT NOT NULL,
         created_at TEXT NOT NULL,
         updated_at TEXT NOT NULL
     );
     INSERT INTO new_contacts SELECT id, name, created_at, updated_at FROM contacts;
     DROP TABLE contacts;
     ALTER TABLE new_contacts RENAME TO contacts;

     CREATE TABLE new_peers (
         id TEXT PRIMARY KEY,
         peer_id TEXT NOT NULL,
         contact_id TEXT NOT NULL,
         name TEXT NOT NULL,
         is_active BOOLEAN NOT NULL,
         created_at TEXT NOT NULL,
         updated_at TEXT NOT NULL,
         FOREIGN KEY (contact_id) REFERENCES contacts(id) ON DELETE CASCADE
     );
     INSERT INTO new_peers SELECT id, peer_id, contact_id, name, is_active, created_at, updated_at FROM peers;
     DROP TABLE peers;
     ALTER TABLE new_peers RENAME TO peers;
     CREATE UNIQUE INDEX idx_peers_peer_id ON peers(peer_id);";

pub const RESTRICT_TO_CONTACTS_UP_1: &'static str =
    "CREATE TABLE new_filerequests (
         id TEXT PRIMARY KEY,
         title TEXT NOT NULL,
         description TEXT,
         created_at TEXT NOT NULL,
         updated_at TEXT NOT NULL,
         status TEXT CHECK (status IN ('active', 'paused')) NOT NULL DEFAULT 'active',
         access_type TEXT CHECK (access_type IN ('public', 'audience')) NOT NULL DEFAULT 'audience'
     );

     -- Create new audience table referencing new filerequests table
     CREATE TABLE new_filerequest_audience (
         filerequest_id TEXT NOT NULL,
         contact_id TEXT NOT NULL,
         created_at TEXT NOT NULL,
         PRIMARY KEY (filerequest_id, contact_id),
         FOREIGN KEY (filerequest_id) REFERENCES new_filerequests(id) ON DELETE CASCADE,
         FOREIGN KEY (contact_id) REFERENCES contacts(id) ON DELETE CASCADE
     );

     -- Create new received_files table referencing new filerequests table
     CREATE TABLE new_received_files (
         id TEXT PRIMARY KEY,
         peer_id TEXT NOT NULL,
         filerequest_id TEXT NOT NULL,
         file_name TEXT NOT NULL,
         file_path TEXT NOT NULL,
         size INTEGER NOT NULL,
         received_at_ms INTEGER NOT NULL,
         contact_id TEXT NOT NULL,
         FOREIGN KEY(contact_id) REFERENCES contacts(id),
         FOREIGN KEY(peer_id) REFERENCES peers(id),
         FOREIGN KEY(filerequest_id) REFERENCES new_filerequests(id)
     );";

pub const RESTRICT_TO_CONTACTS_UP_2: &'static str =
    "INSERT INTO new_filerequests
     SELECT id, title, description, created_at, updated_at, status,
            CASE WHEN access_type IN ('public', 'audience')
                 THEN access_type
                 ELSE 'audience'
            END
     FROM filerequests;

     INSERT INTO new_filerequest_audience
     SELECT filerequest_id, peer_id, created_at
     FROM filerequest_audience;

     INSERT INTO new_received_files
     SELECT * FROM received_files;";

pub const RESTRICT_TO_CONTACTS_UP_3: &'static str =
    "DROP TABLE received_files;
     DROP TABLE filerequest_audience;
     DROP TABLE filerequests;

     ALTER TABLE new_filerequests RENAME TO filerequests;
     ALTER TABLE new_filerequest_audience RENAME TO filerequest_audience;
     ALTER TABLE new_received_files RENAME TO received_files;";

pub const RESTRICT_TO_CONTACTS_DOWN_1: &'static str =
    "CREATE TABLE new_filerequests (
         id TEXT PRIMARY KEY,
         title TEXT NOT NULL,
         description TEXT,
         created_at TEXT NOT NULL,
         updated_at TEXT NOT NULL,
         status TEXT CHECK (status IN ('active', 'paused')) NOT NULL DEFAULT 'active',
         access_type TEXT NOT NULL
     );

     CREATE TABLE new_filerequest_audience (
         filerequest_id TEXT NOT NULL,
         peer_id TEXT NOT NULL,
         created_at TEXT NOT NULL,
         PRIMARY KEY (filerequest_id, peer_id),
         FOREIGN KEY (filerequest_id) REFERENCES new_filerequests(id) ON DELETE CASCADE
     );

     CREATE TABLE new_received_files (
         id TEXT PRIMARY KEY,
         peer_id TEXT NOT NULL,
         filerequest_id TEXT NOT NULL,
         file_name TEXT NOT NULL,
         file_path TEXT NOT NULL,
         size INTEGER NOT NULL,
         received_at_ms INTEGER NOT NULL,
         contact_id TEXT NOT NULL,
         FOREIGN KEY(contact_id) REFERENCES contacts(id),
         FOREIGN KEY(peer_id) REFERENCES peers(id),
         FOREIGN KEY(filerequest_id) REFERENCES new_filerequests(id)
     );";

pub const RESTRICT_TO_CONTACTS_DOWN_2: &'static str =
    "INSERT INTO new_filerequests SELECT * FROM filerequests;

     INSERT INTO new_filerequest_audience (filerequest_id, peer_id, created_at)
     SELECT filerequest_id, contact_id, created_at FROM filerequest_audience;

     INSERT INTO new_received_files SELECT * FROM received_files;";

pub const RECEIVE_FROM_PEERS_UP: &'static str =
    "CREATE TABLE new_received_files (
         id TEXT PRIMARY KEY,
         peer_id TEXT NOT NULL,
         filerequest_id TEXT NOT NULL,
         file_name TEXT NOT NULL,
         file_path TEXT NOT NULL,
         size INTEGER NOT NULL,
         received_at_ms INTEGER NOT NULL,
         FOREIGN KEY(filerequest_id) REFERENCES filerequests(id)
     );

     -- Copy existing records, getting original libp2p peer_id from peers table
     INSERT INTO new_received_files (id, peer_id, filerequest_id, file_name, file_path, size, received_at_ms)
     SELECT r.id, p.peer_id, r.filerequest_id, r.file_name, r.file_path, r.size, r.received_at_ms
     FROM received_files r
     JOIN peers p ON r.peer_id = p.id;

     -- Drop old table and rename new one
     DROP TABLE received_files;
     ALTER TABLE new_received_files RENAME TO received_files;";

pub const RECEIVE_FROM_PEERS_DOWN: &'static str =
    "CREATE TABLE new_received_files (
         id TEXT PRIMARY KEY,
         peer_id TEXT NOT NULL,
         filerequest_id TEXT NOT NULL,
         file_name TEXT NOT NULL,
         file_path TEXT NOT NULL,
         size INTEGER NOT NULL,
         received_at_ms INTEGER NOT NULL,
         contact_id TEXT NOT NULL,
         FOREIGN KEY(contact_id) REFERENCES contacts(id),
         FOREIGN KEY(peer_id) REFERENCES peers(id),
         FOREIGN KEY(filerequest_id) REFERENCES filerequests(id)
     );

     -- We'll lose some data on downgrade as we can't reliably reconstruct the relationships
     -- Copy only records where we can find matching peers
     INSERT INTO new_received_files (id, peer_id, filerequest_id, file_name, file_path, size, received_at_ms, contact_id)
     SELECT r.id, p.id, r.filerequest_id, r.file_name, r.file_path, r.size, r.received_at_ms, p.contact_id
     FROM received_files r
     JOIN peers p ON r.peer_id = p.peer_id;

     -- Drop old table and rename new one
     DROP TABLE received_files;
     ALTER TABLE new_received_files RENAME TO received_files;";

pub const CASCADE_DELETION_UP: &'static str =
    "PRAGMA foreign_keys=OFF;

     -- Update received_files
     CREATE TABLE received_files_new (
         id            TEXT PRIMARY KEY,
         peer_id       TEXT NOT NULL,
         filerequest_id TEXT NOT NULL,
         file_name     TEXT NOT NULL,
         file_path     TEXT NOT NULL,
         size          INTEGER NOT NULL,
         received_at_ms INTEGER NOT NULL,
         FOREIGN KEY(filerequest_id) REFERENCES filerequests(id) ON DELETE CASCADE
     );

     INSERT INTO received_files_new
     SELECT id, peer_id, filerequest_id, file_name, file_path, size, received_at_ms
     FROM received_files;

     DROP TABLE received_files;
     ALTER TABLE received_files_new RENAME TO received_files;

     -- Update pending_files
     CREATE TABLE pending_files_new (
         id TEXT PRIMARY KEY,
         file_path TEXT NOT NULL,
         target_filerequest_id TEXT NOT NULL,
         status TEXT CHECK (status IN ('Pending', 'Sending', 'Sent', 'Rejected', 'Failed')) NOT NULL DEFAULT 'Pending',
         created_at TEXT NOT NULL,
         FOREIGN KEY(target_filerequest_id) REFERENCES remote_filerequests(id) ON DELETE CASCADE
     );

     INSERT INTO pending_files_new
     SELECT id, file_path, target_filerequest_id, status, created_at
     FROM pending_files;

     DROP TABLE pending_files;
     ALTER TABLE pending_files_new RENAME TO pending_files;

     PRAGMA foreign_keys=ON;";

pub const CASCADE_DELETION_DOWN: &'static str =
    "PRAGMA foreign_keys=OFF;

     -- Revert received_files
     CREATE TABLE received_files_new (
         id            TEXT PRIMARY KEY,
         peer_id       TEXT NOT NULL,
         filerequest_id TEXT NOT NULL,
         file_name     TEXT NOT NULL,
         file_path     TEXT NOT NULL,
         size          INTEGER NOT NULL,
         received_at_ms INTEGER NOT NULL,
         FOREIGN KEY(filerequest_id) REFERENCES filerequests(id)
     );

     INSERT INTO received_files_new
     SELECT id, peer_id, filerequest_id, file_name, file_path, size, received_at_ms
     FROM received_files;

     DROP TABLE received_files;
     ALTER TABLE received_files_new RENAME TO received_files;

     -- Revert pending_files
     CREATE TABLE pending_files_new (
         id TEXT PRIMARY KEY,
         file_path TEXT NOT NULL,
         target_filerequest_id TEXT NOT NULL,
         status TEXT CHECK (status IN ('Pending', 'Sending', 'Sent', 'Rejected', 'Failed')) NOT NULL DEFAULT 'Pending',
         created_at TEXT NOT NULL,
         FOREIGN KEY(target_filerequest_id) REFERENCES remote_filerequests(id)
     );

     INSERT INTO pending_files_new
     SELECT id, file_path, target_filerequest_id, status, created_at
     FROM pending_files;

     DROP TABLE pending_files;
     ALTER TABLE pending_files_new RENAME TO pending_files;

     PRAGMA foreign_keys=ON;";

pub const DROP_PEER_ACTIVITY_UP: &'static str =
    "PRAGMA foreign_keys=OFF;
     CREATE TABLE new_peers (
         id TEXT PRIMARY KEY,
         peer_id TEXT NOT NULL,
         contact_id TEXT NOT NULL,
         name TEXT NOT NULL,
         created_at TEXT NOT NULL,
         updated_at TEXT NOT NULL,
         FOREIGN KEY(contact_id) REFERENCES contacts(id) ON DELETE CASCADE
     );
     INSERT INTO new_peers (id, peer_id, contact_id, name, created_at, updated_at)
     SELECT id, peer_id, contact_id, name, created_at, updated_at FROM peers;
     DROP TABLE peers;
     ALTER TABLE new_peers RENAME TO peers;
     PRAGMA foreign_keys=ON;";

pub const DROP_PEER_ACTIVITY_DOWN: &'static str =
    "PRAGMA foreign_keys=OFF;
     CREATE TABLE new_peers (
         id TEXT PRIMARY KEY,
         peer_id TEXT NOT NULL,
         contact_id TEXT NOT NULL,
         name TEXT NOT NULL,
         is_active BOOLEAN NOT NULL DEFAULT 0,
         created_at TEXT NOT NULL,
         updated_at TEXT NOT NULL,
         FOREIGN KEY(contact_id) REFERENCES contacts(id) ON DELETE CASCADE
     );
     INSERT INTO new_peers (id, peer_id, contact_id, name, is_active, created_at, updated_at)
     SELECT id, peer_id, contact_id, name, 0, created_at, updated_at FROM peers;
     DROP TABLE peers;
     ALTER TABLE new_peers RENAME TO peers;
     PRAGMA foreign_keys=ON;";

pub const KEEP_SELF_CONTACT_UP: &'static str =
    "CREATE TABLE IF NOT EXISTS self_contact (
        data BLOB NOT NULL,
        schema_version TEXT NOT NULL
     );";

pub const KEEP_SELF_CONTACT_DOWN: &'static str = "DROP TABLE IF EXISTS self_contact;";

pub const KEEP_KEYS_UP_1: &'static str =
    "DROP TABLE IF EXISTS remote_filerequests;

      CREATE TABLE remote_filerequests (
         id TEXT PRIMARY KEY,
         peer_id TEXT NOT NULL,
         filerequest_id TEXT NOT NULL,
         name TEXT NOT NULL,
         created_at TEXT NOT NULL,
         requires_authentication BOOLEAN DEFAULT 1,
         contact_id TEXT NOT NULL
     );";

pub const KEEP_KEYS_UP_2: &'static str =
    "DROP TABLE IF EXISTS self_contact;

     CREATE TABLE self_contact (
        id INTEGER PRIMARY KEY CHECK (id = 1),
        contact_id TEXT NOT NULL,
        name TEXT NOT NULL,
        dilithium_private_key BLOB,
        dilithium_public_key BLOB,
        ed25519_private_key BLOB,
        ed25519_public_key BLOB
     );";

pub const KEEP_KEYS_UP_3: &'static str =
    "ALTER TABLE contacts ADD COLUMN dilithium_public_key BLOB;
     ALTER TABLE contacts ADD COLUMN ed25519_public_key BLOB;";

pub const KEEP_KEYS_DOWN_1: &'static str =
    "DROP TABLE IF EXISTS remote_filerequests;

     CREATE TABLE remote_filerequests (
        id TEXT PRIMARY KEY,
        peer_id TEXT NOT NULL,
        filerequest_id TEXT NOT NULL,
        name TEXT NOT NULL,
        created_at TEXT NOT NULL
     );";

pub const KEEP_KEYS_DOWN_2: &'static str =
    "CREATE TABLE node_keys_old AS
     SELECT id, key_bytes FROM node_keys;
     DROP TABLE node_keys;
     ALTER TABLE node_keys_old RENAME TO node_keys;";

pub const KEEP_KEYS_DOWN_3: &'static str =
    "CREATE TABLE contacts_old AS
     SELECT id, name, created_at, updated_at FROM contacts;
     DROP TABLE contacts;
     ALTER TABLE contacts_old RENAME TO contacts;";

pub const KEEP_KEYS_DOWN_4: &'static str =
    "DROP TABLE IF EXISTS self_contact;

     CREATE TABLE self_contact (
        data BLOB NOT NULL,
        schema_version TEXT NOT NULL
     );";

pub const RECEIVE_FROM_CONTACTS_UP_1: &'static str =
    "CREATE TABLE received_files_new (
         id TEXT PRIMARY KEY,
         contact_id TEXT NOT NULL,
         filerequest_id TEXT NOT NULL,
         file_name TEXT NOT NULL,
         file_path TEXT NOT NULL,
         size INTEGER NOT NULL,
         received_at_ms INTEGER NOT NULL,
         verified_sender BOOLEAN NOT NULL DEFAULT 0,
         FOREIGN KEY(filerequest_id) REFERENCES filerequests(id) ON DELETE CASCADE
     );";

pub const RECEIVE_FROM_CONTACTS_UP_2: &'static str = "DROP TABLE received_files";

pub const RECEIVE_FROM_CONTACTS_UP_3: &'static str =
    "ALTER TABLE received_files_new RENAME TO received_files";

pub const RECEIVE_FROM_CONTACTS_DOWN_1: &'static str =
    "CREATE TABLE received_files_new (
         id TEXT PRIMARY KEY,
         peer_id TEXT NOT NULL,
         filerequest_id TEXT NOT NULL,
         file_name TEXT NOT NULL,
         file_path TEXT NOT NULL,
         size INTEGER NOT NULL,
         received_at_ms INTEGER NOT NULL,
         FOREIGN KEY(filerequest_id) REFERENCES filerequests(id) ON DELETE CASCADE
     );";

pub const DROP_PEERS_UP_1: &'static str = "DROP TABLE IF EXISTS peers";

pub const DROP_PEERS_DOWN: &'static str =
    "CREATE TABLE IF NOT EXISTS peers (
         id TEXT PRIMARY KEY,
         peer_id TEXT NOT NULL,
         contact_id TEXT NOT NULL,
         name TEXT NOT NULL,
         created_at TEXT NOT NULL,
         updated_at TEXT NOT NULL,
         FOREIGN KEY (contact_id) REFERENCES contacts(id) ON DELETE CASCADE
     );

     CREATE UNIQUE INDEX IF NOT EXISTS idx_peers_peer_id ON peers(peer_id);";

pub const DROP_AUTHENTICATION_UP: &'static str =
    "CREATE TABLE remote_filerequests_new (
         id TEXT PRIMARY KEY,
         peer_id TEXT NOT NULL,
         filerequest_id TEXT NOT NULL,
         name TEXT NOT NULL,
         created_at TEXT NOT NULL,
         contact_id TEXT NOT NULL
     );

     -- Copy data, excluding requires_authentication
     INSERT INTO remote_filerequests_new (id, peer_id, filerequest_id, name, created_at, contact_id)
     SELECT id, peer_id, filerequest_id, name, created_at, contact_id
     FROM remote_filerequests;

     -- Replace old table
     DROP TABLE remote_filerequests;
     ALTER TABLE remote_filerequests_new RENAME TO remote_filerequests;";

pub const DROP_AUTHENTICATION_DOWN: &'static str =
    "CREATE TABLE remote_filerequests_new (
         id TEXT PRIMARY KEY,
         peer_id TEXT NOT NULL,
         filerequest_id TEXT NOT NULL,
         name TEXT NOT NULL,
         created_at TEXT NOT NULL,
         requires_authentication BOOLEAN DEFAULT 1,
         contact_id TEXT NOT NULL
     );

     -- Copy data, adding default requires_authentication value (1/true)
     INSERT INTO remote_filerequests_new (id, peer_id, filerequest_id, name, created_at, requires_authentication, contact_id)
     SELECT id, peer_id, filerequest_id, name, created_at, 1, contact_id
     FROM remote_filerequests;

     -- Replace old table
     DROP TABLE remote_filerequests;
     ALTER TABLE remote_filerequests_new RENAME TO remote_filerequests;";

pub const RECEIVE_FROM_STRANGERS_UP_1: &'static str =
    "CREATE TABLE received_files_new (
         id            TEXT PRIMARY KEY,
         contact_id    TEXT,
         filerequest_id TEXT NOT NULL,
         file_name     TEXT NOT NULL,
         file_path     TEXT NOT NULL,
         size          INTEGER NOT NULL,
         received_at_ms INTEGER NOT NULL,
         FOREIGN KEY(filerequest_id) REFERENCES filerequests(id) ON DELETE CASCADE
     )";

pub const RECEIVE_FROM_STRANGERS_UP_2: &'static str =
    "INSERT INTO received_files_new (id, contact_id, filerequest_id, file_name, file_path, size, received_at_ms)
     SELECT id, contact_id, filerequest_id, file_name, file_path, size, received_at_ms
     FROM received_files";

pub const RECEIVE_FROM_STRANGERS_DOWN_1: &'static str =
    "CREATE TABLE received_files_new (
         id            TEXT PRIMARY KEY,
         contact_id    TEXT NOT NULL,
         filerequest_id TEXT NOT NULL,
         file_name     TEXT NOT NULL,
         file_path     TEXT NOT NULL,
         size          INTEGER NOT NULL,
         received_at_ms INTEGER NOT NULL,
         verified_sender BOOLEAN NOT NULL DEFAULT 0,
         FOREIGN KEY(filerequest_id) REFERENCES filerequests(id) ON DELETE CASCADE
     )";

pub const RECEIVE_FROM_STRANGERS_DOWN_2: &'static str =
    "INSERT INTO received_files_new (id, contact_id, filerequest_id, file_name, file_path, size, received_at_ms, verified_sender)
     SELECT id, contact_id, filerequest_id, file_name, file_path, size, received_at_ms, 0
     FROM received_files";

pub const KEEP_SETTINGS_UP: &'static str =
    "CREATE TABLE IF NOT EXISTS settings (
         id INTEGER PRIMARY KEY CHECK (id = 1),
         data BLOB NOT NULL DEFAULT X'',
         version TEXT NOT NULL DEFAULT '0.0.0'
     );

     INSERT OR IGNORE INTO settings (id, data, version) VALUES (1, X'', '0.0.0');";

pub const KEEP_SETTINGS_DOWN: &'static str = "DROP TABLE IF EXISTS settings";

pub const FOLLOW_TRANSFERS_UP_1: &'static str =
    "CREATE TABLE pending_files_new (
         id TEXT PRIMARY KEY,
         file_path TEXT NOT NULL,
         target_filerequest_id TEXT NOT NULL,
         status TEXT NOT NULL DEFAULT 'Pending'
             CHECK (status IN ('Pending', 'Sending', 'Interrupted', 'Sent', 'Rejected', 'Failed')),
         retry_count INTEGER NOT NULL DEFAULT 0,
         progress_bytes INTEGER,
         file_size_bytes INTEGER,
         transfer_id TEXT,
         created_at TEXT NOT NULL,
         FOREIGN KEY(target_filerequest_id) REFERENCES remote_filerequests(id) ON DELETE CASCADE,

         CHECK (
             -- Pending: no transfer data
             (status = 'Pending'
                 AND progress_bytes IS NULL
                 AND file_size_bytes IS NULL
                 AND transfer_id IS NULL)
             OR
             -- Sending/Interrupted: transfer data required
             (status IN ('Prepared', 'Sending', 'Interrupted')
                 AND progress_bytes IS NOT NULL
                 AND progress_bytes >= 0
                 AND file_size_bytes IS NOT NULL
                 AND file_size_bytes >= 0
                 AND transfer_id IS NOT NULL)
             OR
             -- Sent: terminal success, no transfer data needed
             (status = 'Sent'
                 AND progress_bytes IS NULL
                 AND file_size_bytes IS NULL
                 AND transfer_id IS NULL)
             OR
             -- Rejected: terminal, no transfer data needed
             (status = 'Rejected'
                 AND progress_bytes IS NULL
                 AND file_size_bytes IS NULL
                 AND transfer_id IS NULL)
             OR
             -- Failed: terminal, no transfer data needed
             (status = 'Failed'
                 AND progress_bytes IS NULL
                 AND file_size_bytes IS NULL
                 AND transfer_id IS NULL)
         )
     );";

pub const FOLLOW_TRANSFERS_UP_2: &'static str =
    "INSERT INTO pending_files_new (id, file_path, target_filerequest_id, status, retry_count, progress_bytes, file_size_bytes, transfer_id, created_at)
     SELECT id, file_path, target_filerequest_id,
            CASE WHEN status = 'Sending' THEN 'Pending' ELSE status END,
            0,
            NULL,
            NULL,
            NULL,
            created_at
     FROM pending_files;

     DROP TABLE pending_files;
     ALTER TABLE pending_files_new RENAME TO pending_files;";

pub const FOLLOW_TRANSFERS_UP_3: &'static str =
    "CREATE TABLE received_files_new (
         id              TEXT PRIMARY KEY,
         contact_id      TEXT,
         filerequest_id  TEXT NOT NULL,
         transfer_id     TEXT UNIQUE,
         file_name       TEXT NOT NULL,
         file_path       TEXT,
         file_size_bytes INTEGER NOT NULL,
         progress_bytes  INTEGER NOT NULL DEFAULT 0,
         status          TEXT NOT NULL DEFAULT 'Receiving'
             CHECK (status IN ('Receiving', 'Interrupted', 'Completed', 'Failed')),
         received_at_ms  INTEGER,
         FOREIGN KEY(filerequest_id) REFERENCES filerequests(id) ON DELETE CASCADE
     );";

pub const FOLLOW_TRANSFERS_UP_4: &'static str =
    "INSERT INTO received_files_new (id, contact_id, filerequest_id, transfer_id, file_name, file_path, file_size_bytes, progress_bytes, status, received_at_ms)
     SELECT id, contact_id, filerequest_id, NULL, file_name, file_path, size, size, 'Completed', received_at_ms
     FROM received_files;

     DROP TABLE received_files;
     ALTER TABLE received_files_new RENAME TO received_files;";

pub const FOLLOW_TRANSFERS_DOWN_1: &'static str =
    "CREATE TABLE received_files_old (
         id            TEXT PRIMARY KEY,
         contact_id    TEXT,
         filerequest_id TEXT NOT NULL,
         file_name     TEXT NOT NULL,
         file_path     TEXT NOT NULL,
         size          INTEGER NOT NULL,
         received_at_ms INTEGER NOT NULL,
         FOREIGN KEY(filerequest_id) REFERENCES filerequests(id) ON DELETE CASCADE
     );

     INSERT INTO received_files_old (id, contact_id, filerequest_id, file_name, file_path, size, received_at_ms)
     SELECT id, contact_id, filerequest_id, file_name, file_path, file_size_bytes, received_at_ms
     FROM received_files
     WHERE status = 'Completed' AND file_path IS NOT NULL AND received_at_ms IS NOT NULL;

     DROP TABLE received_files;
     ALTER TABLE received_files_old RENAME TO received_files;";

pub const FOLLOW_TRANSFERS_DOWN_2: &'static str =
    "CREATE TABLE pending_files_old (
         id TEXT PRIMARY KEY,
         file_path TEXT NOT NULL,
         target_filerequest_id TEXT NOT NULL,
         status TEXT CHECK (status IN ('Pending', 'Sending', 'Sent', 'Rejected', 'Failed')) NOT NULL DEFAULT 'Pending',
         created_at TEXT NOT NULL,
         FOREIGN KEY(target_filerequest_id) REFERENCES remote_filerequests(id) ON DELETE CASCADE
     );

     INSERT INTO pending_files_old (id, file_path, target_filerequest_id, status, created_at)
     SELECT id, file_path, target_filerequest_id,
            CASE
                WHEN status IN ('Prepared', 'Interrupted') THEN 'Pending'
                ELSE status
            END,
            created_at
     FROM pending_files;

     DROP TABLE pending_files;
     ALTER TABLE pending_files_old RENAME TO pending_files;";

pub const SHOW_NAMES_UP: &'static str = "ALTER TABLE pending_files ADD COLUMN display_name TEXT";

pub const SHOW_NAMES_DOWN: &'static str = "ALTER TABLE pending_files DROP COLUMN display_name";

pub const KEEP_FINISHED_TRANSFERS_UP: &'static str =
    "CREATE TABLE pending_files_new (
         id TEXT PRIMARY KEY,
         file_path TEXT NOT NULL,
         target_filerequest_id TEXT NOT NULL,
         status TEXT NOT NULL DEFAULT 'Pending'
             CHECK (status IN ('Pending', 'Sending', 'Interrupted', 'Sent', 'Rejected', 'Failed')),
         retry_count INTEGER NOT NULL DEFAULT 0,
         progress_bytes INTEGER,
         file_size_bytes INTEGER,
         transfer_id TEXT,
         display_name TEXT,
         created_at TEXT NOT NULL,
         FOREIGN KEY(target_filerequest_id) REFERENCES remote_filerequests(id) ON DELETE CASCADE,

         CHECK (
             -- Pending: no transfer data
             (status = 'Pending'
                 AND progress_bytes IS NULL AND file_size_bytes IS NULL AND transfer_id IS NULL)
             OR
             -- Sending/Interrupted: transfer data required
             (status IN ('Sending', 'Interrupted')
                 AND progress_bytes IS NOT NULL AND progress_bytes >= 0
                 AND file_size_bytes IS NOT NULL AND file_size_bytes >= 0
                 AND transfer_id IS NOT NULL)
             OR
             -- Terminal states: transfer metadata is optional (preserved for diagnostics)
             (status IN ('Sent', 'Rejected', 'Failed'))
         )
     );

     INSERT INTO pending_files_new (id, file_path, target_filerequest_id, status, retry_count, progress_bytes, file_size_bytes, transfer_id, display_name, created_at)
     SELECT id, file_path, target_filerequest_id, status, retry_count, progress_bytes, file_size_bytes, transfer_id, display_name, created_at
     FROM pending_files;

     DROP TABLE pending_files;
     ALTER TABLE pending_files_new RENAME TO pending_files;";

pub const KEEP_FINISHED_TRANSFERS_DOWN: &'static str =
    "UPDATE pending_files SET progress_bytes = NULL, file_size_bytes = NULL, transfer_id = NULL
      WHERE status IN ('Sent', 'Rejected', 'Failed');

     CREATE TABLE pending_files_old (
         id TEXT PRIMARY KEY,
         file_path TEXT NOT NULL,
         target_filerequest_id TEXT NOT NULL,
         status TEXT NOT NULL DEFAULT 'Pending'
             CHECK (status IN ('Pending', 'Sending', 'Interrupted', 'Sent', 'Rejected', 'Failed')),
         retry_count INTEGER NOT NULL DEFAULT 0,
         progress_bytes INTEGER,
         file_size_bytes INTEGER,
         transfer_id TEXT,
         display_name TEXT,
         created_at TEXT NOT NULL,
         FOREIGN KEY(target_filerequest_id) REFERENCES remote_filerequests(id) ON DELETE CASCADE,

         CHECK (
             (status = 'Pending'
                 AND progress_bytes IS NULL AND file_size_bytes IS NULL AND transfer_id IS NULL)
             OR
             (status IN ('Sending', 'Interrupted')
                 AND progress_bytes IS NOT NULL AND progress_bytes >= 0
                 AND file_size_bytes IS NOT NULL AND file_size_bytes >= 0
                 AND transfer_id IS NOT NULL)
             OR
             (status = 'Sent'
                 AND progress_bytes IS NULL AND file_size_bytes IS NULL AND transfer_id IS NULL)
             OR
             (status = 'Rejected'
                 AND progress_bytes IS NULL AND file_size_bytes IS NULL AND transfer_id IS NULL)
             OR
             (status = 'Failed'
                 AND progress_bytes IS NULL AND file_size_bytes IS NULL AND transfer_id IS NULL)
         )
     );

     INSERT INTO pending_files_old (id, file_path, target_filerequest_id, status, retry_count, progress_bytes, file_size_bytes, transfer_id, display_name, created_at)
     SELECT id, file_path, target_filerequest_id, status, retry_count, progress_bytes, file_size_bytes, transfer_id, display_name, created_at
     FROM pending_files;

     DROP TABLE pending_files;
     ALTER TABLE pending_files_old RENAME TO pending_files;";

pub const KEEP_INTERRUPTIONS_UP: &'static str =
    "ALTER TABLE pending_files ADD COLUMN interruption_reasons TEXT NOT NULL DEFAULT '[]';";

pub const KEEP_INTERRUPTIONS_DOWN: &'static str =
    "CREATE TABLE pending_files_old (
         id TEXT PRIMARY KEY,
         file_path TEXT NOT NULL,
         target_filerequest_id TEXT NOT NULL,
         status TEXT NOT NULL DEFAULT 'Pending'
             CHECK (status IN ('Pending', 'Sending', 'Interrupted', 'Sent', 'Rejected', 'Failed')),
         retry_count INTEGER NOT NULL DEFAULT 0,
         progress_bytes INTEGER,
         file_size_bytes INTEGER,
         transfer_id TEXT,
         display_name TEXT,
         created_at TEXT NOT NULL,
         FOREIGN KEY(target_filerequest_id) REFERENCES remote_filerequests(id) ON DELETE CASCADE,

         CHECK (
             -- Pending: no transfer data
             (status = 'Pending'
                 AND progress_bytes IS NULL AND file_size_bytes IS NULL AND transfer_id IS NULL)
             OR
             -- Sending/Interrupted: transfer data required
             (status IN ('Sending', 'Interrupted')
                 AND progress_bytes IS NOT NULL AND progress_bytes >= 0
                 AND file_size_bytes IS NOT NULL AND file_size_bytes >= 0
                 AND transfer_id IS NOT NULL)
             OR
             -- Terminal states: transfer metadata is optional (preserved for diagnostics)
             (status IN ('Sent', 'Rejected', 'Failed'))
         )
     );

     INSERT INTO pending_files_old (id, file_path, target_filerequest_id, status, retry_count, progress_bytes, file_size_bytes, transfer_id, display_name, created_at)
     SELECT id, file_path, target_filerequest_id, status, retry_count, progress_bytes, file_size_bytes, transfer_id, display_name, created_at
     FROM pending_files;

     DROP TABLE pending_files;
     ALTER TABLE pending_files_old RENAME TO pending_files;";

pub const KEEP_START_UP: &'static str =
    "ALTER TABLE received_files ADD COLUMN started_at_ms INTEGER NOT NULL DEFAULT 0;";

pub const KEEP_START_DOWN: &'static str =
    "CREATE TABLE received_files_old (
         id              TEXT PRIMARY KEY,
         contact_id      TEXT,
         filerequest_id  TEXT NOT NULL,
         transfer_id     TEXT UNIQUE,
         file_name       TEXT NOT NULL,
         file_path       TEXT,
         file_size_bytes INTEGER NOT NULL,
         progress_bytes  INTEGER NOT NULL DEFAULT 0,
         status          TEXT NOT NULL DEFAULT 'Receiving'
             CHECK (status IN ('Receiving', 'Interrupted', 'Completed', 'Failed')),
         received_at_ms  INTEGER,
         FOREIGN KEY(filerequest_id) REFERENCES filerequests(id) ON DELETE CASCADE
     );

     INSERT INTO received_files_old (id, contact_id, filerequest_id, transfer_id, file_name, file_path, file_size_bytes, progress_bytes, status, received_at_ms)
     SELECT id, contact_id, filerequest_id, transfer_id, file_name, file_path, file_size_bytes, progress_bytes, status, received_at_ms
     FROM received_files;

     DROP TABLE received_files;
     ALTER TABLE received_files_old RENAME TO received_files;";

pub const KEEP_PEER_UP: &'static str =
    "ALTER TABLE received_files ADD COLUMN peer_id TEXT NOT NULL DEFAULT '';";

pub const KEEP_PEER_DOWN: &'static str =
    "CREATE TABLE received_files_old (
         id              TEXT PRIMARY KEY,
         contact_id      TEXT,
         filerequest_id  TEXT NOT NULL,
         transfer_id     TEXT UNIQUE,
         file_name       TEXT NOT NULL,
         file_path       TEXT,
         file_size_bytes INTEGER NOT NULL,
         progress_bytes  INTEGER NOT NULL DEFAULT 0,
         status          TEXT NOT NULL DEFAULT 'Receiving'
             CHECK (status IN ('Receiving', 'Interrupted', 'Completed', 'Failed')),
         started_at_ms   INTEGER NOT NULL DEFAULT 0,
         received_at_ms  INTEGER,
         FOREIGN KEY(filerequest_id) REFERENCES filerequests(id) ON DELETE CASCADE
     );

     INSERT INTO received_files_old (id, contact_id, filerequest_id, transfer_id, file_name, file_path, file_size_bytes, progress_bytes, status, started_at_ms, received_at_ms)
     SELECT id, contact_id, filerequest_id, transfer_id, file_name, file_path, file_size_bytes, progress_bytes, status, started_at_ms, received_at_ms
     FROM received_files;

     DROP TABLE received_files;
     ALTER TABLE received_files_old RENAME TO received_files;";

/// Add name to remote_filerequests.
pub open spec fn name_remote_filerequests() -> crate::sqlite::migrations::MigrationView {
    crate::sqlite::migrations::MigrationView {
        applies_to_version: crate::sqlite::migrations::release(1, 0, 0),
        target_version: crate::sqlite::migrations::release(1, 1, 0),
        description: "Add name to remote_filerequests"@,
        up: crate::sqlite::migrations::ScriptView::empty().run(NAME_REMOTE_FILEREQUESTS_UP_1@).run(NAME_REMOTE_FILEREQUESTS_UP_2@).run(NAME_REMOTE_FILEREQUESTS_UP_3@),
        down: crate::sqlite::migrations::ScriptView::empty().run(NAME_REMOTE_FILEREQUESTS_DOWN@),
    }
}

fn migration_to_name_remote_filerequests() -> (r: Migration)
    ensures
        r@ == name_remote_filerequests(),
{
    Migration::new(
        Version::new(1, 0, 0),
        Version::new(1, 1, 0),
        "Add name to remote_filerequests",
        Script::new().run(NAME_REMOTE_FILEREQUESTS_UP_1).run(NAME_REMOTE_FILEREQUESTS_UP_2).run(NAME_REMOTE_FILEREQUESTS_UP_3),
        Script::new().run(NAME_REMOTE_FILEREQUESTS_DOWN),
    )
}

/// Replace multiaddr with name in peers table.
pub open spec fn name_peers() -> crate::sqlite::migrations::MigrationView {
    crate::sqlite::migrations::MigrationView {
        applies_to_version: crate::sqlite::migrations::release(1, 1, 0),
        target_version: crate::sqlite::migrations::release(1, 2, 0),
        description: "Replace multiaddr with name in peers table"@,
        up: crate::sqlite::migrations::ScriptView::empty().run(NAME_PEERS_UP@),
        down: crate::sqlite::migrations::ScriptView::empty().run(NAME_PEERS_DOWN@),
    }
}

fn migration_to_name_peers() -> (r: Migration)
    ensures
        r@ == name_peers(),
{
    Migration::new(
        Version::new(1, 1, 0),
        Version::new(1, 2, 0),
        "Replace multiaddr with name in peers table",
        Script::new().run(NAME_PEERS_UP),
        Script::new().run(NAME_PEERS_DOWN),
    )
}

/// Add received_files table, fix peers primary key, and update remote_filerequests to use internal peer IDs.
pub open spec fn record_received_files() -> crate::sqlite::migrations::MigrationView {
    crate::sqlite::migrations::MigrationView {
        applies_to_version: crate::sqlite::migrations::release(1, 2, 0),
        target_version: crate::sqlite::migrations::release(1, 3, 0),
        description: "Add received_files table, fix peers primary key, and update remote_filerequests to use internal peer IDs"@,
        up: crate::sqlite::migrations::ScriptView::empty().run(RECORD_RECEIVED_FILES_UP_1@).run(RECORD_RECEIVED_FILES_UP_2@).run(RECORD_RECEIVED_FILES_UP_3@).run(RECORD_RECEIVED_FILES_UP_4@).data(crate::sqlite::migrations::DataStep::AssignPeers).run(RECORD_RECEIVED_FILES_UP_5@),
        down: crate::sqlite::migrations::ScriptView::empty().run(RECORD_RECEIVED_FILES_DOWN_1@).run(RECORD_RECEIVED_FILES_UP_3@).run(RECORD_RECEIVED_FILES_DOWN_2@).data(crate::sqlite::migrations::DataStep::RestorePeers).run(RECORD_RECEIVED_FILES_DOWN_3@),
    }
}

fn migration_to_record_received_files() -> (r: Migration)
    ensures
        r@ == record_received_files(),
{
    Migration::new(
        Version::new(1, 2, 0),
        Version::new(1, 3, 0),
        "Add received_files table, fix peers primary key, and update remote_filerequests to use internal peer IDs",
        Script::new().run(RECORD_RECEIVED_FILES_UP_1).run(RECORD_RECEIVED_FILES_UP_2).run(RECORD_RECEIVED_FILES_UP_3).run(RECORD_RECEIVED_FILES_UP_4).data(DataStep::AssignPeers).run(RECORD_RECEIVED_FILES_UP_5),
        Script::new().run(RECORD_RECEIVED_FILES_DOWN_1).run(RECORD_RECEIVED_FILES_UP_3).run(RECORD_RECEIVED_FILES_DOWN_2).data(DataStep::RestorePeers).run(RECORD_RECEIVED_FILES_DOWN_3),
    )
}

/// Add index on peer_id column in peers table.
pub open spec fn index_peers() -> crate::sqlite::migrations::MigrationView {
    crate::sqlite::migrations::MigrationView {
        applies_to_version: crate::sqlite::migrations::release(1, 3, 0),
        target_version: crate::sqlite::migrations::release(1, 4, 0),
        description: "Add index on peer_id column in peers table"@,
        up: crate::sqlite::migrations::ScriptView::empty().run(INDEX_PEERS_UP@),
        down: crate::sqlite::migrations::ScriptView::empty().run(INDEX_PEERS_DOWN@),
    }
}

fn migration_to_index_peers() -> (r: Migration)
    ensures
        r@ == index_peers(),
{
    Migration::new(
        Version::new(1, 3, 0),
        Version::new(1, 4, 0),
        "Add index on peer_id column in peers table",
        Script::new().run(INDEX_PEERS_UP),
        Script::new().run(INDEX_PEERS_DOWN),
    )
}

/// Add soft deletion support for contacts and peers.
pub open spec fn delete_softly() -> crate::sqlite::migrations::MigrationView {
    crate::sqlite::migrations::MigrationView {
        applies_to_version: crate::sqlite::migrations::release(1, 4, 0),
        target_version: crate::sqlite::migrations::release(1, 5, 0),
        description: "Add soft deletion support for contacts and peers"@,
        up: crate::sqlite::migrations::ScriptView::empty().run(DELETE_SOFTLY_UP@),
        down: crate::sqlite::migrations::ScriptView::empty().run(DELETE_SOFTLY_DOWN@),
    }
}

fn migration_to_delete_softly() -> (r: Migration)
    ensures
        r@ == delete_softly(),
{
    Migration::new(
        Version::new(1, 4, 0),
        Version::new(1, 5, 0),
        "Add soft deletion support for contacts and peers",
        Script::new().run(DELETE_SOFTLY_UP),
        Script::new().run(DELETE_SOFTLY_DOWN),
    )
}

/// Update filerequest access_type constraint and modify audience table to use contacts.
pub open spec fn restrict_to_contacts() -> crate::sqlite::migrations::MigrationView {
    crate::sqlite::migrations::MigrationView {
        applies_to_version: crate::sqlite::migrations::release(1, 5, 0),
        target_version: crate::sqlite::migrations::release(1, 6, 0),
        description: "Update filerequest access_type constraint and modify audience table to use contacts"@,
        up: crate::sqlite::migrations::ScriptView::empty().run(FOREIGN_KEYS_OFF@).run(LEGACY_ALTER_TABLE_ON@).run(RESTRICT_TO_CONTACTS_UP_1@).run(RESTRICT_TO_CONTACTS_UP_2@).run(RESTRICT_TO_CONTACTS_UP_3@).run(LEGACY_ALTER_TABLE_OFF@).run(FOREIGN_KEYS_ON@),
        down: crate::sqlite::migrations::ScriptView::empty().run(FOREIGN_KEYS_OFF@).run(LEGACY_ALTER_TABLE_ON@).run(RESTRICT_TO_CONTACTS_DOWN_1@).run(RESTRICT_TO_CONTACTS_DOWN_2@).run(RESTRICT_TO_CONTACTS_UP_3@).run(LEGACY_ALTER_TABLE_OFF@).run(FOREIGN_KEYS_ON@),
    }
}

fn migration_to_restrict_to_contacts() -> (r: Migration)
    ensures
        r@ == restrict_to_contacts(),
{
    Migration::new(
        Version::new(1, 5, 0),
        Version::new(1, 6, 0),
        "Update filerequest access_type constraint and modify audience table to use contacts",
        Script::new().run(FOREIGN_KEYS_OFF).run(LEGACY_ALTER_TABLE_ON).run(RESTRICT_TO_CONTACTS_UP_1).run(RESTRICT_TO_CONTACTS_UP_2).run(RESTRICT_TO_CONTACTS_UP_3).run(LEGACY_ALTER_TABLE_OFF).run(FOREIGN_KEYS_ON),
        Script::new().run(FOREIGN_KEYS_OFF).run(LEGACY_ALTER_TABLE_ON).run(RESTRICT_TO_CONTACTS_DOWN_1).run(RESTRICT_TO_CONTACTS_DOWN_2).run(RESTRICT_TO_CONTACTS_UP_3).run(LEGACY_ALTER_TABLE_OFF).run(FOREIGN_KEYS_ON),
    )
}

/// Update received_files to use libp2p peer IDs directly.
pub open spec fn receive_from_peers() -> crate::sqlite::migrations::MigrationView {
    crate::sqlite::migrations::MigrationView {
        applies_to_version: crate::sqlite::migrations::release(1, 6, 0),
        target_version: crate::sqlite::migrations::release(1, 7, 0),
        description: "Update received_files to use libp2p peer IDs directly"@,
        up: crate::sqlite::migrations::ScriptView::empty().run(RECEIVE_FROM_PEERS_UP@),
        down: crate::sqlite::migrations::ScriptView::empty().run(RECEIVE_FROM_PEERS_DOWN@),
    }
}

fn migration_to_receive_from_peers() -> (r: Migration)
    ensures
        r@ == receive_from_peers(),
{
    Migration::new(
        Version::new(1, 6, 0),
        Version::new(1, 7, 0),
        "Update received_files to use libp2p peer IDs directly",
        Script::new().run(RECEIVE_FROM_PEERS_UP),
        Script::new().run(RECEIVE_FROM_PEERS_DOWN),
    )
}

/// Add ON DELETE CASCADE to received_files and pending_files foreign keys.
pub open spec fn cascade_deletion() -> crate::sqlite::migrations::MigrationView {
    crate::sqlite::migrations::MigrationView {
        applies_to_version: crate::sqlite::migrations::release(1, 7, 0),
        target_version: crate::sqlite::migrations::release(1, 7, 1),
        description: "Add ON DELETE CASCADE to received_files and pending_files foreign keys"@,
        up: crate::sqlite::migrations::ScriptView::empty().run(CASCADE_DELETION_UP@),
        down: crate::sqlite::migrations::ScriptView::empty().run(CASCADE_DELETION_DOWN@),
    }
}

fn migration_to_cascade_deletion() -> (r: Migration)
    ensures
        r@ == cascade_deletion(),
{
    Migration::new(
        Version::new(1, 7, 0),
        Version::new(1, 7, 1),
        "Add ON DELETE CASCADE to received_files and pending_files foreign keys",
        Script::new().run(CASCADE_DELETION_UP),
        Script::new().run(CASCADE_DELETION_DOWN),
    )
}

/// Remove is_active column from peers table.
pub open spec fn drop_peer_activity() -> crate::sqlite::migrations::MigrationView {
    crate::sqlite::migrations::MigrationView {
        applies_to_version: crate::sqlite::migrations::release(1, 7, 1),
        target_version: crate::sqlite::migrations::release(1, 8, 0),
        description: "Remove is_active column from peers table"@,
        up: crate::sqlite::migrations::ScriptView::empty().run(DROP_PEER_ACTIVITY_UP@),
        down: crate::sqlite::migrations::ScriptView::empty().run(DROP_PEER_ACTIVITY_DOWN@),
    }
}

fn migration_to_drop_peer_activity() -> (r: Migration)
    ensures
        r@ == drop_peer_activity(),
{
    Migration::new(
        Version::new(1, 7, 1),
        Version::new(1, 8, 0),
        "Remove is_active column from peers table",
        Script::new().run(DROP_PEER_ACTIVITY_UP),
        Script::new().run(DROP_PEER_ACTIVITY_DOWN),
    )
}

/// Add self_contact table for storing CRDT blob.
pub open spec fn keep_self_contact() -> crate::sqlite::migrations::MigrationView {
    crate::sqlite::migrations::MigrationView {
        applies_to_version: crate::sqlite::migrations::release(1, 8, 0),
        target_version: crate::sqlite::migrations::release(1, 9, 0),
        description: "Add self_contact table for storing CRDT blob"@,
        up: crate::sqlite::migrations::ScriptView::empty().run(KEEP_SELF_CONTACT_UP@),
        down: crate::sqlite::migrations::ScriptView::empty().run(KEEP_SELF_CONTACT_DOWN@),
    }
}

fn migration_to_keep_self_contact() -> (r: Migration)
    ensures
        r@ == keep_self_contact(),
{
    Migration::new(
        Version::new(1, 8, 0),
        Version::new(1, 9, 0),
        "Add self_contact table for storing CRDT blob",
        Script::new().run(KEEP_SELF_CONTACT_UP),
        Script::new().run(KEEP_SELF_CONTACT_DOWN),
    )
}

/// Add post-quantum crypto support: extended node_keys, required contact_id in RemoteFilerequest, contact public keys.
pub open spec fn keep_keys() -> crate::sqlite::migrations::MigrationView {
    crate::sqlite::migrations::MigrationView {
        applies_to_version: crate::sqlite::migrations::release(1, 9, 0),
        target_version: crate::sqlite::migrations::release(1, 10, 0),
        description: "Add post-quantum crypto support: extended node_keys, required contact_id in RemoteFilerequest, contact public keys"@,
        up: crate::sqlite::migrations::ScriptView::empty().run(KEEP_KEYS_UP_1@).run(KEEP_KEYS_UP_2@).run(KEEP_KEYS_UP_3@),
        down: crate::sqlite::migrations::ScriptView::empty().run(KEEP_KEYS_DOWN_1@).run(KEEP_KEYS_DOWN_2@).run(KEEP_KEYS_DOWN_3@).run(KEEP_KEYS_DOWN_4@),
    }
}

fn migration_to_keep_keys() -> (r: Migration)
    ensures
        r@ == keep_keys(),
{
    Migration::new(
        Version::new(1, 9, 0),
        Version::new(1, 10, 0),
        "Add post-quantum crypto support: extended node_keys, required contact_id in RemoteFilerequest, contact public keys",
        Script::new().run(KEEP_KEYS_UP_1).run(KEEP_KEYS_UP_2).run(KEEP_KEYS_UP_3),
        Script::new().run(KEEP_KEYS_DOWN_1).run(KEEP_KEYS_DOWN_2).run(KEEP_KEYS_DOWN_3).run(KEEP_KEYS_DOWN_4),
    )
}

/// Modify received_files table to replace peer_id with contact_id and add verified_sender.
pub open spec fn receive_from_contacts() -> crate::sqlite::migrations::MigrationView {
    crate::sqlite::migrations::MigrationView {
        applies_to_version: crate::sqlite::migrations::release(1, 10, 0),
        target_version: crate::sqlite::migrations::release(1, 11, 0),
        description: "Modify received_files table to replace peer_id with contact_id and add verified_sender"@,
        up: crate::sqlite::migrations::ScriptView::empty().run(RECEIVE_FROM_CONTACTS_UP_1@).data(crate::sqlite::migrations::DataStep::AssignContacts).run(RECEIVE_FROM_CONTACTS_UP_2@).run(RECEIVE_FROM_CONTACTS_UP_3@),
        down: crate::sqlite::migrations::ScriptView::empty().run(RECEIVE_FROM_CONTACTS_DOWN_1@).data(crate::sqlite::migrations::DataStep::RestoreSenders).run(RECEIVE_FROM_CONTACTS_UP_2@).run(RECEIVE_FROM_CONTACTS_UP_3@),
    }
}

fn migration_to_receive_from_contacts() -> (r: Migration)
    ensures
        r@ == receive_from_contacts(),
{
    Migration::new(
        Version::new(1, 10, 0),
        Version::new(1, 11, 0),
        "Modify received_files table to replace peer_id with contact_id and add verified_sender",
        Script::new().run(RECEIVE_FROM_CONTACTS_UP_1).data(DataStep::AssignContacts).run(RECEIVE_FROM_CONTACTS_UP_2).run(RECEIVE_FROM_CONTACTS_UP_3),
        Script::new().run(RECEIVE_FROM_CONTACTS_DOWN_1).data(DataStep::RestoreSenders).run(RECEIVE_FROM_CONTACTS_UP_2).run(RECEIVE_FROM_CONTACTS_UP_3),
    )
}

/// Remove peers table.
pub open spec fn drop_peers() -> crate::sqlite::migrations::MigrationView {
    crate::sqlite::migrations::MigrationView {
        applies_to_version: crate::sqlite::migrations::release(1, 11, 0),
        target_version: crate::sqlite::migrations::release(1, 12, 0),
        description: "Remove peers table"@,
        up: crate::sqlite::migrations::ScriptView::empty().run(FOREIGN_KEYS_OFF@).run(INDEX_PEERS_DOWN@).run(DROP_PEERS_UP_1@).run(FOREIGN_KEYS_ON@),
        down: crate::sqlite::migrations::ScriptView::empty().run(FOREIGN_KEYS_OFF@).run(DROP_PEERS_DOWN@).run(FOREIGN_KEYS_ON@),
    }
}

fn migration_to_drop_peers() -> (r: Migration)
    ensures
        r@ == drop_peers(),
{
    Migration::new(
        Version::new(1, 11, 0),
        Version::new(1, 12, 0),
        "Remove peers table",
        Script::new().run(FOREIGN_KEYS_OFF).run(INDEX_PEERS_DOWN).run(DROP_PEERS_UP_1).run(FOREIGN_KEYS_ON),
        Script::new().run(FOREIGN_KEYS_OFF).run(DROP_PEERS_DOWN).run(FOREIGN_KEYS_ON),
    )
}

/// Remove requires_authentication from remote_filerequests.
pub open spec fn drop_authentication() -> crate::sqlite::migrations::MigrationView {
    crate::sqlite::migrations::MigrationView {
        applies_to_version: crate::sqlite::migrations::release(1, 12, 0),
        target_version: crate::sqlite::migrations::release(1, 13, 0),
        description: "Remove requires_authentication from remote_filerequests"@,
        up: crate::sqlite::migrations::ScriptView::empty().run(FOREIGN_KEYS_OFF@).run(DROP_AUTHENTICATION_UP@).run(FOREIGN_KEYS_ON@),
        down: crate::sqlite::migrations::ScriptView::empty().run(FOREIGN_KEYS_OFF@).run(DROP_AUTHENTICATION_DOWN@).run(FOREIGN_KEYS_ON@),
    }
}

fn migration_to_drop_authentication() -> (r: Migration)
    ensures
        r@ == drop_authentication(),
{
    Migration::new(
        Version::new(1, 12, 0),
        Version::new(1, 13, 0),
        "Remove requires_authentication from remote_filerequests",
        Script::new().run(FOREIGN_KEYS_OFF).run(DROP_AUTHENTICATION_UP).run(FOREIGN_KEYS_ON),
        Script::new().run(FOREIGN_KEYS_OFF).run(DROP_AUTHENTICATION_DOWN).run(FOREIGN_KEYS_ON),
    )
}

/// Make contact_id nullable and remove verified_sender from received_files.
pub open spec fn receive_from_strangers() -> crate::sqlite::migrations::MigrationView {
    crate::sqlite::migrations::MigrationView {
        applies_to_version: crate::sqlite::migrations::release(1, 14, 0),
        target_version: crate::sqlite::migrations::release(1, 15, 0),
        description: "Make contact_id nullable and remove verified_sender from received_files"@,
        up: crate::sqlite::migrations::ScriptView::empty().run(RECEIVE_FROM_STRANGERS_UP_1@).run(RECEIVE_FROM_STRANGERS_UP_2@).run(RECEIVE_FROM_CONTACTS_UP_2@).run(RECEIVE_FROM_CONTACTS_UP_3@),
        down: crate::sqlite::migrations::ScriptView::empty().run(RECEIVE_FROM_STRANGERS_DOWN_1@).run(RECEIVE_FROM_STRANGERS_DOWN_2@).run(RECEIVE_FROM_CONTACTS_UP_2@).run(RECEIVE_FROM_CONTACTS_UP_3@),
    }
}

fn migration_to_receive_from_strangers() -> (r: Migration)
    ensures
        r@ == receive_from_strangers(),
{
    Migration::new(
        Version::new(1, 14, 0),
        Version::new(1, 15, 0),
        "Make contact_id nullable and remove verified_sender from received_files",
        Script::new().run(RECEIVE_FROM_STRANGERS_UP_1).run(RECEIVE_FROM_STRANGERS_UP_2).run(RECEIVE_FROM_CONTACTS_UP_2).run(RECEIVE_FROM_CONTACTS_UP_3),
        Script::new().run(RECEIVE_FROM_STRANGERS_DOWN_1).run(RECEIVE_FROM_STRANGERS_DOWN_2).run(RECEIVE_FROM_CONTACTS_UP_2).run(RECEIVE_FROM_CONTACTS_UP_3),
    )
}

/// Add opaque settings table.
pub open spec fn keep_settings() -> crate::sqlite::migrations::MigrationView {
    crate::sqlite::migrations::MigrationView {
        applies_to_version: crate::sqlite::migrations::release(1, 15, 0),
        target_version: crate::sqlite::migrations::release(1, 16, 0),
        description: "Add opaque settings table"@,
        up: crate::sqlite::migrations::ScriptView::empty().run(KEEP_SETTINGS_UP@),
        down: crate::sqlite::migrations::ScriptView::empty().run(KEEP_SETTINGS_DOWN@),
    }
}

fn migration_to_keep_settings() -> (r: Migration)
    ensures
        r@ == keep_settings(),
{
    Migration::new(
        Version::new(1, 15, 0),
        Version::new(1, 16, 0),
        "Add opaque settings table",
        Script::new().run(KEEP_SETTINGS_UP),
        Script::new().run(KEEP_SETTINGS_DOWN),
    )
}

/// Expand pending_files status with progress tracking; extend received_files with receive-state tracking.
pub open spec fn follow_transfers() -> crate::sqlite::migrations::MigrationView {
    crate::sqlite::migrations::MigrationView {
        applies_to_version: crate::sqlite::migrations::release(1, 16, 0),
        target_version: crate::sqlite::migrations::release(1, 17, 0),
        description: "Expand pending_files status with progress tracking; extend received_files with receive-state tracking"@,
        up: crate::sqlite::migrations::ScriptView::empty().run(FOREIGN_KEYS_OFF@).run(FOLLOW_TRANSFERS_UP_1@).run(FOLLOW_TRANSFERS_UP_2@).run(FOLLOW_TRANSFERS_UP_3@).run(FOLLOW_TRANSFERS_UP_4@).run(FOREIGN_KEYS_ON@),
        down: crate::sqlite::migrations::ScriptView::empty().run(FOREIGN_KEYS_OFF@).run(FOLLOW_TRANSFERS_DOWN_1@).run(FOLLOW_TRANSFERS_DOWN_2@).run(FOREIGN_KEYS_ON@),
    }
}

fn migration_to_follow_transfers() -> (r: Migration)
    ensures
        r@ == follow_transfers(),
{
    Migration::new(
        Version::new(1, 16, 0),
        Version::new(1, 17, 0),
        "Expand pending_files status with progress tracking; extend received_files with receive-state tracking",
        Script::new().run(FOREIGN_KEYS_OFF).run(FOLLOW_TRANSFERS_UP_1).run(FOLLOW_TRANSFERS_UP_2).run(FOLLOW_TRANSFERS_UP_3).run(FOLLOW_TRANSFERS_UP_4).run(FOREIGN_KEYS_ON),
        Script::new().run(FOREIGN_KEYS_OFF).run(FOLLOW_TRANSFERS_DOWN_1).run(FOLLOW_TRANSFERS_DOWN_2).run(FOREIGN_KEYS_ON),
    )
}

/// Add display_name column to pending_files.
pub open spec fn show_names() -> crate::sqlite::migrations::MigrationView {
    crate::sqlite::migrations::MigrationView {
        applies_to_version: crate::sqlite::migrations::release(1, 17, 0),
        target_version: crate::sqlite::migrations::release(1, 18, 0),
        description: "Add display_name column to pending_files"@,
        up: crate::sqlite::migrations::ScriptView::empty().run(SHOW_NAMES_UP@),
        down: crate::sqlite::migrations::ScriptView::empty().run(SHOW_NAMES_DOWN@),
    }
}

fn migration_to_show_names() -> (r: Migration)
    ensures
        r@ == show_names(),
{
    Migration::new(
        Version::new(1, 17, 0),
        Version::new(1, 18, 0),
        "Add display_name column to pending_files",
        Script::new().run(SHOW_NAMES_UP),
        Script::new().run(SHOW_NAMES_DOWN),
    )
}

/// Relax CHECK constraints on pending_files terminal states to preserve transfer metadata for diagnostics.
pub open spec fn keep_finished_transfers() -> crate::sqlite::migrations::MigrationView {
    crate::sqlite::migrations::MigrationView {
        applies_to_version: crate::sqlite::migrations::release(1, 18, 0),
        target_version: crate::sqlite::migrations::release(1, 18, 1),
        description: "Relax CHECK constraints on pending_files terminal states to preserve transfer metadata for diagnostics"@,
        up: crate::sqlite::migrations::ScriptView::empty().run(FOREIGN_KEYS_OFF@).run(KEEP_FINISHED_TRANSFERS_UP@).run(FOREIGN_KEYS_ON@),
        down: crate::sqlite::migrations::ScriptView::empty().run(FOREIGN_KEYS_OFF@).run(KEEP_FINISHED_TRANSFERS_DOWN@).run(FOREIGN_KEYS_ON@),
    }
}

fn migration_to_keep_finished_transfers() -> (r: Migration)
    ensures
        r@ == keep_finished_transfers(),
{
    Migration::new(
        Version::new(1, 18, 0),
        Version::new(1, 18, 1),
        "Relax CHECK constraints on pending_files terminal states to preserve transfer metadata for diagnostics",
        Script::new().run(FOREIGN_KEYS_OFF).run(KEEP_FINISHED_TRANSFERS_UP).run(FOREIGN_KEYS_ON),
        Script::new().run(FOREIGN_KEYS_OFF).run(KEEP_FINISHED_TRANSFERS_DOWN).run(FOREIGN_KEYS_ON),
    )
}

/// Add interruption_reasons to pending_files.
pub open spec fn keep_interruptions() -> crate::sqlite::migrations::MigrationView {
    crate::sqlite::migrations::MigrationView {
        applies_to_version: crate::sqlite::migrations::release(1, 18, 1),
        target_version: crate::sqlite::migrations::release(1, 18, 2),
        description: "Add interruption_reasons to pending_files"@,
        up: crate::sqlite::migrations::ScriptView::empty().run(KEEP_INTERRUPTIONS_UP@),
        down: crate::sqlite::migrations::ScriptView::empty().run(FOREIGN_KEYS_OFF@).run(KEEP_INTERRUPTIONS_DOWN@).run(FOREIGN_KEYS_ON@),
    }
}

fn migration_to_keep_interruptions() -> (r: Migration)
    ensures
        r@ == keep_interruptions(),
{
    Migration::new(
        Version::new(1, 18, 1),
        Version::new(1, 18, 2),
        "Add interruption_reasons to pending_files",
        Script::new().run(KEEP_INTERRUPTIONS_UP),
        Script::new().run(FOREIGN_KEYS_OFF).run(KEEP_INTERRUPTIONS_DOWN).run(FOREIGN_KEYS_ON),
    )
}

/// Add started_at_ms column to received_files for deterministic .part filenames.
pub open spec fn keep_start() -> crate::sqlite::migrations::MigrationView {
    crate::sqlite::migrations::MigrationView {
        applies_to_version: crate::sqlite::migrations::release(1, 18, 2),
        target_version: crate::sqlite::migrations::release(1, 19, 0),
        description: "Add started_at_ms column to received_files for deterministic .part filenames"@,
        up: crate::sqlite::migrations::ScriptView::empty().run(KEEP_START_UP@),
        down: crate::sqlite::migrations::ScriptView::empty().run(FOREIGN_KEYS_OFF@).run(KEEP_START_DOWN@).run(FOREIGN_KEYS_ON@),
    }
}

fn migration_to_keep_start() -> (r: Migration)
    ensures
        r@ == keep_start(),
{
    Migration::new(
        Version::new(1, 18, 2),
        Version::new(1, 19, 0),
        "Add started_at_ms column to received_files for deterministic .part filenames",
        Script::new().run(KEEP_START_UP),
        Script::new().run(FOREIGN_KEYS_OFF).run(KEEP_START_DOWN).run(FOREIGN_KEYS_ON),
    )
}

/// Add peer_id column to received_files for peer-scoped transfer ownership.
pub open spec fn keep_peer() -> crate::sqlite::migrations::MigrationView {
    crate::sqlite::migrations::MigrationView {
        applies_to_version: crate::sqlite::migrations::release(1, 19, 0),
        target_version: crate::sqlite::migrations::release(1, 19, 1),
        description: "Add peer_id column to received_files for peer-scoped transfer ownership"@,
        up: crate::sqlite::migrations::ScriptView::empty().run(KEEP_PEER_UP@),
        down: crate::sqlite::migrations::ScriptView::empty().run(FOREIGN_KEYS_OFF@).run(KEEP_PEER_DOWN@).run(FOREIGN_KEYS_ON@),
    }
}

fn migration_to_keep_peer() -> (r: Migration)
    ensures
        r@ == keep_peer(),
{
    Migration::new(
        Version::new(1, 19, 0),
        Version::new(1, 19, 1),
        "Add peer_id column to received_files for peer-scoped transfer ownership",
        Script::new().run(KEEP_PEER_UP),
        Script::new().run(FOREIGN_KEYS_OFF).run(KEEP_PEER_DOWN).run(FOREIGN_KEYS_ON),
    )
}

/// All migrations, in the order in which they are applied.
pub open spec fn history() -> Seq<crate::sqlite::migrations::MigrationView> {
    seq![
        name_remote_filerequests(),
        name_peers(),
        record_received_files(),
        index_peers(),
        delete_softly(),
        restrict_to_contacts(),
        receive_from_peers(),
        cascade_deletion(),
        drop_peer_activity(),
        keep_self_contact(),
        keep_keys(),
        receive_from_contacts(),
        drop_peers(),
        drop_authentication(),
        receive_from_strangers(),
        keep_settings(),
        follow_transfers(),
        show_names(),
        keep_finished_transfers(),
        keep_interruptions(),
        keep_start(),
        keep_peer(),
    ]
}

/// All migrations, in the order in which they are applied.
pub fn get_migrations() -> (r: Vec<Migration>)
    ensures
        crate::domain_models::views(r@) == history(),
{
    let migrations: Vec<Migration> = vec![
        migration_to_name_remote_filerequests(),
        migration_to_name_peers(),
        migration_to_record_received_files(),
        migration_to_index_peers(),
        migration_to_delete_softly(),
        migration_to_restrict_to_contacts(),
        migration_to_receive_from_peers(),
        migration_to_cascade_deletion(),
        migration_to_drop_peer_activity(),
        migration_to_keep_self_contact(),
        migration_to_keep_keys(),
        migration_to_receive_from_contacts(),
        migration_to_drop_peers(),
        migration_to_drop_authentication(),
        migration_to_receive_from_strangers(),
        migration_to_keep_settings(),
        migration_to_follow_transfers(),
        migration_to_show_names(),
        migration_to_keep_finished_transfers(),
        migration_to_keep_interruptions(),
        migration_to_keep_start(),
        migration_to_keep_peer(),
    ];
    assert(crate::domain_models::views(migrations@) =~= history());
    migrations
}

} // verus!
