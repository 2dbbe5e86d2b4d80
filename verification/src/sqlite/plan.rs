//! The statements that each command is carried out with.
use vstd::prelude::*;

use crate::brain::exchange::DbCommand;
use crate::crypto::{
    serialize_dilithium_private_key, serialize_dilithium_public_key, serialize_ed25519_private_key,
    serialize_ed25519_public_key,
};
use crate::db::{DbError, NodeInfo};
use crate::domain_models::{
    Contact, ContactId, CreateFilerequest, CreatePendingFiles, Filerequest, FilerequestAccess,
    FylesId, ReceiveStatus, SelfContact, SendStatus,
};
use crate::sqlite::statement::Statement;

verus! {

/// The version of the format that settings are stored in, kept beside them for later changes.
pub const SETTINGS_VERSION: &'static str = "1.0.0";

pub const SELECT_FILEREQUEST: &'static str =
    "SELECT id, title, description, status, access_type FROM filerequests WHERE id = ?";

pub const SELECT_FILEREQUESTS: &'static str =
    "SELECT id, title, description, status, access_type FROM filerequests";

pub const DELETE_FILEREQUEST: &'static str = "DELETE FROM filerequests WHERE id = ?";

pub const SELECT_CONTACT_NAME: &'static str = "SELECT name FROM contacts WHERE id = ?";

pub const SELECT_CONTACT: &'static str =
    "SELECT id, name, dilithium_public_key, ed25519_public_key FROM contacts WHERE id = ?";

pub const SELECT_CONTACTS: &'static str = "SELECT id, name FROM contacts";

pub const UPDATE_CONTACT: &'static str =
    "UPDATE contacts SET name = ?, updated_at = datetime('now')
     WHERE id = ?";

pub const DELETE_CONTACT: &'static str = "DELETE FROM contacts WHERE id = ?";

pub const SELECT_CONTACT_KEYS: &'static str =
    "SELECT dilithium_public_key, ed25519_public_key FROM contacts WHERE id = ?";

pub const SELECT_NODE_KEY: &'static str = "SELECT key_bytes FROM node_keys WHERE id = 1";

pub const SELECT_REMOTE_FILEREQUEST: &'static str =
    "SELECT id, peer_id, filerequest_id, name, contact_id FROM remote_filerequests WHERE id = ?";

pub const SELECT_REMOTE_FILEREQUESTS_OF_CONTACT: &'static str =
    "SELECT id, peer_id, filerequest_id, name, contact_id FROM remote_filerequests WHERE contact_id = ?";

pub const SELECT_REMOTE_FILEREQUESTS: &'static str =
    "SELECT id, peer_id, filerequest_id, name, contact_id FROM remote_filerequests";

pub const INSERT_REMOTE_FILEREQUEST: &'static str =
    "INSERT INTO remote_filerequests (id, peer_id, filerequest_id, name, created_at, contact_id)
     VALUES (?, ?, ?, ?, datetime('now'), ?)";

pub const UPDATE_REMOTE_FILEREQUEST: &'static str =
    "UPDATE remote_filerequests
     SET name = ?
     WHERE id = ?";

pub const DELETE_REMOTE_FILEREQUEST: &'static str = "DELETE FROM remote_filerequests WHERE id = ?";

pub const SELECT_PENDING_FILE: &'static str =
    "SELECT id, file_path, target_filerequest_id, status, retry_count, progress_bytes, file_size_bytes,
     transfer_id, display_name, interruption_reasons FROM pending_files WHERE id = ?";

pub const SELECT_PENDING_FILES_OF_REQUEST: &'static str =
    "SELECT id, file_path, target_filerequest_id, status, retry_count, progress_bytes, file_size_bytes,
     transfer_id, display_name, interruption_reasons FROM pending_files WHERE target_filerequest_id = ?";

pub const SELECT_PENDING_FILES: &'static str =
    "SELECT p.id, p.file_path, p.target_filerequest_id, p.status, p.retry_count, p.progress_bytes,
     p.file_size_bytes, p.transfer_id, p.display_name, p.interruption_reasons, r.contact_id
     FROM pending_files p
     JOIN remote_filerequests r ON p.target_filerequest_id = r.id";

pub const DELETE_PENDING_FILE: &'static str = "DELETE FROM pending_files WHERE id = ?";

pub const SELECT_INTERRUPTION_REASONS: &'static str = "SELECT interruption_reasons FROM pending_files WHERE id = ?";

pub const COUNT_UNFINISHED_PENDING_FILES: &'static str =
    "SELECT COUNT(*) FROM pending_files
     WHERE file_path = (SELECT file_path FROM pending_files WHERE id = ?1)
       AND id != ?1
       AND status IN ('Pending', 'Sending', 'Interrupted')";

pub const INSERT_INCOMING_FILE: &'static str =
    "INSERT INTO received_files
     (id, contact_id, peer_id, filerequest_id, transfer_id, file_name, file_path, file_size_bytes,
      progress_bytes, status, started_at_ms, received_at_ms)
     VALUES (?, ?, ?, ?, ?, ?, NULL, ?, 0, 'Receiving', ?, NULL)";

pub const SELECT_RECEIVED_FILE: &'static str =
    "SELECT id, contact_id, peer_id, filerequest_id, transfer_id, file_name, file_path, file_size_bytes,
     progress_bytes, status, started_at_ms, received_at_ms
     FROM received_files WHERE transfer_id = ?";

pub const COMPLETE_RECEIVED_FILE: &'static str =
    "UPDATE received_files
     SET file_path = ?, received_at_ms = ?, status = 'Completed'
     WHERE transfer_id = ?
     RETURNING id";

pub const SELECT_RECEIVED_FILES_OF_REQUEST: &'static str =
    "SELECT id, contact_id, peer_id, filerequest_id, transfer_id, file_name, file_path, file_size_bytes,
     progress_bytes, status, started_at_ms, received_at_ms
     FROM received_files WHERE filerequest_id = ?";

pub const DELETE_RECEIVED_FILE: &'static str = "DELETE FROM received_files WHERE id = ?";

pub const SELECT_STALE_RECEIVED_FILES: &'static str =
    "SELECT id, contact_id, peer_id, filerequest_id, transfer_id, file_name, file_path, file_size_bytes,
     progress_bytes, status, started_at_ms, received_at_ms
     FROM received_files
     WHERE status IN ('Receiving', 'Interrupted')
       AND started_at_ms < ?";

pub const SELECT_SELF_CONTACT: &'static str =
    "SELECT contact_id, name, ed25519_private_key, ed25519_public_key, dilithium_private_key,
     dilithium_public_key
     FROM self_contact WHERE id = 1";

pub const SELECT_SELF_CONTACT_NAME: &'static str = "SELECT contact_id, name FROM self_contact WHERE id = 1";

pub const UPDATE_SELF_CONTACT_NAME: &'static str = "UPDATE self_contact SET name = ? WHERE id = 1";

pub const SELECT_SHARABLE_CONTACT: &'static str =
    "SELECT contact_id, name, dilithium_public_key, ed25519_public_key FROM self_contact WHERE id = 1";

pub const SELECT_SETTINGS: &'static str = "SELECT data FROM settings WHERE id = 1";

pub const STORE_SETTINGS: &'static str =
    "INSERT INTO settings (id, data, version) VALUES (1, ?1, ?2)
     ON CONFLICT(id) DO UPDATE SET data = excluded.data, version = excluded.version";

pub const INSERT_FILEREQUEST: &'static str =
    "INSERT INTO filerequests (id, title, description, created_at, updated_at, status, access_type)
     VALUES (?1, ?2, ?3, datetime('now'), datetime('now'), ?4, ?5)";

pub const INSERT_AUDIENCE: &'static str =
    "INSERT INTO filerequest_audience (filerequest_id, contact_id, created_at)
     VALUES (?, ?, datetime('now'))";

pub const UPDATE_FILEREQUEST: &'static str =
    "UPDATE filerequests
     SET title = ?1, description = ?2, access_type = ?3, updated_at = datetime('now'), status = ?4
     WHERE id = ?5";

pub const DELETE_AUDIENCE: &'static str = "DELETE FROM filerequest_audience WHERE filerequest_id = ?";

pub const SELECT_AUDIENCE: &'static str =
    "SELECT contact_id FROM filerequest_audience WHERE filerequest_id = ?";

pub const INSERT_CONTACT: &'static str =
    "INSERT INTO contacts (id, name, created_at, updated_at, ed25519_public_key, dilithium_public_key)
     VALUES (?, ?, datetime('now'), datetime('now'), ?, ?)";

pub const STORE_NODE_KEY: &'static str =
    "INSERT OR REPLACE INTO node_keys (id, key_bytes) VALUES (1, ?)";

pub const STORE_SELF_CONTACT: &'static str =
    "INSERT OR REPLACE INTO self_contact (id, contact_id, name, dilithium_private_key,
     dilithium_public_key, ed25519_private_key, ed25519_public_key) VALUES (1, ?, ?, ?, ?, ?, ?)";

pub const SELECT_CONTACT_OF_REQUEST: &'static str = "SELECT contact_id FROM remote_filerequests WHERE id = ?";

pub const INSERT_PENDING_FILE: &'static str =
    "INSERT INTO pending_files (id, file_path, target_filerequest_id, status, display_name, created_at)
     VALUES (?, ?, ?, ?, ?, datetime('now'))";

pub const STORE_INTERRUPTION_REASONS: &'static str =
    "UPDATE pending_files SET interruption_reasons = ? WHERE id = ?";

pub const RESTART_PENDING_FILE: &'static str =
    "UPDATE pending_files SET status = ?, retry_count = ?, progress_bytes = ?, file_size_bytes = ?,
     transfer_id = ? WHERE id = ? RETURNING target_filerequest_id";

pub const ADVANCE_PENDING_FILE: &'static str =
    "UPDATE pending_files SET status = ?, progress_bytes = ?, file_size_bytes = ?, transfer_id = ?
     WHERE id = ? RETURNING target_filerequest_id";

pub const FINISH_PENDING_FILE: &'static str =
    "UPDATE pending_files SET status = ? WHERE id = ? RETURNING target_filerequest_id";

pub const UPDATE_RECEIVED_FILE: &'static str =
    "UPDATE received_files SET status = ?, progress_bytes = ? WHERE transfer_id = ?";

pub const UPDATE_IDENTITY: &'static str =
    "UPDATE self_contact
     SET name = ?,
         contact_id = ?,
         ed25519_private_key = ?,
         ed25519_public_key = ?,
         dilithium_private_key = ?,
         dilithium_public_key = ?
     WHERE id = 1";

/// How many ids the command gives out.
pub open spec fn ids_needed(command: DbCommand) -> nat {
    match command {
        DbCommand::CreateFilerequest(_) => 1,
        DbCommand::CreateRemoteFilerequest(_) => 1,
        DbCommand::CreatePendingFiles(files) => files.file_infos@.len(),
        DbCommand::CreateIncomingFile(_) => 1,
        _ => 0,
    }
}

/// Whether the statements take effect together or not at all.
pub open spec fn is_atomic(command: DbCommand) -> bool {
    command is CreateFilerequest || command is UpdateFilerequest || command is CreatePendingFiles
}

pub open spec fn access_type(access: crate::domain_models::AccessView) -> Seq<char> {
    match access {
        crate::domain_models::AccessView::Public => "public"@,
        crate::domain_models::AccessView::Audience { .. } => "audience"@,
    }
}

/// Those whom the access names.
pub open spec fn audience(access: crate::domain_models::AccessView) -> Seq<Seq<char>> {
    match access {
        crate::domain_models::AccessView::Public => Seq::empty(),
        crate::domain_models::AccessView::Audience { contact_ids } => contact_ids,
    }
}

pub open spec fn activity(is_active: bool) -> Seq<char> {
    if is_active {
        "active"@
    } else {
        "paused"@
    }
}

/// One row for each of the audience.
pub open spec fn audience_inserts(id: Seq<char>, contact_ids: Seq<Seq<char>>) -> Seq<
    crate::sqlite::statement::StatementView,
> {
    Seq::new(
        contact_ids.len(),
        |i: int|
            crate::sqlite::statement::StatementView::of(INSERT_AUDIENCE@).text(id).text(
                contact_ids[i],
            ),
    )
}

/// One row for each of the files.
pub open spec fn pending_inserts(
    files: crate::domain_models::CreatePendingFilesView,
    fresh: Seq<Seq<char>>,
) -> Seq<crate::sqlite::statement::StatementView> {
    Seq::new(
        files.file_infos.len(),
        |i: int|
            crate::sqlite::statement::StatementView::of(INSERT_PENDING_FILE@).text(fresh[i]).text(
                files.file_infos[i].path,
            ).text(files.target_filerequest_id).text("Pending"@).nullable_text(
                files.file_infos[i].display_name,
            ),
    )
}

/// `n` question marks with commas between them.
pub open spec fn placeholders(n: nat) -> Seq<char>
    decreases n,
{
    if n == 0 {
        Seq::empty()
    } else if n == 1 {
        "?"@
    } else {
        placeholders((n - 1) as nat) + ",?"@
    }
}

/// The statement with the ids as its values.
pub open spec fn with_ids(
    statement: crate::sqlite::statement::StatementView,
    ids: Seq<Seq<char>>,
) -> crate::sqlite::statement::StatementView
    decreases ids.len(),
{
    if ids.len() == 0 {
        statement
    } else {
        with_ids(statement, ids.drop_last()).text(ids.last())
    }
}

/// The columns that a status changes: all of them for a new attempt, those of the transfer while
/// it goes on, and no more than the status where nothing is transferred.
pub open spec fn send_status_update(
    id: Seq<char>,
    tag: Seq<char>,
    transfer_data: Option<crate::domain_models::TransferDataView>,
    retry_count: Option<usize>,
) -> crate::sqlite::statement::StatementView {
    match (retry_count, transfer_data) {
        (Some(count), Some(data)) => crate::sqlite::statement::StatementView::of(
            RESTART_PENDING_FILE@,
        ).text(tag).size(count).integer(data.progress_bytes as i64).integer(
            data.file_size_bytes as i64,
        ).text(data.transfer_id).text(id),
        (Some(count), None) => crate::sqlite::statement::StatementView::of(
            RESTART_PENDING_FILE@,
        ).text(tag).size(count).with(crate::sqlite::statement::SqlValueView::Null).with(
            crate::sqlite::statement::SqlValueView::Null,
        ).with(crate::sqlite::statement::SqlValueView::Null).text(id),
        (None, Some(data)) => crate::sqlite::statement::StatementView::of(
            ADVANCE_PENDING_FILE@,
        ).text(tag).integer(data.progress_bytes as i64).integer(data.file_size_bytes as i64).text(
            data.transfer_id,
        ).text(id),
        (None, None) => crate::sqlite::statement::StatementView::of(FINISH_PENDING_FILE@).text(
            tag,
        ).text(id),
    }
}

pub open spec fn tag_error(reason: Seq<char>) -> crate::db::DbErrorView {
    crate::db::DbErrorView::DataConversion {
        message: "Failed to convert status to tag: "@ + reason,
    }
}

/// The statements that the command starts with. `fresh` are the ids that it gives out.
pub open spec fn planned(command: DbCommand, fresh: Seq<Seq<char>>) -> Result<
    Seq<crate::sqlite::statement::StatementView>,
    crate::db::DbErrorView,
> {
    match command {
        DbCommand::GetFilerequest(id) => Ok(
            seq![crate::sqlite::statement::StatementView::of(SELECT_FILEREQUEST@).text(id@)],
        ),
        DbCommand::GetFilerequests => Ok(
            seq![crate::sqlite::statement::StatementView::of(SELECT_FILEREQUESTS@)],
        ),
        DbCommand::CreateFilerequest(filerequest) => Ok(
            seq![
                crate::sqlite::statement::StatementView::of(
                    INSERT_FILEREQUEST@,
                ).text(fresh[0]).text(
                    filerequest.title@,
                ).text(filerequest.description@).text(activity(filerequest.is_active)).text(
                    access_type(filerequest.access@),
                ),
            ] + audience_inserts(fresh[0], audience(filerequest.access@)),
        ),
        DbCommand::UpdateFilerequest(filerequest) => Ok(
            seq![
                crate::sqlite::statement::StatementView::of(UPDATE_FILEREQUEST@).text(
                    filerequest.title@,
                ).text(filerequest.description@).text(access_type(filerequest.access@)).text(
                    activity(filerequest.is_active),
                ).text(filerequest.id@),
                crate::sqlite::statement::StatementView::of(DELETE_AUDIENCE@).text(
                    filerequest.id@,
                ),
            ] + audience_inserts(filerequest.id@, audience(filerequest.access@)),
        ),
        DbCommand::DeleteFilerequest(id) => Ok(
            seq![crate::sqlite::statement::StatementView::of(DELETE_FILEREQUEST@).text(id@)],
        ),
        DbCommand::GetContactName(id) => Ok(
            seq![crate::sqlite::statement::StatementView::of(SELECT_CONTACT_NAME@).text(id@)],
        ),
        DbCommand::GetContactNames(ids) => Ok(
            seq![
                with_ids(
                    crate::sqlite::statement::StatementView::of(
                        "SELECT id, name FROM contacts WHERE id IN ("@ + placeholders(
                            ids@.len(),
                        ) + ")"@,
                    ),
                    crate::domain_models::views(ids@),
                ),
            ],
        ),
        DbCommand::GetContact(id) => Ok(
            seq![crate::sqlite::statement::StatementView::of(SELECT_CONTACT@).text(id@)],
        ),
        DbCommand::GetContacts => Ok(
            seq![crate::sqlite::statement::StatementView::of(SELECT_CONTACTS@)],
        ),
        DbCommand::UpdateContact(contact) => Ok(
            seq![
                crate::sqlite::statement::StatementView::of(
                    UPDATE_CONTACT@,
                ).text(contact.name@).text(contact.id@),
            ],
        ),
        DbCommand::DeleteContact(id) => Ok(
            seq![crate::sqlite::statement::StatementView::of(DELETE_CONTACT@).text(id@)],
        ),
        DbCommand::GetContactPublicKeys(id) => Ok(
            seq![crate::sqlite::statement::StatementView::of(SELECT_CONTACT_KEYS@).text(id@)],
        ),
        DbCommand::RegisterContact(contact) => Ok(
            seq![
                crate::sqlite::statement::StatementView::of(INSERT_CONTACT@).text(contact.id@).text(
                    contact.name@,
                ).blob(contact.public_keys@.ed25519).blob(contact.public_keys@.dilithium),
            ],
        ),
        DbCommand::StoreNodeKeys(info) => Ok(
            seq![
                crate::sqlite::statement::StatementView::of(STORE_NODE_KEY@).blob(
                    info.node_key_pair@,
                ),
                crate::sqlite::statement::StatementView::of(STORE_SELF_CONTACT@).text(
                    info.self_contact_id@,
                ).text(info.self_contact_id@).blob(
                    info.self_contact_keys@.private.dilithium,
                ).blob(info.self_contact_keys@.public.dilithium).blob(
                    info.self_contact_keys@.private.ed25519,
                ).blob(info.self_contact_keys@.public.ed25519),
            ],
        ),
        DbCommand::GetNodeKeys => Ok(
            seq![crate::sqlite::statement::StatementView::of(SELECT_NODE_KEY@)],
        ),
        DbCommand::GetRemoteFilerequest(id) => Ok(
            seq![crate::sqlite::statement::StatementView::of(SELECT_REMOTE_FILEREQUEST@).text(id@)],
        ),
        DbCommand::GetRemoteFilerequestsByContact(id) => Ok(
            seq![
                crate::sqlite::statement::StatementView::of(
                    SELECT_REMOTE_FILEREQUESTS_OF_CONTACT@,
                ).text(id@),
            ],
        ),
        DbCommand::GetAllRemoteFilerequests => Ok(
            seq![crate::sqlite::statement::StatementView::of(SELECT_REMOTE_FILEREQUESTS@)],
        ),
        DbCommand::CreateRemoteFilerequest(request) => Ok(
            seq![
                crate::sqlite::statement::StatementView::of(
                    INSERT_REMOTE_FILEREQUEST@,
                ).text(fresh[0]).text(request.peer_id@).text(
                    request.filerequest_id@,
                ).text(request.name@).text(request.contact_id@),
            ],
        ),
        DbCommand::UpdateRemoteFilerequest { id, name } => Ok(
            seq![
                crate::sqlite::statement::StatementView::of(
                    UPDATE_REMOTE_FILEREQUEST@,
                ).text(name@).text(id@),
            ],
        ),
        DbCommand::DeleteRemoteFilerequest(id) => Ok(
            seq![crate::sqlite::statement::StatementView::of(DELETE_REMOTE_FILEREQUEST@).text(id@)],
        ),
        DbCommand::CreatePendingFiles(files) => Ok(pending_inserts(files@, fresh)),
        DbCommand::GetPendingFile(id) => Ok(
            seq![crate::sqlite::statement::StatementView::of(SELECT_PENDING_FILE@).text(id@)],
        ),
        DbCommand::GetPendingFiles(id) => Ok(
            seq![
                crate::sqlite::statement::StatementView::of(
                    SELECT_PENDING_FILES_OF_REQUEST@,
                ).text(id@),
            ],
        ),
        DbCommand::GetAllPendingFiles => Ok(
            seq![crate::sqlite::statement::StatementView::of(SELECT_PENDING_FILES@)],
        ),
        DbCommand::UpdatePendingFileStatus { id, status, retry_count } => match status@.tag() {
            Ok(tag) => Ok(
                seq![send_status_update(id@, tag, status@.transfer_data(), retry_count)],
            ),
            Err(reason) => Err(tag_error(reason)),
        },
        DbCommand::DeletePendingFile(id) => Ok(
            seq![crate::sqlite::statement::StatementView::of(DELETE_PENDING_FILE@).text(id@)],
        ),
        DbCommand::AddInterruptionReason { id, .. } => Ok(
            seq![
                crate::sqlite::statement::StatementView::of(SELECT_INTERRUPTION_REASONS@).text(id@),
            ],
        ),
        DbCommand::CountNonTerminalPendingFilesForPath(id) => Ok(
            seq![
                crate::sqlite::statement::StatementView::of(
                    COUNT_UNFINISHED_PENDING_FILES@,
                ).text(id@),
            ],
        ),
        DbCommand::CreateIncomingFile(file) => Ok(
            seq![
                crate::sqlite::statement::StatementView::of(
                    INSERT_INCOMING_FILE@,
                ).text(fresh[0]).nullable_text(
                    crate::domain_models::opt_view(file.contact_id),
                ).text(file.peer_id@).text(
                    file.filerequest_id@,
                ).text(file.transfer_id@).text(file.file_name@).integer(
                    file.file_size_bytes as i64,
                ).integer(file.started_at_ms),
            ],
        ),
        DbCommand::UpdateReceivedFileStatus {
            transfer_id,
            status,
            progress_bytes,
        } => match status@.tag() {
            Ok(tag) => Ok(
                seq![
                    crate::sqlite::statement::StatementView::of(UPDATE_RECEIVED_FILE@).text(
                        tag,
                    ).integer(progress_bytes as i64).text(transfer_id@),
                ],
            ),
            Err(reason) => Err(tag_error(reason)),
        },
        DbCommand::GetReceivedFileByTransferId(id) => Ok(
            seq![crate::sqlite::statement::StatementView::of(SELECT_RECEIVED_FILE@).text(id@)],
        ),
        DbCommand::CompleteReceivedFile(file) => Ok(
            seq![
                crate::sqlite::statement::StatementView::of(
                    COMPLETE_RECEIVED_FILE@,
                ).text(file.file_path@).integer(file.received_at_ms).text(file.transfer_id@),
            ],
        ),
        DbCommand::ListReceivedFiles(id) => Ok(
            seq![
                crate::sqlite::statement::StatementView::of(
                    SELECT_RECEIVED_FILES_OF_REQUEST@,
                ).text(id@),
            ],
        ),
        DbCommand::DeleteReceivedFile(id) => Ok(
            seq![crate::sqlite::statement::StatementView::of(DELETE_RECEIVED_FILE@).text(id@)],
        ),
        DbCommand::GetStaleReceivedFiles { older_than_ms } => Ok(
            seq![
                crate::sqlite::statement::StatementView::of(
                    SELECT_STALE_RECEIVED_FILES@,
                ).integer(older_than_ms),
            ],
        ),
        DbCommand::GetSelfContact => Ok(
            seq![crate::sqlite::statement::StatementView::of(SELECT_SELF_CONTACT@)],
        ),
        DbCommand::GetSelfContactForDisplay => Ok(
            seq![crate::sqlite::statement::StatementView::of(SELECT_SELF_CONTACT_NAME@)],
        ),
        DbCommand::UpdateSelfContactName(name) => Ok(
            seq![
                crate::sqlite::statement::StatementView::of(UPDATE_SELF_CONTACT_NAME@).text(name@),
            ],
        ),
        DbCommand::UpdateIdentity(contact) => Ok(
            seq![
                crate::sqlite::statement::StatementView::of(UPDATE_IDENTITY@).text(
                    contact.name@,
                ).text(contact.id@).blob(contact.keys@.private.ed25519).blob(
                    contact.keys@.public.ed25519,
                ).blob(contact.keys@.private.dilithium).blob(contact.keys@.public.dilithium),
            ],
        ),
        DbCommand::GetSharablePublicSelfContact => Ok(
            seq![crate::sqlite::statement::StatementView::of(SELECT_SHARABLE_CONTACT@)],
        ),
        DbCommand::GetSettings => Ok(
            seq![crate::sqlite::statement::StatementView::of(SELECT_SETTINGS@)],
        ),
        DbCommand::StoreSettings(data) => Ok(
            seq![
                crate::sqlite::statement::StatementView::of(STORE_SETTINGS@).blob(data@).text(
                    SETTINGS_VERSION@,
                ),
            ],
        ),
        DbCommand::BackupDatabase => Ok(Seq::empty()),
        DbCommand::RestoreDatabase => Ok(Seq::empty()),
    }
}

fn optional_id(id: &Option<ContactId>) -> (r: Option<&String>)
    ensures
        match r {
            Some(text) => *id matches Some(id) && id@ == text@,
            None => id is None,
        },
{
    match id {
        Some(id) => Some(&id.0),
        None => None,
    }
}

fn access_type_of(access: &FilerequestAccess) -> (r: &'static str)
    ensures
        r@ == access_type(access@),
{
    match access {
        FilerequestAccess::Public => "public",
        FilerequestAccess::Audience { .. } => "audience",
    }
}

fn activity_of(is_active: bool) -> (r: &'static str)
    ensures
        r@ == activity(is_active),
{
    if is_active {
        "active"
    } else {
        "paused"
    }
}

/// Appends a row for each of the audience.
fn add_audience(statements: &mut Vec<Statement>, id: &FylesId, access: &FilerequestAccess)
    ensures
        crate::domain_models::views(final(statements)@) == crate::domain_models::views(
            old(statements)@,
        ) + audience_inserts(id@, audience(access@)),
{
    match access {
        FilerequestAccess::Public => {
            assert(audience_inserts(id@, audience(access@)) =~= Seq::empty());
            assert(crate::domain_models::views(statements@)
                =~= crate::domain_models::views(statements@) + audience_inserts(
                id@,
                audience(access@),
            ));
        },
        FilerequestAccess::Audience { contact_ids } => {
            let ghost ids = audience(access@);
            let mut i: usize = 0;
            while i < contact_ids.len()
                invariant
                    i <= contact_ids@.len(),
                    ids == crate::domain_models::views(contact_ids@),
                    crate::domain_models::views(statements@) == crate::domain_models::views(
                        old(statements)@,
                    ) + audience_inserts(id@, ids).take(i as int),
                decreases contact_ids@.len() - i,
            {
                let ghost before = statements@;
                statements.push(
                    Statement::of(INSERT_AUDIENCE).text(id.0.as_str()).text(
                        contact_ids[i].0.as_str(),
                    ),
                );
                assert(crate::domain_models::views(statements@) =~= crate::domain_models::views(
                    before,
                ).push(audience_inserts(id@, ids)[i as int]));
                assert(audience_inserts(id@, ids).take(i + 1) =~= audience_inserts(id@, ids).take(
                    i as int,
                ).push(audience_inserts(id@, ids)[i as int]));
                i = i + 1;
            }
            assert(audience_inserts(id@, ids).take(i as int) =~= audience_inserts(id@, ids));
        },
    }
}

fn plan_create(filerequest: &CreateFilerequest, id: &FylesId) -> (r: Result<
    Vec<Statement>,
    DbError,
>)
    ensures
        r matches Ok(statements) && Ok::<_, crate::db::DbErrorView>(
            crate::domain_models::views(statements@),
        ) == planned(DbCommand::CreateFilerequest(*filerequest), seq![id@]),
{
    let mut statements = Statement::of(INSERT_FILEREQUEST).text(id.0.as_str()).text(
        filerequest.title.as_str(),
    ).text(filerequest.description.as_str()).text(activity_of(filerequest.is_active)).text(
        access_type_of(&filerequest.access),
    ).only();
    add_audience(&mut statements, id, &filerequest.access);
    Ok(statements)
}

fn plan_update(filerequest: &Filerequest) -> (r: Result<Vec<Statement>, DbError>)
    ensures
        r matches Ok(statements) && forall|fresh: Seq<Seq<char>>| #[trigger]
            planned(DbCommand::UpdateFilerequest(*filerequest), fresh) == Ok::<
                _,
                crate::db::DbErrorView,
            >(crate::domain_models::views(statements@)),
{
    let mut statements = Statement::of(UPDATE_FILEREQUEST).text(filerequest.title.as_str()).text(
        filerequest.description.as_str(),
    ).text(access_type_of(&filerequest.access)).text(activity_of(filerequest.is_active)).text(
        filerequest.id.0.as_str(),
    ).followed_by(Statement::of(DELETE_AUDIENCE).text(filerequest.id.0.as_str()));
    add_audience(&mut statements, &filerequest.id, &filerequest.access);
    Ok(statements)
}

fn placeholders_of(n: usize) -> (r: String)
    ensures
        r@ == placeholders(n as nat),
{
    if n == 0 {
        let r = "".to_owned();
        proof {
            reveal_strlit("");
            assert(r@ =~= Seq::empty());
        }
        return r;
    }
    let mut text = "?".to_owned();
    let mut i: usize = 1;
    while i < n
        invariant
            1 <= i <= n,
            text@ == placeholders(i as nat),
        decreases n - i,
    {
        text = text.concat(",?");
        i = i + 1;
    }
    text
}

fn plan_names(ids: &Vec<ContactId>) -> (r: Result<Vec<Statement>, DbError>)
    ensures
        r matches Ok(statements) && forall|fresh: Seq<Seq<char>>| #[trigger]
            planned(DbCommand::GetContactNames(*ids), fresh) == Ok::<_, crate::db::DbErrorView>(
                crate::domain_models::views(statements@),
            ),
{
    let mut statement = Statement::of(
        "SELECT id, name FROM contacts WHERE id IN (".to_owned().concat(
            placeholders_of(ids.len()).as_str(),
        ).concat(")").as_str(),
    );
    let ghost bare = statement@;
    let ghost texts = crate::domain_models::views(ids@);
    let mut i: usize = 0;
    assert(texts.take(0) =~= Seq::empty());
    while i < ids.len()
        invariant
            i <= ids@.len(),
            texts == crate::domain_models::views(ids@),
            statement@ == with_ids(bare, texts.take(i as int)),
        decreases ids@.len() - i,
    {
        statement = statement.text(ids[i].0.as_str());
        assert(texts.take(i + 1).drop_last() =~= texts.take(i as int));
        i = i + 1;
    }
    assert(texts.take(i as int) =~= texts);
    Ok(statement.only())
}

fn plan_register(contact: &Contact) -> (r: Result<Vec<Statement>, DbError>)
    ensures
        r matches Ok(statements) && forall|fresh: Seq<Seq<char>>| #[trigger]
            planned(DbCommand::RegisterContact(*contact), fresh) == Ok::<
                _,
                crate::db::DbErrorView,
            >(crate::domain_models::views(statements@)),
{
    let dilithium = match serialize_dilithium_public_key(&contact.public_keys.dilithium) {
        Ok(bytes) => bytes,
        Err(_) => return Err(
            DbError::Validation { message: "Could not serialize dilithium public key".to_owned() },
        ),
    };
    let ed25519 = serialize_ed25519_public_key(&contact.public_keys.ed25519);
    Ok(
        Statement::of(INSERT_CONTACT).text(contact.id.0.as_str()).text(contact.name.as_str()).blob(
            &ed25519,
        ).blob(&dilithium).only(),
    )
}

fn plan_node_keys(info: &NodeInfo) -> (r: Result<Vec<Statement>, DbError>)
    ensures
        r matches Ok(statements) && forall|fresh: Seq<Seq<char>>| #[trigger]
            planned(DbCommand::StoreNodeKeys(*info), fresh) == Ok::<_, crate::db::DbErrorView>(
                crate::domain_models::views(statements@),
            ),
{
    let keys = &info.self_contact_keys;
    let dilithium_private = match serialize_dilithium_private_key(&keys.private.dilithium) {
        Ok(bytes) => bytes,
        Err(_) => return Err(
            DbError::DataConversion {
                message: "Failed to serialize dilithium private key".to_owned(),
            },
        ),
    };
    let dilithium_public = match serialize_dilithium_public_key(&keys.public.dilithium) {
        Ok(bytes) => bytes,
        Err(_) => return Err(
            DbError::DataConversion {
                message: "Failed to serialize dilithium public key".to_owned(),
            },
        ),
    };
    let ed25519_private = serialize_ed25519_private_key(&keys.private.ed25519);
    let ed25519_public = serialize_ed25519_public_key(&keys.public.ed25519);
    let id = info.self_contact_id.0.as_str();
    let own = Statement::of(STORE_SELF_CONTACT).text(id).text(id).blob(&dilithium_private).blob(
        &dilithium_public,
    ).blob(&ed25519_private).blob(&ed25519_public);
    Ok(Statement::of(STORE_NODE_KEY).blob(&info.node_key_pair).followed_by(own))
}

fn plan_pending(files: &CreatePendingFiles, fresh: &Vec<FylesId>) -> (r: Result<
    Vec<Statement>,
    DbError,
>)
    requires
        fresh@.len() == files.file_infos@.len(),
    ensures
        r matches Ok(statements) && crate::domain_models::views(statements@) == pending_inserts(
            files@,
            crate::domain_models::views(fresh@),
        ),
{
    let mut statements: Vec<Statement> = Vec::new();
    let ghost rows = pending_inserts(files@, crate::domain_models::views(fresh@));
    let mut i: usize = 0;
    assert(crate::domain_models::views(statements@) =~= rows.take(0));
    while i < files.file_infos.len()
        invariant
            i <= files.file_infos@.len(),
            fresh@.len() == files.file_infos@.len(),
            rows == pending_inserts(files@, crate::domain_models::views(fresh@)),
            crate::domain_models::views(statements@) == rows.take(i as int),
        decreases files.file_infos@.len() - i,
    {
        let info = &files.file_infos[i];
        let statement = Statement::of(INSERT_PENDING_FILE).text(fresh[i].0.as_str()).text(
            info.path.as_str(),
        ).text(files.target_filerequest_id.0.as_str()).text("Pending").nullable_text(
            info.display_name.as_ref(),
        );
        let ghost before = statements@;
        let ghost added = statement@;
        assert(files@.file_infos[i as int] == info@);
        assert(added == rows[i as int]);
        statements.push(statement);
        assert(crate::domain_models::views(statements@) =~= crate::domain_models::views(
            before,
        ).push(added));
        assert(rows.take(i + 1) =~= rows.take(i as int).push(rows[i as int]));
        i = i + 1;
    }
    assert(rows.take(i as int) =~= rows);
    Ok(statements)
}

fn plan_send_status(id: &FylesId, status: &SendStatus, retry_count: Option<usize>) -> (r: Result<
    Vec<Statement>,
    DbError,
>)
    ensures
        match r {
            Ok(statements) => status@.tag() matches Ok(tag) && crate::domain_models::views(
                statements@,
            ) == seq![send_status_update(id@, tag, status@.transfer_data(), retry_count)],
            Err(e) => status@.tag() matches Err(reason) && e@ == tag_error(reason),
        },
{
    let tag = match status.status_tag() {
        Ok(tag) => tag,
        Err(reason) => return Err(
            DbError::DataConversion {
                message: "Failed to convert status to tag: ".to_owned().concat(reason.as_str()),
            },
        ),
    };
    let id = id.0.as_str();
    let statement = match (retry_count, status.transfer_data()) {
        (Some(count), Some(data)) => Statement::of(RESTART_PENDING_FILE).text(tag).size(
            count,
        ).integer(data.progress_bytes as i64).integer(data.file_size_bytes as i64).text(
            data.transfer_id.0.as_str(),
        ).text(id),
        (Some(count), None) => Statement::of(RESTART_PENDING_FILE).text(tag).size(
            count,
        ).nullable_text(None).nullable_text(None).nullable_text(None).text(id),
        (None, Some(data)) => Statement::of(ADVANCE_PENDING_FILE).text(tag).integer(
            data.progress_bytes as i64,
        ).integer(data.file_size_bytes as i64).text(data.transfer_id.0.as_str()).text(id),
        (None, None) => Statement::of(FINISH_PENDING_FILE).text(tag).text(id),
    };
    Ok(statement.only())
}

fn plan_receive_status(transfer_id: &FylesId, status: &ReceiveStatus, progress_bytes: u64) -> (r:
    Result<Vec<Statement>, DbError>)
    ensures
        match r {
            Ok(statements) => status@.tag() matches Ok(tag) && crate::domain_models::views(
                statements@,
            ) == seq![
                crate::sqlite::statement::StatementView::of(UPDATE_RECEIVED_FILE@).text(
                    tag,
                ).integer(progress_bytes as i64).text(transfer_id@),
            ],
            Err(e) => status@.tag() matches Err(reason) && e@ == tag_error(reason),
        },
{
    match status.status_tag() {
        Ok(tag) => Ok(
            Statement::of(UPDATE_RECEIVED_FILE).text(tag).integer(progress_bytes as i64).text(
                transfer_id.0.as_str(),
            ).only(),
        ),
        Err(reason) => Err(
            DbError::DataConversion {
                message: "Failed to convert status to tag: ".to_owned().concat(reason.as_str()),
            },
        ),
    }
}

fn plan_identity(contact: &SelfContact) -> (r: Result<Vec<Statement>, DbError>)
    ensures
        r matches Ok(statements) && forall|fresh: Seq<Seq<char>>| #[trigger]
            planned(DbCommand::UpdateIdentity(*contact), fresh) == Ok::<_, crate::db::DbErrorView>(
                crate::domain_models::views(statements@),
            ),
{
    let keys = &contact.keys;
    let dilithium_private = match serialize_dilithium_private_key(&keys.private.dilithium) {
        Ok(bytes) => bytes,
        Err(_) => return Err(
            DbError::Validation { message: "Could not serialize dilithium private key".to_owned() },
        ),
    };
    let dilithium_public = match serialize_dilithium_public_key(&keys.public.dilithium) {
        Ok(bytes) => bytes,
        Err(_) => return Err(
            DbError::Validation { message: "Could not serialize dilithium public key".to_owned() },
        ),
    };
    let ed25519_private = serialize_ed25519_private_key(&keys.private.ed25519);
    let ed25519_public = serialize_ed25519_public_key(&keys.public.ed25519);
    Ok(
        Statement::of(UPDATE_IDENTITY).text(contact.name.as_str()).text(
            contact.id.0.as_str(),
        ).blob(&ed25519_private).blob(&ed25519_public).blob(&dilithium_private).blob(
            &dilithium_public,
        ).only(),
    )
}

/// New ids, as many as the command gives out.
pub fn fresh_ids(command: &DbCommand) -> (r: Vec<FylesId>)
    ensures
        r@.len() == ids_needed(*command),
        forall|i: int| 0 <= i < r@.len() ==> crate::domain_models::is_uuid((#[trigger] r@[i])@),
        forall|i: int|
            0 <= i < r@.len() ==> crate::domain_models::can_be_new_uuid((#[trigger] r@[i])@),
{
    let n: usize = match command {
        DbCommand::CreateFilerequest(_) => 1,
        DbCommand::CreateRemoteFilerequest(_) => 1,
        DbCommand::CreatePendingFiles(files) => files.file_infos.len(),
        DbCommand::CreateIncomingFile(_) => 1,
        _ => 0,
    };
    let mut ids: Vec<FylesId> = Vec::new();
    while ids.len() < n
        invariant
            ids@.len() <= n,
            forall|i: int|
                0 <= i < ids@.len() ==> crate::domain_models::is_uuid((#[trigger] ids@[i])@),
            forall|i: int|
                0 <= i < ids@.len() ==> crate::domain_models::can_be_new_uuid(
                    (#[trigger] ids@[i])@,
                ),
        decreases n - ids@.len(),
    {
        ids.push(FylesId::new());
    }
    ids
}

/// Whether the statements take effect together or not at all.
pub fn runs_atomically(command: &DbCommand) -> (r: bool)
    ensures
        r == is_atomic(*command),
{
    match command {
        DbCommand::CreateFilerequest(_) => true,
        DbCommand::UpdateFilerequest(_) => true,
        DbCommand::CreatePendingFiles(_) => true,
        _ => false,
    }
}

/// The statements that the command starts with. `fresh` are the ids that it gives out.
pub fn plan(command: &DbCommand, fresh: &Vec<FylesId>) -> (r: Result<Vec<Statement>, DbError>)
    requires
        fresh@.len() == ids_needed(*command),
    ensures
        match r {
            Ok(statements) => planned(*command, crate::domain_models::views(fresh@)) == Ok::<
                _,
                crate::db::DbErrorView,
            >(crate::domain_models::views(statements@)),
            Err(e) => planned(*command, crate::domain_models::views(fresh@)) == Err::<
                Seq<crate::sqlite::statement::StatementView>,
                _,
            >(e@),
        },
{
    match command {
        DbCommand::GetFilerequest(id) => Ok(
            Statement::of(SELECT_FILEREQUEST).text(id.0.as_str()).only(),
        ),
        DbCommand::GetFilerequests => Ok(Statement::of(SELECT_FILEREQUESTS).only()),
        DbCommand::CreateFilerequest(filerequest) => {
            assert(crate::domain_models::views(fresh@) =~= seq![fresh[0]@]);
            plan_create(filerequest, &fresh[0])
        },
        DbCommand::UpdateFilerequest(filerequest) => plan_update(filerequest),
        DbCommand::DeleteFilerequest(id) => Ok(
            Statement::of(DELETE_FILEREQUEST).text(id.0.as_str()).only(),
        ),
        DbCommand::GetContactName(id) => Ok(
            Statement::of(SELECT_CONTACT_NAME).text(id.0.as_str()).only(),
        ),
        DbCommand::GetContactNames(ids) => plan_names(ids),
        DbCommand::GetContact(id) => Ok(Statement::of(SELECT_CONTACT).text(id.0.as_str()).only()),
        DbCommand::GetContacts => Ok(Statement::of(SELECT_CONTACTS).only()),
        DbCommand::UpdateContact(contact) => Ok(
            Statement::of(UPDATE_CONTACT).text(
                contact.name.as_str(),
            ).text(contact.id.0.as_str()).only(),
        ),
        DbCommand::DeleteContact(id) => Ok(
            Statement::of(DELETE_CONTACT).text(id.0.as_str()).only(),
        ),
        DbCommand::GetContactPublicKeys(id) => Ok(
            Statement::of(SELECT_CONTACT_KEYS).text(id.0.as_str()).only(),
        ),
        DbCommand::RegisterContact(contact) => plan_register(contact),
        DbCommand::StoreNodeKeys(info) => plan_node_keys(info),
        DbCommand::GetNodeKeys => Ok(Statement::of(SELECT_NODE_KEY).only()),
        DbCommand::GetRemoteFilerequest(id) => Ok(
            Statement::of(SELECT_REMOTE_FILEREQUEST).text(id.0.as_str()).only(),
        ),
        DbCommand::GetRemoteFilerequestsByContact(id) => Ok(
            Statement::of(SELECT_REMOTE_FILEREQUESTS_OF_CONTACT).text(id.0.as_str()).only(),
        ),
        DbCommand::GetAllRemoteFilerequests => Ok(Statement::of(SELECT_REMOTE_FILEREQUESTS).only()),
        DbCommand::CreateRemoteFilerequest(request) => Ok(
            Statement::of(INSERT_REMOTE_FILEREQUEST).text(fresh[0].0.as_str()).text(
                request.peer_id.0.as_str(),
            ).text(
                request.filerequest_id.as_str(),
            ).text(request.name.as_str()).text(request.contact_id.0.as_str()).only(),
        ),
        DbCommand::UpdateRemoteFilerequest { id, name } => Ok(
            Statement::of(UPDATE_REMOTE_FILEREQUEST).text(name.as_str()).text(id.0.as_str()).only(),
        ),
        DbCommand::DeleteRemoteFilerequest(id) => Ok(
            Statement::of(DELETE_REMOTE_FILEREQUEST).text(id.0.as_str()).only(),
        ),
        DbCommand::CreatePendingFiles(files) => plan_pending(files, fresh),
        DbCommand::GetPendingFile(id) => Ok(
            Statement::of(SELECT_PENDING_FILE).text(id.0.as_str()).only(),
        ),
        DbCommand::GetPendingFiles(id) => Ok(
            Statement::of(SELECT_PENDING_FILES_OF_REQUEST).text(id.0.as_str()).only(),
        ),
        DbCommand::GetAllPendingFiles => Ok(Statement::of(SELECT_PENDING_FILES).only()),
        DbCommand::UpdatePendingFileStatus {
            id,
            status,
            retry_count,
        } => plan_send_status(id, status, *retry_count),
        DbCommand::DeletePendingFile(id) => Ok(
            Statement::of(DELETE_PENDING_FILE).text(id.0.as_str()).only(),
        ),
        DbCommand::AddInterruptionReason { id, .. } => Ok(
            Statement::of(SELECT_INTERRUPTION_REASONS).text(id.0.as_str()).only(),
        ),
        DbCommand::CountNonTerminalPendingFilesForPath(id) => Ok(
            Statement::of(COUNT_UNFINISHED_PENDING_FILES).text(id.0.as_str()).only(),
        ),
        DbCommand::CreateIncomingFile(file) => Ok(
            Statement::of(INSERT_INCOMING_FILE).text(fresh[0].0.as_str()).nullable_text(
                optional_id(&file.contact_id),
            ).text(file.peer_id.as_str()).text(
                file.filerequest_id.0.as_str(),
            ).text(
                file.transfer_id.0.as_str(),
            ).text(file.file_name.as_str()).integer(
                file.file_size_bytes as i64,
            ).integer(file.started_at_ms).only(),
        ),
        DbCommand::UpdateReceivedFileStatus {
            transfer_id,
            status,
            progress_bytes,
        } => plan_receive_status(transfer_id, status, *progress_bytes),
        DbCommand::GetReceivedFileByTransferId(id) => Ok(
            Statement::of(SELECT_RECEIVED_FILE).text(id.0.as_str()).only(),
        ),
        DbCommand::CompleteReceivedFile(file) => Ok(
            Statement::of(COMPLETE_RECEIVED_FILE).text(
                file.file_path.as_str(),
            ).integer(file.received_at_ms).text(
                file.transfer_id.0.as_str(),
            ).only(),
        ),
        DbCommand::ListReceivedFiles(id) => Ok(
            Statement::of(SELECT_RECEIVED_FILES_OF_REQUEST).text(id.0.as_str()).only(),
        ),
        DbCommand::DeleteReceivedFile(id) => Ok(
            Statement::of(DELETE_RECEIVED_FILE).text(id.0.as_str()).only(),
        ),
        DbCommand::GetStaleReceivedFiles { older_than_ms } => Ok(
            Statement::of(SELECT_STALE_RECEIVED_FILES).integer(*older_than_ms).only(),
        ),
        DbCommand::GetSelfContact => Ok(Statement::of(SELECT_SELF_CONTACT).only()),
        DbCommand::GetSelfContactForDisplay => Ok(Statement::of(SELECT_SELF_CONTACT_NAME).only()),
        DbCommand::UpdateSelfContactName(name) => Ok(
            Statement::of(UPDATE_SELF_CONTACT_NAME).text(name.as_str()).only(),
        ),
        DbCommand::UpdateIdentity(contact) => plan_identity(contact),
        DbCommand::GetSharablePublicSelfContact => Ok(
            Statement::of(SELECT_SHARABLE_CONTACT).only(),
        ),
        DbCommand::GetSettings => Ok(Statement::of(SELECT_SETTINGS).only()),
        DbCommand::StoreSettings(data) => Ok(
            Statement::of(STORE_SETTINGS).blob(data).text(SETTINGS_VERSION).only(),
        ),
        DbCommand::BackupDatabase => Ok(nothing()),
        DbCommand::RestoreDatabase => Ok(nothing()),
    }
}

fn nothing() -> (r: Vec<Statement>)
    ensures
        crate::domain_models::views(r@) == Seq::<
            crate::sqlite::statement::StatementView,
        >::empty(),
{
    let r: Vec<Statement> = Vec::new();
    assert(crate::domain_models::views(r@) =~= Seq::empty());
    r
}

/// Who is meant by a file request whose access is restricted.
pub fn audience_query(id: &FylesId) -> (r: Statement)
    ensures
        r@ == crate::sqlite::statement::StatementView::of(SELECT_AUDIENCE@).text(id@),
{
    Statement::of(SELECT_AUDIENCE).text(id.0.as_str())
}

/// Whose file request the files are for.
pub fn contact_of_request_query(target_filerequest_id: &FylesId) -> (r: Statement)
    ensures
        r@ == crate::sqlite::statement::StatementView::of(SELECT_CONTACT_OF_REQUEST@).text(
            target_filerequest_id@,
        ),
{
    Statement::of(SELECT_CONTACT_OF_REQUEST).text(target_filerequest_id.0.as_str())
}

pub fn self_contact_query() -> (r: Statement)
    ensures
        r@ == crate::sqlite::statement::StatementView::of(SELECT_SELF_CONTACT@),
{
    Statement::of(SELECT_SELF_CONTACT)
}

pub fn store_interruption_reasons(id: &FylesId, reasons: &str) -> (r: Statement)
    ensures
        r@ == crate::sqlite::statement::StatementView::of(STORE_INTERRUPTION_REASONS@).text(
            reasons@,
        ).text(id@),
{
    Statement::of(STORE_INTERRUPTION_REASONS).text(reasons).text(id.0.as_str())
}

} // verus!
