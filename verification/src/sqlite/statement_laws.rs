//! What the database is asked for by each command, and how its rows are read.
use vstd::prelude::*;

use crate::brain::exchange::{Answer, DbCommand, DbReply};
use crate::domain_models::{FylesId, SendStatus};
use crate::sqlite::actor::{Ask, DbStep, Event, Waiting};
use crate::sqlite::rows::{FilerequestRow, PendingFileRow, ReceivedFileRow};

verus! {

/// Whether the command begins with the one statement, run with the values in this order.
pub open spec fn runs(
    command: DbCommand,
    fresh: Seq<Seq<char>>,
    sql: Seq<char>,
    params: Seq<crate::sqlite::statement::SqlValueView>,
) -> bool {
    &&& crate::sqlite::plan::planned(command, fresh) matches Ok(statements)
    &&& statements.len() == 1
    &&& statements[0].sql == sql
    &&& statements[0].params =~= params
}

/// What is read is selected by what the command names: by its id where one thing is read, by the
/// contact, the request or the transfer where several are, and without a condition where all are.
pub proof fn law_reads_select_what_is_named(command: DbCommand, fresh: Seq<Seq<char>>)
    ensures
        match command {
            DbCommand::GetFilerequest(id) => runs(
                command,
                fresh,
                "SELECT id, title, description, status, access_type FROM filerequests WHERE id = ?"@,
                seq![
                    crate::sqlite::statement::SqlValueView::Text(id@),
                ],
            ),
            DbCommand::GetFilerequests => runs(
                command,
                fresh,
                "SELECT id, title, description, status, access_type FROM filerequests"@,
                Seq::empty(),
            ),
            DbCommand::GetContactName(id) => runs(
                command,
                fresh,
                "SELECT name FROM contacts WHERE id = ?"@,
                seq![
                    crate::sqlite::statement::SqlValueView::Text(id@),
                ],
            ),
            DbCommand::GetContact(id) => runs(
                command,
                fresh,
                "SELECT id, name, dilithium_public_key, ed25519_public_key FROM contacts WHERE id = ?"@,
                seq![
                    crate::sqlite::statement::SqlValueView::Text(id@),
                ],
            ),
            DbCommand::GetContacts => runs(
                command,
                fresh,
                "SELECT id, name FROM contacts"@,
                Seq::empty(),
            ),
            DbCommand::GetContactPublicKeys(id) => runs(
                command,
                fresh,
                "SELECT dilithium_public_key, ed25519_public_key FROM contacts WHERE id = ?"@,
                seq![
                    crate::sqlite::statement::SqlValueView::Text(id@),
                ],
            ),
            DbCommand::GetNodeKeys => runs(
                command,
                fresh,
                "SELECT key_bytes FROM node_keys WHERE id = 1"@,
                Seq::empty(),
            ),
            DbCommand::GetRemoteFilerequest(id) => runs(
                command,
                fresh,
                "SELECT id, peer_id, filerequest_id, name, contact_id FROM remote_filerequests WHERE id = ?"@,
                seq![
                    crate::sqlite::statement::SqlValueView::Text(id@),
                ],
            ),
            DbCommand::GetRemoteFilerequestsByContact(id) => runs(
                command,
                fresh,
                "SELECT id, peer_id, filerequest_id, name, contact_id FROM remote_filerequests WHERE contact_id = ?"@,
                seq![
                    crate::sqlite::statement::SqlValueView::Text(id@),
                ],
            ),
            DbCommand::GetAllRemoteFilerequests => runs(
                command,
                fresh,
                "SELECT id, peer_id, filerequest_id, name, contact_id FROM remote_filerequests"@,
                Seq::empty(),
            ),
            DbCommand::GetPendingFile(id) => runs(
                command,
                fresh,
                "SELECT id, file_path, target_filerequest_id, status, retry_count, progress_bytes, file_size_bytes,
     transfer_id, display_name, interruption_reasons FROM pending_files WHERE id = ?"@,
                seq![
                    crate::sqlite::statement::SqlValueView::Text(id@),
                ],
            ),
            DbCommand::GetPendingFiles(id) => runs(
                command,
                fresh,
                "SELECT id, file_path, target_filerequest_id, status, retry_count, progress_bytes, file_size_bytes,
     transfer_id, display_name, interruption_reasons FROM pending_files WHERE target_filerequest_id = ?"@,
                seq![
                    crate::sqlite::statement::SqlValueView::Text(id@),
                ],
            ),
            DbCommand::GetAllPendingFiles => runs(
                command,
                fresh,
                "SELECT p.id, p.file_path, p.target_filerequest_id, p.status, p.retry_count, p.progress_bytes,
     p.file_size_bytes, p.transfer_id, p.display_name, p.interruption_reasons, r.contact_id
     FROM pending_files p
     JOIN remote_filerequests r ON p.target_filerequest_id = r.id"@,
                Seq::empty(),
            ),
            DbCommand::AddInterruptionReason { id, .. } => runs(
                command,
                fresh,
                "SELECT interruption_reasons FROM pending_files WHERE id = ?"@,
                seq![
                    crate::sqlite::statement::SqlValueView::Text(id@),
                ],
            ),
            DbCommand::CountNonTerminalPendingFilesForPath(id) => runs(
                command,
                fresh,
                "SELECT COUNT(*) FROM pending_files
     WHERE file_path = (SELECT file_path FROM pending_files WHERE id = ?1)
       AND id != ?1
       AND status IN ('Pending', 'Sending', 'Interrupted')"@,
                seq![
                    crate::sqlite::statement::SqlValueView::Text(id@),
                ],
            ),
            DbCommand::GetReceivedFileByTransferId(id) => runs(
                command,
                fresh,
                "SELECT id, contact_id, peer_id, filerequest_id, transfer_id, file_name, file_path, file_size_bytes,
     progress_bytes, status, started_at_ms, received_at_ms
     FROM received_files WHERE transfer_id = ?"@,
                seq![
                    crate::sqlite::statement::SqlValueView::Text(id@),
                ],
            ),
            DbCommand::ListReceivedFiles(id) => runs(
                command,
                fresh,
                "SELECT id, contact_id, peer_id, filerequest_id, transfer_id, file_name, file_path, file_size_bytes,
     progress_bytes, status, started_at_ms, received_at_ms
     FROM received_files WHERE filerequest_id = ?"@,
                seq![
                    crate::sqlite::statement::SqlValueView::Text(id@),
                ],
            ),
            DbCommand::GetStaleReceivedFiles { older_than_ms } => runs(
                command,
                fresh,
                "SELECT id, contact_id, peer_id, filerequest_id, transfer_id, file_name, file_path, file_size_bytes,
     progress_bytes, status, started_at_ms, received_at_ms
     FROM received_files
     WHERE status IN ('Receiving', 'Interrupted')
       AND started_at_ms < ?"@,
                seq![
                    crate::sqlite::statement::SqlValueView::Integer(older_than_ms),
                ],
            ),
            DbCommand::GetSelfContact => runs(
                command,
                fresh,
                "SELECT contact_id, name, ed25519_private_key, ed25519_public_key, dilithium_private_key,
     dilithium_public_key
     FROM self_contact WHERE id = 1"@,
                Seq::empty(),
            ),
            DbCommand::GetSelfContactForDisplay => runs(
                command,
                fresh,
                "SELECT contact_id, name FROM self_contact WHERE id = 1"@,
                Seq::empty(),
            ),
            DbCommand::GetSharablePublicSelfContact => runs(
                command,
                fresh,
                "SELECT contact_id, name, dilithium_public_key, ed25519_public_key FROM self_contact WHERE id = 1"@,
                Seq::empty(),
            ),
            DbCommand::GetSettings => runs(
                command,
                fresh,
                "SELECT data FROM settings WHERE id = 1"@,
                Seq::empty(),
            ),
            _ => true,
        },
{
}

/// What is deleted or changed is the row that the command names, and each column gets the value that
/// belongs there; a new row has the new id.
pub proof fn law_changes_touch_what_is_named(command: DbCommand, fresh: Seq<Seq<char>>)
    ensures
        match command {
            DbCommand::DeleteFilerequest(id) => runs(
                command,
                fresh,
                "DELETE FROM filerequests WHERE id = ?"@,
                seq![
                    crate::sqlite::statement::SqlValueView::Text(id@),
                ],
            ),
            DbCommand::UpdateContact(contact) => runs(
                command,
                fresh,
                "UPDATE contacts SET name = ?, updated_at = datetime('now')
     WHERE id = ?"@,
                seq![
                    crate::sqlite::statement::SqlValueView::Text(contact.name@),
                    crate::sqlite::statement::SqlValueView::Text(contact.id@),
                ],
            ),
            DbCommand::DeleteContact(id) => runs(
                command,
                fresh,
                "DELETE FROM contacts WHERE id = ?"@,
                seq![
                    crate::sqlite::statement::SqlValueView::Text(id@),
                ],
            ),
            DbCommand::RegisterContact(contact) => runs(
                command,
                fresh,
                "INSERT INTO contacts (id, name, created_at, updated_at, ed25519_public_key, dilithium_public_key)
     VALUES (?, ?, datetime('now'), datetime('now'), ?, ?)"@,
                seq![
                    crate::sqlite::statement::SqlValueView::Text(contact.id@),
                    crate::sqlite::statement::SqlValueView::Text(contact.name@),
                    crate::sqlite::statement::SqlValueView::Blob(contact.public_keys@.ed25519),
                    crate::sqlite::statement::SqlValueView::Blob(contact.public_keys@.dilithium),
                ],
            ),
            DbCommand::CreateRemoteFilerequest(request) => runs(
                command,
                fresh,
                "INSERT INTO remote_filerequests (id, peer_id, filerequest_id, name, created_at, contact_id)
     VALUES (?, ?, ?, ?, datetime('now'), ?)"@,
                seq![
                    crate::sqlite::statement::SqlValueView::Text(fresh[0]),
                    crate::sqlite::statement::SqlValueView::Text(request.peer_id@),
                    crate::sqlite::statement::SqlValueView::Text(request.filerequest_id@),
                    crate::sqlite::statement::SqlValueView::Text(request.name@),
                    crate::sqlite::statement::SqlValueView::Text(request.contact_id@),
                ],
            ),
            DbCommand::UpdateRemoteFilerequest { id, name } => runs(
                command,
                fresh,
                "UPDATE remote_filerequests
     SET name = ?
     WHERE id = ?"@,
                seq![
                    crate::sqlite::statement::SqlValueView::Text(name@),
                    crate::sqlite::statement::SqlValueView::Text(id@),
                ],
            ),
            DbCommand::DeleteRemoteFilerequest(id) => runs(
                command,
                fresh,
                "DELETE FROM remote_filerequests WHERE id = ?"@,
                seq![
                    crate::sqlite::statement::SqlValueView::Text(id@),
                ],
            ),
            DbCommand::DeletePendingFile(id) => runs(
                command,
                fresh,
                "DELETE FROM pending_files WHERE id = ?"@,
                seq![
                    crate::sqlite::statement::SqlValueView::Text(id@),
                ],
            ),
            DbCommand::CompleteReceivedFile(file) => runs(
                command,
                fresh,
                "UPDATE received_files
     SET file_path = ?, received_at_ms = ?, status = 'Completed'
     WHERE transfer_id = ?
     RETURNING id"@,
                seq![
                    crate::sqlite::statement::SqlValueView::Text(file.file_path@),
                    crate::sqlite::statement::SqlValueView::Integer(file.received_at_ms),
                    crate::sqlite::statement::SqlValueView::Text(file.transfer_id@),
                ],
            ),
            DbCommand::DeleteReceivedFile(id) => runs(
                command,
                fresh,
                "DELETE FROM received_files WHERE id = ?"@,
                seq![
                    crate::sqlite::statement::SqlValueView::Text(id@),
                ],
            ),
            DbCommand::UpdateSelfContactName(name) => runs(
                command,
                fresh,
                "UPDATE self_contact SET name = ? WHERE id = 1"@,
                seq![
                    crate::sqlite::statement::SqlValueView::Text(name@),
                ],
            ),
            DbCommand::UpdateIdentity(contact) => runs(
                command,
                fresh,
                "UPDATE self_contact
     SET name = ?,
         contact_id = ?,
         ed25519_private_key = ?,
         ed25519_public_key = ?,
         dilithium_private_key = ?,
         dilithium_public_key = ?
     WHERE id = 1"@,
                seq![
                    crate::sqlite::statement::SqlValueView::Text(contact.name@),
                    crate::sqlite::statement::SqlValueView::Text(contact.id@),
                    crate::sqlite::statement::SqlValueView::Blob(contact.keys@.private.ed25519),
                    crate::sqlite::statement::SqlValueView::Blob(contact.keys@.public.ed25519),
                    crate::sqlite::statement::SqlValueView::Blob(contact.keys@.private.dilithium),
                    crate::sqlite::statement::SqlValueView::Blob(contact.keys@.public.dilithium),
                ],
            ),
            DbCommand::StoreSettings(data) => runs(
                command,
                fresh,
                "INSERT INTO settings (id, data, version) VALUES (1, ?1, ?2)
     ON CONFLICT(id) DO UPDATE SET data = excluded.data, version = excluded.version"@,
                seq![
                    crate::sqlite::statement::SqlValueView::Blob(data@),
                    crate::sqlite::statement::SqlValueView::Text("1.0.0"@),
                ],
            ),
            _ => true,
        },
{
}

/// A new file request is inserted under the new id with all that was asked for, and each of its
/// audience in a row of its own; the statements take effect together or not at all.
pub proof fn law_new_filerequests_are_inserted(
    filerequest: crate::domain_models::CreateFilerequest,
    fresh: Seq<Seq<char>>,
)
    ensures
        crate::sqlite::plan::is_atomic(DbCommand::CreateFilerequest(filerequest)),
        crate::sqlite::plan::planned(DbCommand::CreateFilerequest(filerequest), fresh) matches Ok(
            statements,
        ) && {
            &&& statements[0].sql
                == "INSERT INTO filerequests (id, title, description, created_at, updated_at, status, access_type)
     VALUES (?1, ?2, ?3, datetime('now'), datetime('now'), ?4, ?5)"@
            &&& statements[0].params == seq![
                crate::sqlite::statement::SqlValueView::Text(fresh[0]),
                crate::sqlite::statement::SqlValueView::Text(filerequest.title@),
                crate::sqlite::statement::SqlValueView::Text(filerequest.description@),
                crate::sqlite::statement::SqlValueView::Text(
                    if filerequest.is_active {
                        "active"@
                    } else {
                        "paused"@
                    },
                ),
                crate::sqlite::statement::SqlValueView::Text(
                    if filerequest.access is Public {
                        "public"@
                    } else {
                        "audience"@
                    },
                ),
            ]
            &&& match filerequest.access {
                crate::domain_models::FilerequestAccess::Public => statements.len() == 1,
                crate::domain_models::FilerequestAccess::Audience { contact_ids } => {
                    &&& statements.len() == 1 + contact_ids@.len()
                    &&& forall|i: int|
                        0 <= i < contact_ids@.len() ==> {
                            &&& (#[trigger] statements[i + 1]).sql
                                == "INSERT INTO filerequest_audience (filerequest_id, contact_id, created_at)
     VALUES (?, ?, datetime('now'))"@
                            &&& statements[i + 1].params == seq![
                                crate::sqlite::statement::SqlValueView::Text(fresh[0]),
                                crate::sqlite::statement::SqlValueView::Text(contact_ids@[i]@),
                            ]
                        }
                },
            }
        },
{
    if let crate::domain_models::FilerequestAccess::Audience { contact_ids } = filerequest.access {
        let views = crate::domain_models::views(contact_ids@);
        assert(forall|i: int| 0 <= i < contact_ids@.len() ==> views[i] == (
        #[trigger] contact_ids@[i])@);
    }
}

/// New files to send are inserted one for one: each under its own new id, with the path and the name
/// that were asked for in its place, as pending and for the request that was named; all of them or
/// none.
pub proof fn law_new_files_are_inserted(
    files: crate::domain_models::CreatePendingFiles,
    fresh: Seq<Seq<char>>,
)
    ensures
        crate::sqlite::plan::is_atomic(DbCommand::CreatePendingFiles(files)),
        crate::sqlite::plan::ids_needed(DbCommand::CreatePendingFiles(files))
            == files.file_infos@.len(),
        crate::sqlite::plan::planned(DbCommand::CreatePendingFiles(files), fresh) matches Ok(
            statements,
        ) && {
            &&& statements.len() == files.file_infos@.len()
            &&& forall|i: int|
                0 <= i < statements.len() ==> {
                    &&& (#[trigger] statements[i]).sql
                        == "INSERT INTO pending_files (id, file_path, target_filerequest_id, status, display_name, created_at)
     VALUES (?, ?, ?, ?, ?, datetime('now'))"@
                    &&& statements[i].params == seq![
                        crate::sqlite::statement::SqlValueView::Text(fresh[i]),
                        crate::sqlite::statement::SqlValueView::Text(files.file_infos@[i].path@),
                        crate::sqlite::statement::SqlValueView::Text(files.target_filerequest_id@),
                        crate::sqlite::statement::SqlValueView::Text("Pending"@),
                        match files.file_infos@[i].display_name {
                            Some(name) => crate::sqlite::statement::SqlValueView::Text(name@),
                            None => crate::sqlite::statement::SqlValueView::Null,
                        },
                    ]
                }
        },
{
    assert(files@.file_infos.len() == files.file_infos@.len());
    assert(forall|i: int| 0 <= i < files.file_infos@.len() ==> files@.file_infos[i] == (
    #[trigger] files.file_infos@[i])@);
}

/// The keys of the node are stored as they are, and its owner with a new id and these keys.
pub proof fn law_node_keys_are_stored(info: crate::db::NodeInfo, fresh: Seq<Seq<char>>)
    ensures
        crate::sqlite::plan::planned(DbCommand::StoreNodeKeys(info), fresh) matches Ok(statements)
            && {
            &&& statements.len() == 2
            &&& statements[0].sql
                == "INSERT OR REPLACE INTO node_keys (id, key_bytes) VALUES (1, ?)"@
            &&& statements[0].params == seq![crate::sqlite::statement::SqlValueView::Blob(info.node_key_pair@)]
            &&& statements[1].sql
                == "INSERT OR REPLACE INTO self_contact (id, contact_id, name, dilithium_private_key,
     dilithium_public_key, ed25519_private_key, ed25519_public_key) VALUES (1, ?, ?, ?, ?, ?, ?)"@
            &&& statements[1].params == seq![
                crate::sqlite::statement::SqlValueView::Text(info.self_contact_id@),
                crate::sqlite::statement::SqlValueView::Text(info.self_contact_id@),
                crate::sqlite::statement::SqlValueView::Blob(info.self_contact_keys@.private.dilithium),
                crate::sqlite::statement::SqlValueView::Blob(info.self_contact_keys@.public.dilithium),
                crate::sqlite::statement::SqlValueView::Blob(info.self_contact_keys@.private.ed25519),
                crate::sqlite::statement::SqlValueView::Blob(info.self_contact_keys@.public.ed25519),
            ]
        },
{
}

/// A file that is about to be received is inserted under the new id, with nothing of it there yet.
pub proof fn law_incoming_files_are_inserted(
    file: crate::domain_models::CreateIncomingFile,
    fresh: Seq<Seq<char>>,
)
    ensures
        runs(
            DbCommand::CreateIncomingFile(file),
            fresh,
            "INSERT INTO received_files
     (id, contact_id, peer_id, filerequest_id, transfer_id, file_name, file_path, file_size_bytes,
      progress_bytes, status, started_at_ms, received_at_ms)
     VALUES (?, ?, ?, ?, ?, ?, NULL, ?, 0, 'Receiving', ?, NULL)"@,
            seq![
                crate::sqlite::statement::SqlValueView::Text(fresh[0]),
                match file.contact_id {
                    Some(id) => crate::sqlite::statement::SqlValueView::Text(id@),
                    None => crate::sqlite::statement::SqlValueView::Null,
                },
                crate::sqlite::statement::SqlValueView::Text(file.peer_id@),
                crate::sqlite::statement::SqlValueView::Text(file.filerequest_id@),
                crate::sqlite::statement::SqlValueView::Text(file.transfer_id@),
                crate::sqlite::statement::SqlValueView::Text(file.file_name@),
                crate::sqlite::statement::SqlValueView::Integer(file.file_size_bytes as i64),
                crate::sqlite::statement::SqlValueView::Integer(file.started_at_ms),
            ],
        ),
{
}

/// The new status of a file to send is stored in its row and no other: with the number of tries
/// where one is named, and with how far the transfer got where there is one. A status that is only
/// passed through, or not recognized, is not stored, and the command fails.
pub proof fn law_send_status_is_stored_of_the_file(
    id: FylesId,
    status: SendStatus,
    retry_count: Option<usize>,
    fresh: Seq<Seq<char>>,
)
    ensures
        ({
            let command = DbCommand::UpdatePendingFileStatus { id, status, retry_count };
            let tag = match status {
                SendStatus::Pending => Some("Pending"@),
                SendStatus::InProgress(progress) => match progress.status {
                    crate::domain_models::InProgressSendStatus::Sending => Some("Sending"@),
                    crate::domain_models::InProgressSendStatus::Interrupted => Some(
                        "Interrupted"@,
                    ),
                    _ => None,
                },
                SendStatus::Sent => Some("Sent"@),
                SendStatus::Rejected => Some("Rejected"@),
                SendStatus::Failed => Some("Failed"@),
                SendStatus::Unknown(_) => None,
            };
            match (tag, retry_count, status) {
                (None, _, _) => crate::sqlite::plan::planned(command, fresh) is Err,
                (Some(tag), Some(count), SendStatus::InProgress(progress)) => runs(
                    command,
                    fresh,
                    "UPDATE pending_files SET status = ?, retry_count = ?, progress_bytes = ?, file_size_bytes = ?,
     transfer_id = ? WHERE id = ? RETURNING target_filerequest_id"@,
                    seq![
                        crate::sqlite::statement::SqlValueView::Text(tag),
                        crate::sqlite::statement::SqlValueView::Size(count),
                        crate::sqlite::statement::SqlValueView::Integer(progress.transfer_data.progress_bytes as i64),
                        crate::sqlite::statement::SqlValueView::Integer(progress.transfer_data.file_size_bytes as i64),
                        crate::sqlite::statement::SqlValueView::Text(progress.transfer_data.transfer_id@),
                        crate::sqlite::statement::SqlValueView::Text(id@),
                    ],
                ),
                (Some(tag), Some(count), _) => runs(
                    command,
                    fresh,
                    "UPDATE pending_files SET status = ?, retry_count = ?, progress_bytes = ?, file_size_bytes = ?,
     transfer_id = ? WHERE id = ? RETURNING target_filerequest_id"@,
                    seq![
                        crate::sqlite::statement::SqlValueView::Text(tag),
                        crate::sqlite::statement::SqlValueView::Size(count),
                        crate::sqlite::statement::SqlValueView::Null,
                        crate::sqlite::statement::SqlValueView::Null,
                        crate::sqlite::statement::SqlValueView::Null,
                        crate::sqlite::statement::SqlValueView::Text(id@),
                    ],
                ),
                (Some(tag), None, SendStatus::InProgress(progress)) => runs(
                    command,
                    fresh,
                    "UPDATE pending_files SET status = ?, progress_bytes = ?, file_size_bytes = ?, transfer_id = ?
     WHERE id = ? RETURNING target_filerequest_id"@,
                    seq![
                        crate::sqlite::statement::SqlValueView::Text(tag),
                        crate::sqlite::statement::SqlValueView::Integer(progress.transfer_data.progress_bytes as i64),
                        crate::sqlite::statement::SqlValueView::Integer(progress.transfer_data.file_size_bytes as i64),
                        crate::sqlite::statement::SqlValueView::Text(progress.transfer_data.transfer_id@),
                        crate::sqlite::statement::SqlValueView::Text(id@),
                    ],
                ),
                (Some(tag), None, _) => runs(
                    command,
                    fresh,
                    "UPDATE pending_files SET status = ? WHERE id = ? RETURNING target_filerequest_id"@,
                    seq![crate::sqlite::statement::SqlValueView::Text(tag), crate::sqlite::statement::SqlValueView::Text(id@)],
                ),
            }
        }),
{
}

/// What is replied to a command that gives out ids are the ids of the new rows, and only where the
/// database made them.
pub proof fn law_new_rows_are_known_by_their_ids(
    command: DbCommand,
    shown: Seq<char>,
    fresh: Vec<FylesId>,
    asked: DbStep,
    event: Event,
    replied: DbStep,
)
    requires
        command is CreateFilerequest || command is CreateRemoteFilerequest
            || command is CreateIncomingFile || command is CreatePendingFiles,
        crate::sqlite::actor::starts(command, shown, fresh, asked),
        asked matches DbStep::Ask(ask, waiting) && ask.is_answered_by(event)
            && crate::sqlite::actor::concludes(waiting, event, replied),
    ensures
        match event {
            Event::Executed(_) => if command is CreatePendingFiles {
                replied == DbStep::Reply(DbReply::Ids(Ok(fresh)))
            } else {
                replied == DbStep::Reply(DbReply::Id(Ok(fresh@[0])))
            },
            _ => replied matches DbStep::Reply(reply) && (reply matches Answer::Id(Err(_))
                || reply matches Answer::Ids(Err(_))),
        },
{
}

/// A change that the database made no row of is answered with an error, where it has to be of one
/// that is there; every other change that the database carried out is answered with success, and one
/// that it failed to carry out with an error.
pub proof fn law_changes_are_answered_as_they_were_made(
    command: DbCommand,
    shown: Seq<char>,
    fresh: Vec<FylesId>,
    asked: DbStep,
    event: Event,
    replied: DbStep,
)
    requires
        command is UpdateFilerequest || command is DeleteFilerequest || command is UpdateContact
            || command is DeleteContact || command is RegisterContact || command is StoreNodeKeys
            || command is UpdateRemoteFilerequest || command is DeleteRemoteFilerequest
            || command is DeletePendingFile || command is UpdateReceivedFileStatus
            || command is DeleteReceivedFile || command is UpdateSelfContactName
            || command is UpdateIdentity || command is StoreSettings,
        crate::sqlite::actor::starts(command, shown, fresh, asked),
        asked matches DbStep::Ask(ask, waiting) && ask.is_answered_by(event)
            && crate::sqlite::actor::concludes(waiting, event, replied),
    ensures
        replied matches DbStep::Reply(Answer::Unit(result)) && (result is Ok <==> {
            &&& event matches Event::Executed(changes)
            &&& changes > 0 || !(command is UpdateFilerequest || command is DeleteContact
                || command is UpdateReceivedFileStatus || command is DeleteReceivedFile)
        }),
{
}

/// Where the database fails, whatever was asked for, the reply is an error.
pub proof fn law_failures_of_the_database_are_replied(
    waiting: Waiting,
    source: String,
    replied: DbStep,
)
    requires
        crate::sqlite::actor::concludes(waiting, Event::Failed(source), replied),
    ensures
        replied matches DbStep::Reply(reply) && match reply {
            Answer::Unit(result) => result is Err,
            Answer::Flag(result) => result is Err,
            Answer::Id(result) => result is Err,
            Answer::Ids(result) => result is Err,
            Answer::Text(result) => result is Err,
            Answer::Names(result) => result is Err,
            Answer::Filerequest(result) => result is Err,
            Answer::Filerequests(result) => result is Err,
            Answer::Contact(result) => result is Err,
            Answer::DisplayContact(result) => result is Err,
            Answer::DisplayContacts(result) => result is Err,
            Answer::SelfContact(result) => result is Err,
            Answer::RemoteFilerequest(result) => result is Err,
            Answer::RemoteFilerequests(result) => result is Err,
            Answer::PendingFile(result) => result is Err,
            Answer::PendingFiles(result) => result is Err,
            Answer::ReceivedFile(result) => result is Err,
            Answer::ReceivedFiles(result) => result is Err,
            Answer::NodeInfo(result) => result is Err,
            Answer::NodeStatus(result) => result is Err,
            Answer::PublicKeys(result) => result is Err,
            Answer::Settings(result) => result is Err,
            Answer::Count(result) => result is Err,
        },
{
}

/// What is read of a file to send is what its row holds, and the contact is the one that the
/// database names for the request that the row names.
pub proof fn law_files_are_read_as_they_are_stored(
    reading: Waiting,
    row: PendingFileRow,
    between: DbStep,
    contact_id: String,
    replied: DbStep,
)
    requires
        reading.stage is PendingRead,
        crate::sqlite::actor::concludes(reading, Event::PendingFile(row), between),
        between matches DbStep::Ask(_, waiting) && crate::sqlite::actor::concludes(
            waiting,
            Event::Text(Some(contact_id)),
            replied,
        ),
    ensures
        between matches DbStep::Ask(Ask::Text(statement), _) && statement@.sql
            == "SELECT contact_id FROM remote_filerequests WHERE id = ?"@ && statement@.params
            == seq![crate::sqlite::statement::SqlValueView::Text(row.target_filerequest_id@)],
        replied matches DbStep::Reply(Answer::PendingFile(Ok(file))) ==> {
            &&& file.id@ == row.id@
            &&& file.contact_id@ == contact_id@
            &&& file.file_path@ == row.file_path@
            &&& file.retry_count == row.retry_count
            &&& file.target_filerequest_id@ == row.target_filerequest_id@
            &&& crate::domain_models::opt_view(file.display_name)
                == crate::domain_models::opt_view(row.display_name)
            &&& row.status@ == "Pending"@ ==> file.status is Pending
            &&& row.status@ == "Sent"@ ==> file.status is Sent
            &&& row.status@ == "Rejected"@ ==> file.status is Rejected
            &&& row.status@ == "Failed"@ ==> file.status is Failed
        },
{
    lemma_statuses_differ();
    if let DbStep::Reply(Answer::PendingFile(Ok(file))) = replied {
        assert(file@.id == file.id@);
    }
}

proof fn lemma_statuses_differ()
    ensures
        "Pending"@ != "Sent"@,
        "Pending"@ != "Rejected"@,
        "Pending"@ != "Failed"@,
        "Pending"@ != "Sending"@,
        "Pending"@ != "Interrupted"@,
        "Sent"@ != "Rejected"@,
        "Sent"@ != "Failed"@,
        "Sent"@ != "Sending"@,
        "Sent"@ != "Interrupted"@,
        "Rejected"@ != "Failed"@,
        "Rejected"@ != "Sending"@,
        "Rejected"@ != "Interrupted"@,
        "Failed"@ != "Sending"@,
        "Failed"@ != "Interrupted"@,
{
    reveal_strlit("Pending");
    reveal_strlit("Sent");
    reveal_strlit("Rejected");
    reveal_strlit("Failed");
    reveal_strlit("Sending");
    reveal_strlit("Interrupted");
    assert("Pending"@[0] == 'P');
    assert("Sent"@.len() == 4);
    assert("Rejected"@[0] == 'R');
    assert("Failed"@[0] == 'F');
    assert("Sending"@[0] == 'S');
    assert("Interrupted"@[0] == 'I');
    assert("Sent"@[0] == 'S');
    assert("Sending"@.len() == 7);
}

/// What is read of a received file is what its row holds.
pub proof fn law_received_files_are_read_as_they_are_stored(
    reading: Waiting,
    row: ReceivedFileRow,
    replied: DbStep,
)
    requires
        reading.stage is ReceivedRead,
        crate::sqlite::actor::concludes(reading, Event::ReceivedFile(row), replied),
    ensures
        replied matches DbStep::Reply(Answer::ReceivedFile(Ok(file))) && {
            &&& file.id@ == row.id@
            &&& crate::domain_models::opt_view(file.contact_id) == crate::domain_models::opt_view(
                row.contact_id,
            )
            &&& file.peer_id@ == row.peer_id@
            &&& file.filerequest_id@ == row.filerequest_id@
            &&& crate::domain_models::opt_view(file.transfer_id) == crate::domain_models::opt_view(
                row.transfer_id,
            )
            &&& file.file_name@ == row.file_name@
            &&& crate::domain_models::opt_view(file.file_path) == crate::domain_models::opt_view(
                row.file_path,
            )
            &&& file.file_size_bytes == row.file_size_bytes as u64
            &&& file.progress_bytes == row.progress_bytes as u64
            &&& file.started_at_ms == row.started_at_ms
            &&& file.received_at_ms == row.received_at_ms
            &&& row.status@ == "Receiving"@ ==> file.status is Receiving
            &&& row.status@ == "Completed"@ ==> file.status is Completed
        },
{
    reveal_strlit("Receiving");
    reveal_strlit("Completed");
    reveal_strlit("Interrupted");
    reveal_strlit("Failed");
    assert("Receiving"@[0] == 'R');
    assert("Completed"@[0] == 'C');
    assert("Interrupted"@[0] == 'I');
    assert("Failed"@[0] == 'F');
    if let DbStep::Reply(Answer::ReceivedFile(Ok(file))) = replied {
        assert(file@.id == file.id@);
    }
}

/// What is read of a file request is what its row holds; where it is for some contacts only, these
/// are the ones that the database names for that request.
pub proof fn law_filerequests_are_read_as_they_are_stored(
    reading: Waiting,
    row: FilerequestRow,
    members: Vec<String>,
    first: DbStep,
    second: DbStep,
)
    requires
        reading.stage is FilerequestRead,
        crate::sqlite::actor::concludes(reading, Event::Filerequest(row), first),
        first matches DbStep::Ask(_, waiting) ==> crate::sqlite::actor::concludes(
            waiting,
            Event::Texts(members),
            second,
        ),
    ensures
        first is Ask <==> row.access_type@ == "audience"@,
        first matches DbStep::Ask(ask, _) ==> {
            &&& ask matches Ask::Texts(statement)
            &&& statement@.sql == "SELECT contact_id FROM filerequest_audience WHERE filerequest_id = ?"@
            &&& statement@.params == seq![crate::sqlite::statement::SqlValueView::Text(row.id@)]
        },
        ({
            let replied = if first is Ask {
                second
            } else {
                first
            };
            &&& replied matches DbStep::Reply(Answer::Filerequest(Ok(filerequest)))
            &&& filerequest.id@ == row.id@
            &&& filerequest.title@ == row.title@
            &&& filerequest.description@ == row.description@
            &&& filerequest.is_active <==> row.status@ == "active"@
            &&& row.access_type@ == "public"@ ==> filerequest.access is Public
            &&& row.access_type@ == "audience"@ ==> (filerequest.access
                matches crate::domain_models::FilerequestAccess::Audience { contact_ids }
                && contact_ids@.len() == members@.len() && forall|i: int|
                0 <= i < members@.len() ==> (#[trigger] contact_ids@[i])@ == members@[i]@)
        }),
{
    reveal_strlit("public");
    reveal_strlit("audience");
    assert("public"@.len() != "audience"@.len());
    let replied = if first is Ask {
        second
    } else {
        first
    };
    if let DbStep::Reply(Answer::Filerequest(Ok(filerequest))) = replied {
        assert(filerequest@.id == filerequest.id@);
        if let crate::domain_models::FilerequestAccess::Audience { contact_ids } =
            filerequest.access {
            let views = crate::domain_models::views(contact_ids@);
            let named = crate::domain_models::views(members@);
            assert(views.len() == contact_ids@.len());
            assert(named.len() == members@.len());
            assert(forall|i: int| 0 <= i < contact_ids@.len() ==> views[i] == (
            #[trigger] contact_ids@[i])@);
            if row.access_type@ == "audience"@ {
                assert(views == named);
                assert forall|i: int| 0 <= i < members@.len() implies (
                #[trigger] contact_ids@[i])@ == members@[i]@ by {
                    assert(views[i] == named[i]);
                }
            }
        }
    }
}

/// A reason for which a transfer was interrupted is stored of that file behind those that it has,
/// which all stay.
pub proof fn law_reasons_are_added_to_those_before(
    reading: Waiting,
    id: FylesId,
    reason: String,
    json: String,
    step: DbStep,
)
    requires
        reading.stage == (crate::sqlite::actor::Stage::ReasonsRead { id, reason }),
        crate::sqlite::actor::concludes(reading, Event::Text(Some(json)), step),
    ensures
        step matches DbStep::Ask(Ask::Execute { statements, .. }, _) && statements@.len() == 1 && {
            let before = match crate::sqlite::rows::json_strings(json@) {
                Some(reasons) => reasons,
                None => Seq::empty(),
            };
            &&& statements@[0]@.sql == "UPDATE pending_files SET interruption_reasons = ? WHERE id = ?"@
            &&& statements@[0]@.params.len() == 2
            &&& statements@[0]@.params[1] == crate::sqlite::statement::SqlValueView::Text(id@)
            &&& statements@[0]@.params[0] == crate::sqlite::statement::SqlValueView::Text(
                crate::sqlite::rows::strings_json(before.push(reason@)),
            )
        },
{
    if let DbStep::Ask(Ask::Execute { statements, .. }, _) = step {
        let views = crate::domain_models::views(statements@);
        assert(views.len() == statements@.len());
        assert(views[0] == statements@[0]@);
    }
}

/// Files to send are listed row by row: one for each row, in order, each as its row holds it.
pub proof fn law_files_are_listed_row_by_row(
    rows: Seq<(PendingFileRow, Seq<char>)>,
    files: Seq<crate::domain_models::PendingFileView>,
)
    requires
        crate::sqlite::rows::pending_files(rows) == Ok::<
            Seq<crate::domain_models::PendingFileView>,
            crate::db::DbErrorView,
        >(files),
    ensures
        files.len() == rows.len(),
        forall|i: int|
            0 <= i < rows.len() ==> {
                &&& (#[trigger] files[i]).id == rows[i].0.id@
                &&& files[i].contact_id == rows[i].1
                &&& files[i].file_path == rows[i].0.file_path@
                &&& files[i].retry_count == rows[i].0.retry_count
                &&& files[i].target_filerequest_id == rows[i].0.target_filerequest_id@
                &&& files[i].display_name == crate::domain_models::opt_view(rows[i].0.display_name)
                &&& files[i].interruption_reasons == (match crate::sqlite::rows::json_strings(
                    rows[i].0.interruption_reasons@,
                ) {
                    Some(reasons) => reasons,
                    None => Seq::empty(),
                })
            },
    decreases rows.len(),
{
    if rows.len() > 0 {
        if let Ok(fewer) = crate::sqlite::rows::pending_files(rows.drop_last()) {
            law_files_are_listed_row_by_row(rows.drop_last(), fewer);
            assert forall|i: int| 0 <= i < rows.len() implies {
                &&& (#[trigger] files[i]).id == rows[i].0.id@
                &&& files[i].contact_id == rows[i].1
                &&& files[i].file_path == rows[i].0.file_path@
                &&& files[i].retry_count == rows[i].0.retry_count
                &&& files[i].target_filerequest_id == rows[i].0.target_filerequest_id@
                &&& files[i].display_name == crate::domain_models::opt_view(rows[i].0.display_name)
                &&& files[i].interruption_reasons == (match crate::sqlite::rows::json_strings(
                    rows[i].0.interruption_reasons@,
                ) {
                    Some(reasons) => reasons,
                    None => Seq::empty(),
                })
            } by {
                if i < fewer.len() {
                    assert(files[i] == fewer[i]);
                    assert(rows[i] == rows.drop_last()[i]);
                }
            }
        }
    }
}

/// The files that are listed for a request are those of its rows, with the contact that the database
/// names for the request; those that are listed for all requests each have the contact that stands
/// beside them.
pub proof fn law_listed_files_have_their_contacts(
    of_request: Seq<PendingFileRow>,
    contact_id: Seq<char>,
    of_all: Seq<(PendingFileRow, crate::domain_models::ContactId)>,
)
    ensures
        crate::sqlite::rows::for_contact(of_request, contact_id).len() == of_request.len(),
        forall|i: int|
            0 <= i < of_request.len() ==> #[trigger] crate::sqlite::rows::for_contact(
                of_request,
                contact_id,
            )[i] == (of_request[i], contact_id),
        crate::sqlite::rows::for_contacts(of_all).len() == of_all.len(),
        forall|i: int|
            0 <= i < of_all.len() ==> #[trigger] crate::sqlite::rows::for_contacts(of_all)[i] == (
                of_all[i].0,
                of_all[i].1@,
            ),
{
}

/// What is read of contacts is what their rows hold: whose they are, what they are called and their
/// keys; and the node is known by the keys that are stored.
pub proof fn law_contacts_are_read_as_they_are_stored(
    row: crate::sqlite::rows::ContactRow,
    own: crate::sqlite::rows::SelfContactRow,
    shared: crate::sqlite::rows::SharableContactRow,
    key_bytes: Vec<u8>,
)
    ensures
        crate::sqlite::rows::read_contact(row) matches Ok(contact) ==> {
            &&& contact.id == row.id@
            &&& contact.name == row.name@
            &&& row.keys.dilithium_public_key matches Some(dilithium)
            &&& row.keys.ed25519_public_key matches Some(ed25519)
            &&& crate::sqlite::rows::read_public_keys(dilithium@, ed25519@) matches Ok(keys)
            &&& contact.public_keys == keys
        },
        crate::sqlite::rows::read_self_contact(own) matches Ok(contact) ==> {
            &&& contact.id == own.contact_id@
            &&& contact.name == own.name@
            &&& crate::sqlite::rows::read_keys(
                own.dilithium_private_key@,
                own.dilithium_public_key@,
                own.ed25519_private_key@,
                own.ed25519_public_key@,
            ) matches Ok(keys)
            &&& contact.keys == keys
        },
        crate::sqlite::rows::read_sharable_contact(shared) matches Ok(contact) ==> contact.id
            == shared.contact_id@ && contact.name == shared.name@,
        crate::sqlite::rows::read_node_info(Some(key_bytes), Some(own)) matches Ok(info) ==> {
            &&& info.node_key_pair == key_bytes@
            &&& info.self_contact_id == own.contact_id@
            &&& crate::sqlite::rows::read_keys(
                own.dilithium_private_key@,
                own.dilithium_public_key@,
                own.ed25519_private_key@,
                own.ed25519_public_key@,
            ) matches Ok(keys)
            &&& info.self_contact_keys == keys
        },
{
}

/// No file request is left out of a list, none is added, and their order stays: what is done comes
/// first, then the one whose audience is asked for, then the rest.
pub proof fn law_no_filerequest_is_left_out(
    waiting: Waiting,
    done: Seq<crate::domain_models::FilerequestView>,
    rest: Seq<FilerequestRow>,
    step: DbStep,
)
    requires
        crate::sqlite::actor::completes_filerequests(waiting, done, rest, step),
    ensures
        match step {
            DbStep::Reply(reply) => {
                &&& reply matches Answer::Filerequests(Ok(all))
                &&& all@.len() == done.len() + rest.len()
                &&& forall|i: int| 0 <= i < done.len() ==> (#[trigger] all@[i])@ == done[i]
                &&& forall|i: int|
                    0 <= i < rest.len() ==> {
                        &&& (#[trigger] all@[done.len() + i]).id@ == rest[i].id@
                        &&& all@[done.len() + i].title@ == rest[i].title@
                        &&& all@[done.len() + i].description@ == rest[i].description@
                    }
            },
            DbStep::Ask(_, next) => {
                &&& next.stage matches crate::sqlite::actor::Stage::AudiencesRead {
                    done: complete,
                    row,
                    rest: others,
                }
                &&& complete@.len() + 1 + others@.len() == done.len() + rest.len()
                &&& complete@.len() >= done.len()
                &&& forall|i: int| 0 <= i < done.len() ==> (#[trigger] complete@[i])@ == done[i]
                &&& row == rest[complete@.len() - done.len()]
                &&& others@ == rest.skip(complete@.len() - done.len() + 1)
                &&& forall|i: int|
                    0 <= i < complete@.len() - done.len() ==> {
                        &&& (#[trigger] complete@[done.len() + i]).id@ == rest[i].id@
                        &&& complete@[done.len() + i].title@ == rest[i].title@
                        &&& complete@[done.len() + i].description@ == rest[i].description@
                    }
            },
        },
    decreases rest.len(),
{
    if rest.len() == 0 {
        if let DbStep::Reply(Answer::Filerequests(Ok(all))) = step {
            let views = crate::domain_models::views(all@);
            assert(views.len() == all@.len());
            assert(forall|i: int| 0 <= i < all@.len() ==> views[i] == (#[trigger] all@[i])@);
        }
    } else if rest[0].access_type@ == "audience"@ {
        if let DbStep::Ask(_, next) = step {
            if let crate::sqlite::actor::Stage::AudiencesRead { done: complete, .. } = next.stage {
                let views = crate::domain_models::views(complete@);
                assert(views.len() == complete@.len());
                assert(forall|i: int| 0 <= i < complete@.len() ==> views[i] == (
                #[trigger] complete@[i])@);
            }
        }
    } else {
        let first = crate::sqlite::rows::filerequest(rest[0], Seq::empty());
        let more = done.push(first);
        law_no_filerequest_is_left_out(waiting, more, rest.skip(1), step);
        match step {
            DbStep::Reply(reply) => {
                if let Answer::Filerequests(Ok(all)) = reply {
                    assert(all@[done.len() as int]@ == first);
                    assert forall|i: int| 0 <= i < done.len() implies (#[trigger] all@[i])@
                        == done[i] by {
                        assert(all@[i]@ == more[i]);
                    }
                    assert forall|i: int| 0 <= i < rest.len() implies {
                        &&& (#[trigger] all@[done.len() + i]).id@ == rest[i].id@
                        &&& all@[done.len() + i].title@ == rest[i].title@
                        &&& all@[done.len() + i].description@ == rest[i].description@
                    } by {
                        if i > 0 {
                            assert(all@[more.len() + (i - 1)].id@ == rest.skip(1)[i - 1].id@);
                        } else {
                            assert(all@[done.len() as int]@.id == rest[0].id@);
                        }
                    }
                }
            },
            DbStep::Ask(_, next) => {
                if let crate::sqlite::actor::Stage::AudiencesRead {
                    done: complete,
                    rest: others,
                    ..
                } = next.stage {
                    assert(complete@[done.len() as int]@ == first) by {
                        assert(complete@[done.len() as int]@ == more[done.len() as int]);
                    }
                    assert forall|i: int| 0 <= i < done.len() implies (#[trigger] complete@[i])@
                        == done[i] by {
                        assert(complete@[i]@ == more[i]);
                    }
                    assert(others@ =~= rest.skip(complete@.len() - done.len() + 1));
                    assert forall|i: int| 0 <= i < complete@.len() - done.len() implies {
                        &&& (#[trigger] complete@[done.len() + i]).id@ == rest[i].id@
                        &&& complete@[done.len() + i].title@ == rest[i].title@
                        &&& complete@[done.len() + i].description@ == rest[i].description@
                    } by {
                        if i > 0 {
                            assert(complete@[more.len() + (i - 1)].id@ == rest.skip(1)[i - 1].id@);
                        } else {
                            assert(complete@[done.len() as int]@.id == rest[0].id@);
                        }
                    }
                }
            },
        }
    }
}

/// What the database is asked for first is what the command begins with, and what follows each of
/// its answers is what that answer stands for.
pub proof fn law_commands_are_carried_out(
    command: &DbCommand,
    shown: &str,
    fresh: Vec<FylesId>,
    first: DbStep,
    waiting: Waiting,
    event: Event,
    next: DbStep,
)
    requires
        call_ensures(crate::sqlite::actor::start, (command, shown, fresh), first),
        call_ensures(crate::sqlite::actor::resume, (waiting, event), next),
    ensures
        crate::sqlite::actor::starts(*command, shown@, fresh, first),
        crate::sqlite::actor::concludes(waiting, event, next),
        first.is_consistent() && next.is_consistent(),
{
}

} // verus!
