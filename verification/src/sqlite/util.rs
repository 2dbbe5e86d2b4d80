//! What is said of a command that fails.
use vstd::prelude::*;

use crate::brain::exchange::DbCommand;
use crate::db::{DbError, DbOperationInfo, OperationType};
use crate::text::u64_to_string;

verus! {

/// Why a command was not carried out: the database refused it, or its data made no sense.
#[allow(inconsistent_fields)]
#[derive(Debug)]
pub enum DbOperationError {
    Rusqlite { source: String },
    Custom { source: DbError },
}

pub open spec fn about(
    table_name: Seq<char>,
    operation_type: OperationType,
    description: Seq<char>,
) -> Option<crate::db::DbOperationInfoView> {
    Some(crate::db::DbOperationInfoView { table_name, operation_type, description })
}

/// What the command does, in words. `shown` is how its contents are shown. Nothing is said of
/// commands on the database as a whole.
pub open spec fn operation(command: DbCommand, shown: Seq<char>) -> Option<
    crate::db::DbOperationInfoView,
> {
    match command {
        DbCommand::GetFilerequest(id) => about(
            "filerequests"@,
            OperationType::Read,
            "Retrieve filerequest with ID "@ + id@,
        ),
        DbCommand::GetFilerequests => about(
            "filerequests"@,
            OperationType::Read,
            "Retrieve all filerequests"@,
        ),
        DbCommand::CreateFilerequest(_) => about(
            "filerequests"@,
            OperationType::Create,
            "Create filerequest "@ + shown,
        ),
        DbCommand::UpdateFilerequest(_) => about(
            "filerequests"@,
            OperationType::Update,
            "Update filerequest "@ + shown,
        ),
        DbCommand::DeleteFilerequest(id) => about(
            "filerequests"@,
            OperationType::Delete,
            "Delete filerequest with ID "@ + id@,
        ),
        DbCommand::GetContactName(id) => about(
            "contacts"@,
            OperationType::Read,
            "Retrieve contact name with ID "@ + id@,
        ),
        DbCommand::GetContactNames(_) => about(
            "contacts"@,
            OperationType::Read,
            "Retrieve contacts with IDs "@ + shown,
        ),
        DbCommand::GetContact(id) => about(
            "contacts"@,
            OperationType::Read,
            "Retrieve contact with ID "@ + id@,
        ),
        DbCommand::GetContacts => about("contacts"@, OperationType::Read, "Retrieve all contacts"@),
        DbCommand::UpdateContact(_) => about(
            "contacts"@,
            OperationType::Update,
            "Update a contact "@ + shown,
        ),
        DbCommand::DeleteContact(id) => about(
            "contacts"@,
            OperationType::Delete,
            "Delete contact with ID "@ + id@,
        ),
        DbCommand::GetContactPublicKeys(id) => about(
            "contacts"@,
            OperationType::Read,
            "Retrieve contact public keys with ID "@ + id@,
        ),
        DbCommand::RegisterContact(_) => about(
            "contacts"@,
            OperationType::Create,
            "Register a contact"@,
        ),
        DbCommand::StoreNodeKeys(_) => about(
            "node_keys"@,
            OperationType::Update,
            "Store node keys"@,
        ),
        DbCommand::GetNodeKeys => about(
            "node_keys and self_contact"@,
            OperationType::Read,
            "Retrieve node keys and self contact"@,
        ),
        DbCommand::GetRemoteFilerequest(id) => about(
            "remote_filerequests"@,
            OperationType::Read,
            "Retrieve remote filerequest with ID "@ + id@,
        ),
        DbCommand::GetRemoteFilerequestsByContact(id) => about(
            "remote_filerequests"@,
            OperationType::Read,
            "Retrieve remote filerequests for contact with ID "@ + id@,
        ),
        DbCommand::GetAllRemoteFilerequests => about(
            "remote_filerequests"@,
            OperationType::Read,
            "Retrieve all remote filerequests"@,
        ),
        DbCommand::CreateRemoteFilerequest(_) => about(
            "remote_filerequests"@,
            OperationType::Create,
            "Create remote filerequest "@ + shown,
        ),
        DbCommand::UpdateRemoteFilerequest { .. } => about(
            "remote_filerequests"@,
            OperationType::Update,
            "Update remote filerequest "@ + shown,
        ),
        DbCommand::DeleteRemoteFilerequest(id) => about(
            "remote_filerequests"@,
            OperationType::Delete,
            "Delete remote filerequest with ID "@ + id@,
        ),
        DbCommand::CreatePendingFiles(files) => about(
            "pending_files"@,
            OperationType::Create,
            "Create "@ + crate::text::decimal(files.file_infos@.len()) + " pending files"@,
        ),
        DbCommand::GetPendingFile(id) => about(
            "pending_files"@,
            OperationType::Read,
            "Retrieve pending file with ID "@ + id@,
        ),
        DbCommand::GetPendingFiles(id) => about(
            "pending_files"@,
            OperationType::Read,
            "Retrieve pending files for target filerequest with ID "@ + id@,
        ),
        DbCommand::GetAllPendingFiles => about(
            "pending_files"@,
            OperationType::Read,
            "Retrieve all pending files"@,
        ),
        DbCommand::UpdatePendingFileStatus { status, .. } => about(
            "pending_files"@,
            OperationType::Update,
            "Update pending file status to "@ + status@.text(),
        ),
        DbCommand::DeletePendingFile(id) => about(
            "pending_files"@,
            OperationType::Delete,
            "Delete pending file with ID "@ + id@,
        ),
        DbCommand::AddInterruptionReason { .. } => about(
            "pending_files"@,
            OperationType::Update,
            "Add interruption reason"@,
        ),
        DbCommand::CountNonTerminalPendingFilesForPath(id) => about(
            "pending_files"@,
            OperationType::Read,
            "Count non-terminal pending files for path of ID "@ + id@,
        ),
        DbCommand::CreateIncomingFile(file) => about(
            "received_files"@,
            OperationType::Create,
            "Create incoming file record for "@ + file.file_name@,
        ),
        DbCommand::UpdateReceivedFileStatus { status, .. } => about(
            "received_files"@,
            OperationType::Update,
            "Update received file status to "@ + status@.text(),
        ),
        DbCommand::GetReceivedFileByTransferId(id) => about(
            "received_files"@,
            OperationType::Read,
            "Get received file by transfer_id "@ + id@,
        ),
        DbCommand::CompleteReceivedFile(file) => about(
            "received_files"@,
            OperationType::Update,
            "Complete received file for transfer "@ + file.transfer_id@,
        ),
        DbCommand::ListReceivedFiles(id) => about(
            "received_files"@,
            OperationType::Read,
            "List received files for filerequest "@ + id@,
        ),
        DbCommand::DeleteReceivedFile(_) => about(
            "received_files"@,
            OperationType::Delete,
            "Delete received file"@,
        ),
        DbCommand::GetStaleReceivedFiles { .. } => about(
            "received_files"@,
            OperationType::Read,
            "List stale received files"@,
        ),
        DbCommand::GetSelfContact => about(
            "self_contact"@,
            OperationType::Read,
            "Retrieve self contact information"@,
        ),
        DbCommand::GetSelfContactForDisplay => about(
            "self_contact"@,
            OperationType::Read,
            "Retrieve self contact display information"@,
        ),
        DbCommand::UpdateSelfContactName(_) => about(
            "self_contact"@,
            OperationType::Update,
            "Update self contact name"@,
        ),
        DbCommand::UpdateIdentity(_) => about(
            "self_contact"@,
            OperationType::Update,
            "Update self contact identity"@,
        ),
        DbCommand::GetSharablePublicSelfContact => about(
            "self_contact"@,
            OperationType::Read,
            "Retrieve self contact public information"@,
        ),
        _ => None,
    }
}

fn info_about(table_name: &str, operation_type: OperationType, description: String) -> (r: Option<
    DbOperationInfo,
>)
    ensures
        crate::domain_models::opt_view(r) == about(table_name@, operation_type, description@),
{
    Some(DbOperationInfo::new(table_name, operation_type, description))
}

/// What the command does, in words. `shown` is how its contents are shown. Nothing is said of
/// commands on the database as a whole.
pub fn operation_info(command: &DbCommand, shown: &str) -> (r: Option<DbOperationInfo>)
    ensures
        crate::domain_models::opt_view(r) == operation(*command, shown@),
{
    match command {
        DbCommand::GetFilerequest(id) => info_about(
            "filerequests",
            OperationType::Read,
            "Retrieve filerequest with ID ".to_owned().concat(id.0.as_str()),
        ),
        DbCommand::GetFilerequests => info_about(
            "filerequests",
            OperationType::Read,
            "Retrieve all filerequests".to_owned(),
        ),
        DbCommand::CreateFilerequest(_) => info_about(
            "filerequests",
            OperationType::Create,
            "Create filerequest ".to_owned().concat(shown),
        ),
        DbCommand::UpdateFilerequest(_) => info_about(
            "filerequests",
            OperationType::Update,
            "Update filerequest ".to_owned().concat(shown),
        ),
        DbCommand::DeleteFilerequest(id) => info_about(
            "filerequests",
            OperationType::Delete,
            "Delete filerequest with ID ".to_owned().concat(id.0.as_str()),
        ),
        DbCommand::GetContactName(id) => info_about(
            "contacts",
            OperationType::Read,
            "Retrieve contact name with ID ".to_owned().concat(id.0.as_str()),
        ),
        DbCommand::GetContactNames(_) => info_about(
            "contacts",
            OperationType::Read,
            "Retrieve contacts with IDs ".to_owned().concat(shown),
        ),
        DbCommand::GetContact(id) => info_about(
            "contacts",
            OperationType::Read,
            "Retrieve contact with ID ".to_owned().concat(id.0.as_str()),
        ),
        DbCommand::GetContacts => info_about(
            "contacts",
            OperationType::Read,
            "Retrieve all contacts".to_owned(),
        ),
        DbCommand::UpdateContact(_) => info_about(
            "contacts",
            OperationType::Update,
            "Update a contact ".to_owned().concat(shown),
        ),
        DbCommand::DeleteContact(id) => info_about(
            "contacts",
            OperationType::Delete,
            "Delete contact with ID ".to_owned().concat(id.0.as_str()),
        ),
        DbCommand::GetContactPublicKeys(id) => info_about(
            "contacts",
            OperationType::Read,
            "Retrieve contact public keys with ID ".to_owned().concat(id.0.as_str()),
        ),
        DbCommand::RegisterContact(_) => info_about(
            "contacts",
            OperationType::Create,
            "Register a contact".to_owned(),
        ),
        DbCommand::StoreNodeKeys(_) => info_about(
            "node_keys",
            OperationType::Update,
            "Store node keys".to_owned(),
        ),
        DbCommand::GetNodeKeys => info_about(
            "node_keys and self_contact",
            OperationType::Read,
            "Retrieve node keys and self contact".to_owned(),
        ),
        DbCommand::GetRemoteFilerequest(id) => info_about(
            "remote_filerequests",
            OperationType::Read,
            "Retrieve remote filerequest with ID ".to_owned().concat(id.0.as_str()),
        ),
        DbCommand::GetRemoteFilerequestsByContact(id) => info_about(
            "remote_filerequests",
            OperationType::Read,
            "Retrieve remote filerequests for contact with ID ".to_owned().concat(id.0.as_str()),
        ),
        DbCommand::GetAllRemoteFilerequests => info_about(
            "remote_filerequests",
            OperationType::Read,
            "Retrieve all remote filerequests".to_owned(),
        ),
        DbCommand::CreateRemoteFilerequest(_) => info_about(
            "remote_filerequests",
            OperationType::Create,
            "Create remote filerequest ".to_owned().concat(shown),
        ),
        DbCommand::UpdateRemoteFilerequest { .. } => info_about(
            "remote_filerequests",
            OperationType::Update,
            "Update remote filerequest ".to_owned().concat(shown),
        ),
        DbCommand::DeleteRemoteFilerequest(id) => info_about(
            "remote_filerequests",
            OperationType::Delete,
            "Delete remote filerequest with ID ".to_owned().concat(id.0.as_str()),
        ),
        DbCommand::CreatePendingFiles(files) => info_about(
            "pending_files",
            OperationType::Create,
            "Create ".to_owned().concat(
                u64_to_string(files.file_infos.len() as u64).as_str(),
            ).concat(" pending files"),
        ),
        DbCommand::GetPendingFile(id) => info_about(
            "pending_files",
            OperationType::Read,
            "Retrieve pending file with ID ".to_owned().concat(id.0.as_str()),
        ),
        DbCommand::GetPendingFiles(id) => info_about(
            "pending_files",
            OperationType::Read,
            "Retrieve pending files for target filerequest with ID ".to_owned().concat(
                id.0.as_str(),
            ),
        ),
        DbCommand::GetAllPendingFiles => info_about(
            "pending_files",
            OperationType::Read,
            "Retrieve all pending files".to_owned(),
        ),
        DbCommand::UpdatePendingFileStatus { status, .. } => info_about(
            "pending_files",
            OperationType::Update,
            "Update pending file status to ".to_owned().concat(status.to_text().as_str()),
        ),
        DbCommand::DeletePendingFile(id) => info_about(
            "pending_files",
            OperationType::Delete,
            "Delete pending file with ID ".to_owned().concat(id.0.as_str()),
        ),
        DbCommand::AddInterruptionReason { .. } => info_about(
            "pending_files",
            OperationType::Update,
            "Add interruption reason".to_owned(),
        ),
        DbCommand::CountNonTerminalPendingFilesForPath(id) => info_about(
            "pending_files",
            OperationType::Read,
            "Count non-terminal pending files for path of ID ".to_owned().concat(id.0.as_str()),
        ),
        DbCommand::CreateIncomingFile(file) => info_about(
            "received_files",
            OperationType::Create,
            "Create incoming file record for ".to_owned().concat(file.file_name.as_str()),
        ),
        DbCommand::UpdateReceivedFileStatus { status, .. } => info_about(
            "received_files",
            OperationType::Update,
            "Update received file status to ".to_owned().concat(status.to_text().as_str()),
        ),
        DbCommand::GetReceivedFileByTransferId(id) => info_about(
            "received_files",
            OperationType::Read,
            "Get received file by transfer_id ".to_owned().concat(id.0.as_str()),
        ),
        DbCommand::CompleteReceivedFile(file) => info_about(
            "received_files",
            OperationType::Update,
            "Complete received file for transfer ".to_owned().concat(file.transfer_id.0.as_str()),
        ),
        DbCommand::ListReceivedFiles(id) => info_about(
            "received_files",
            OperationType::Read,
            "List received files for filerequest ".to_owned().concat(id.0.as_str()),
        ),
        DbCommand::DeleteReceivedFile(_) => info_about(
            "received_files",
            OperationType::Delete,
            "Delete received file".to_owned(),
        ),
        DbCommand::GetStaleReceivedFiles { .. } => info_about(
            "received_files",
            OperationType::Read,
            "List stale received files".to_owned(),
        ),
        DbCommand::GetSelfContact => info_about(
            "self_contact",
            OperationType::Read,
            "Retrieve self contact information".to_owned(),
        ),
        DbCommand::GetSelfContactForDisplay => info_about(
            "self_contact",
            OperationType::Read,
            "Retrieve self contact display information".to_owned(),
        ),
        DbCommand::UpdateSelfContactName(_) => info_about(
            "self_contact",
            OperationType::Update,
            "Update self contact name".to_owned(),
        ),
        DbCommand::UpdateIdentity(_) => info_about(
            "self_contact",
            OperationType::Update,
            "Update self contact identity".to_owned(),
        ),
        DbCommand::GetSharablePublicSelfContact => info_about(
            "self_contact",
            OperationType::Read,
            "Retrieve self contact public information".to_owned(),
        ),
        _ => None,
    }
}

/// The error of a command that was not carried out: an error of the database is told together
/// with what was being done.
pub open spec fn reported(
    info: Option<crate::db::DbOperationInfoView>,
    error: DbOperationError,
) -> crate::db::DbErrorView {
    match error {
        DbOperationError::Custom { source } => source@,
        DbOperationError::Rusqlite { source } => match info {
            Some(info) => crate::db::DbErrorView::Operation { info, source: source@ },
            None => crate::db::DbErrorView::Database { source: source@ },
        },
    }
}

/// The error of a command that was not carried out.
pub fn report(info: Option<DbOperationInfo>, error: DbOperationError) -> (r: DbError)
    ensures
        r@ == reported(crate::domain_models::opt_view(info), error),
{
    match error {
        DbOperationError::Custom { source } => source,
        DbOperationError::Rusqlite { source } => match info {
            Some(info) => info.with_error(source),
            None => DbError::Database { source },
        },
    }
}

/// The outcome of a command, with what was being done in the error.
pub fn db_op<T>(info: Option<DbOperationInfo>, outcome: Result<T, DbOperationError>) -> (r: Result<
    T,
    DbError,
>)
    ensures
        match outcome {
            Ok(value) => r matches Ok(result) && result == value,
            Err(error) => r matches Err(e) && e@ == reported(
                crate::domain_models::opt_view(info),
                error,
            ),
        },
{
    match outcome {
        Ok(value) => Ok(value),
        Err(error) => Err(report(info, error)),
    }
}

} // verus!
