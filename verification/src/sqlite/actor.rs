//! Carries out commands on the database, one question at a time.
use vstd::prelude::*;

use crate::brain::exchange::{Answer, DbCommand, DbReply};
use crate::db::{DbError, DbOperationInfo};
use crate::domain_models::{
    ContactId, DisplayContact, Filerequest, FylesId, ReceivedFile, RemoteFilerequest,
};
use crate::domain_proto_conversion::strings_to_ids;
use crate::sqlite::plan::{
    audience_query, contact_of_request_query, plan, runs_atomically, self_contact_query,
    store_interruption_reasons,
};
use crate::sqlite::rows::{
    contact_deleted, contact_keys_of, contact_name_of, contact_of, filerequest_of,
    filerequest_updated, has_audience, node_info_of, pending_file_of, pending_files_for,
    pending_files_of,
    received_file_deleted, received_file_of, received_status_updated, self_contact_of, settings_of,
    sharable_contact_of, with_interruption_reason, ContactKeysRow, ContactRow, FilerequestRow,
    PendingFileRow, ReceivedFileRow, SelfContactRow, SharableContactRow,
};
use crate::sqlite::statement::Statement;
use crate::sqlite::util::{operation_info, report, DbOperationError};

verus! {

/// What the database is asked. A question for one row fails where there is none, unless the row is
/// optional.
#[derive(Debug)]
pub enum Ask {
    /// Run the statements, together or not at all where that is asked for. The answer is how many
    /// rows the first one changed.
    Execute { statements: Vec<Statement>, atomic: bool },
    Text(Statement),
    OptionalText(Statement),
    Texts(Statement),
    OptionalBytes(Statement),
    Count(Statement),
    Names(Statement),
    Filerequest(Statement),
    Filerequests(Statement),
    Contact(Statement),
    ContactKeys(Statement),
    DisplayContact(Statement),
    DisplayContacts(Statement),
    SelfContact(Statement),
    OptionalSelfContact(Statement),
    SharableContact(Statement),
    RemoteFilerequest(Statement),
    RemoteFilerequests(Statement),
    PendingFile(Statement),
    PendingFiles(Statement),
    /// Rows with the contact that they are for in one more column.
    PendingFilesWithContact(Statement),
    ReceivedFile(Statement),
    ReceivedFiles(Statement),
}

/// What the database answers.
#[derive(Debug)]
pub enum Event {
    Failed(String),
    Executed(usize),
    Text(Option<String>),
    Texts(Vec<String>),
    Bytes(Option<Vec<u8>>),
    Count(usize),
    Names(Vec<(ContactId, String)>),
    Filerequest(FilerequestRow),
    Filerequests(Vec<FilerequestRow>),
    Contact(ContactRow),
    ContactKeys(Option<ContactKeysRow>),
    DisplayContact(DisplayContact),
    DisplayContacts(Vec<DisplayContact>),
    SelfContact(Option<SelfContactRow>),
    SharableContact(SharableContactRow),
    RemoteFilerequest(RemoteFilerequest),
    RemoteFilerequests(Vec<RemoteFilerequest>),
    PendingFile(PendingFileRow),
    PendingFiles(Vec<PendingFileRow>),
    PendingFilesWithContact(Vec<(PendingFileRow, ContactId)>),
    ReceivedFile(ReceivedFileRow),
    ReceivedFiles(Vec<ReceivedFileRow>),
}

impl Ask {
    /// Whether the event is of the kind that the question is answered with.
    pub open spec fn is_answered_by(self, event: Event) -> bool {
        event is Failed || match self {
            Ask::Execute { .. } => event is Executed,
            Ask::Text(_) => event matches Event::Text(text) && text is Some,
            Ask::OptionalText(_) => event is Text,
            Ask::Texts(_) => event is Texts,
            Ask::OptionalBytes(_) => event is Bytes,
            Ask::Count(_) => event is Count,
            Ask::Names(_) => event is Names,
            Ask::Filerequest(_) => event is Filerequest,
            Ask::Filerequests(_) => event is Filerequests,
            Ask::Contact(_) => event is Contact,
            Ask::ContactKeys(_) => event is ContactKeys,
            Ask::DisplayContact(_) => event is DisplayContact,
            Ask::DisplayContacts(_) => event is DisplayContacts,
            Ask::SelfContact(_) => event matches Event::SelfContact(row) && row is Some,
            Ask::OptionalSelfContact(_) => event is SelfContact,
            Ask::SharableContact(_) => event is SharableContact,
            Ask::RemoteFilerequest(_) => event is RemoteFilerequest,
            Ask::RemoteFilerequests(_) => event is RemoteFilerequests,
            Ask::PendingFile(_) => event is PendingFile,
            Ask::PendingFiles(_) => event is PendingFiles,
            Ask::PendingFilesWithContact(_) => event is PendingFilesWithContact,
            Ask::ReceivedFile(_) => event is ReceivedFile,
            Ask::ReceivedFiles(_) => event is ReceivedFiles,
        }
    }
}

/// The kind of reply that a command is owed.
#[derive(Clone, Copy, Debug, PartialEq, Eq, Structural)]
pub enum ReplyKind {
    Unit,
    Id,
    Ids,
    Text,
    Names,
    Filerequest,
    Filerequests,
    Contact,
    DisplayContact,
    DisplayContacts,
    SelfContact,
    RemoteFilerequest,
    RemoteFilerequests,
    PendingFile,
    PendingFiles,
    ReceivedFile,
    ReceivedFiles,
    NodeInfo,
    PublicKeys,
    Settings,
    Count,
}

/// Whether the reply is an error of the given kind.
pub open spec fn is_failure(
    reply: DbReply,
    kind: ReplyKind,
    error: crate::db::DbErrorView,
) -> bool {
    match kind {
        ReplyKind::Unit => reply matches Answer::Unit(Err(e)) && e@ == error,
        ReplyKind::Id => reply matches Answer::Id(Err(e)) && e@ == error,
        ReplyKind::Ids => reply matches Answer::Ids(Err(e)) && e@ == error,
        ReplyKind::Text => reply matches Answer::Text(Err(e)) && e@ == error,
        ReplyKind::Names => reply matches Answer::Names(Err(e)) && e@ == error,
        ReplyKind::Filerequest => reply matches Answer::Filerequest(Err(e)) && e@ == error,
        ReplyKind::Filerequests => reply matches Answer::Filerequests(Err(e)) && e@ == error,
        ReplyKind::Contact => reply matches Answer::Contact(Err(e)) && e@ == error,
        ReplyKind::DisplayContact => reply matches Answer::DisplayContact(Err(e)) && e@ == error,
        ReplyKind::DisplayContacts => reply matches Answer::DisplayContacts(Err(e)) && e@ == error,
        ReplyKind::SelfContact => reply matches Answer::SelfContact(Err(e)) && e@ == error,
        ReplyKind::RemoteFilerequest => reply matches Answer::RemoteFilerequest(Err(e))
            && e@ == error,
        ReplyKind::RemoteFilerequests => reply matches Answer::RemoteFilerequests(Err(e))
            && e@ == error,
        ReplyKind::PendingFile => reply matches Answer::PendingFile(Err(e)) && e@ == error,
        ReplyKind::PendingFiles => reply matches Answer::PendingFiles(Err(e)) && e@ == error,
        ReplyKind::ReceivedFile => reply matches Answer::ReceivedFile(Err(e)) && e@ == error,
        ReplyKind::ReceivedFiles => reply matches Answer::ReceivedFiles(Err(e)) && e@ == error,
        ReplyKind::NodeInfo => reply matches Answer::NodeInfo(Err(e)) && e@ == error,
        ReplyKind::PublicKeys => reply matches Answer::PublicKeys(Err(e)) && e@ == error,
        ReplyKind::Settings => reply matches Answer::Settings(Err(e)) && e@ == error,
        ReplyKind::Count => reply matches Answer::Count(Err(e)) && e@ == error,
    }
}

fn failure(kind: ReplyKind, error: DbError) -> (r: DbReply)
    ensures
        is_failure(r, kind, error@),
{
    match kind {
        ReplyKind::Unit => Answer::Unit(Err(error)),
        ReplyKind::Id => Answer::Id(Err(error)),
        ReplyKind::Ids => Answer::Ids(Err(error)),
        ReplyKind::Text => Answer::Text(Err(error)),
        ReplyKind::Names => Answer::Names(Err(error)),
        ReplyKind::Filerequest => Answer::Filerequest(Err(error)),
        ReplyKind::Filerequests => Answer::Filerequests(Err(error)),
        ReplyKind::Contact => Answer::Contact(Err(error)),
        ReplyKind::DisplayContact => Answer::DisplayContact(Err(error)),
        ReplyKind::DisplayContacts => Answer::DisplayContacts(Err(error)),
        ReplyKind::SelfContact => Answer::SelfContact(Err(error)),
        ReplyKind::RemoteFilerequest => Answer::RemoteFilerequest(Err(error)),
        ReplyKind::RemoteFilerequests => Answer::RemoteFilerequests(Err(error)),
        ReplyKind::PendingFile => Answer::PendingFile(Err(error)),
        ReplyKind::PendingFiles => Answer::PendingFiles(Err(error)),
        ReplyKind::ReceivedFile => Answer::ReceivedFile(Err(error)),
        ReplyKind::ReceivedFiles => Answer::ReceivedFiles(Err(error)),
        ReplyKind::NodeInfo => Answer::NodeInfo(Err(error)),
        ReplyKind::PublicKeys => Answer::PublicKeys(Err(error)),
        ReplyKind::Settings => Answer::Settings(Err(error)),
        ReplyKind::Count => Answer::Count(Err(error)),
    }
}

/// What a command waits for.
#[derive(Debug)]
#[allow(inconsistent_fields)]
pub enum Stage {
    /// The row with the id was stored.
    Created { id: FylesId },
    /// The rows with the ids were stored.
    AllCreated { ids: Vec<FylesId> },
    Done,
    FilerequestUpdated,
    ContactDeleted,
    ReceivedStatusUpdated { transfer_id: FylesId },
    ReceivedFileDeleted { id: FylesId },
    FilerequestRead,
    /// The audience of the file request.
    AudienceRead { row: FilerequestRow },
    FilerequestsRead,
    /// The audience of one file request. Those in `done` are complete, those in `rest` are still
    /// to be looked at.
    AudiencesRead { done: Vec<Filerequest>, row: FilerequestRow, rest: Vec<FilerequestRow> },
    NameRead { id: ContactId },
    NamesRead,
    ContactRead,
    ContactKeysRead,
    DisplayContactsRead,
    NodeKeyRead,
    NodeContactRead { key_bytes: Vec<u8> },
    RemoteRead,
    RemotesRead,
    PendingRead,
    PendingContactRead { row: PendingFileRow },
    PendingListRead { target: FylesId },
    PendingListContactRead { rows: Vec<PendingFileRow> },
    AllPendingRead,
    /// The id that the statement returns.
    IdReturned,
    CountRead,
    ReceivedRead,
    ReceivedListRead,
    SelfContactRead,
    SelfDisplayRead,
    SharableRead,
    SettingsRead,
    ReasonsRead { id: FylesId, reason: String },
}

impl Stage {
    /// Whether the stage waits for events of this kind.
    pub open spec fn takes(self, event: Event) -> bool {
        event is Failed || match self {
            Stage::Created { .. } => event is Executed,
            Stage::AllCreated { .. } => event is Executed,
            Stage::Done => event is Executed,
            Stage::FilerequestUpdated => event is Executed,
            Stage::ContactDeleted => event is Executed,
            Stage::ReceivedStatusUpdated { .. } => event is Executed,
            Stage::ReceivedFileDeleted { .. } => event is Executed,
            Stage::FilerequestRead => event is Filerequest,
            Stage::AudienceRead { .. } => event is Texts,
            Stage::FilerequestsRead => event is Filerequests,
            Stage::AudiencesRead { .. } => event is Texts,
            Stage::NameRead { .. } => event is Text,
            Stage::NamesRead => event is Names,
            Stage::ContactRead => event is Contact,
            Stage::ContactKeysRead => event is ContactKeys,
            Stage::DisplayContactsRead => event is DisplayContacts,
            Stage::NodeKeyRead => event is Bytes,
            Stage::NodeContactRead { .. } => event is SelfContact,
            Stage::RemoteRead => event is RemoteFilerequest,
            Stage::RemotesRead => event is RemoteFilerequests,
            Stage::PendingRead => event is PendingFile,
            Stage::PendingContactRead { .. } => event matches Event::Text(text) && text is Some,
            Stage::PendingListRead { .. } => event is PendingFiles,
            Stage::PendingListContactRead { .. } => event matches Event::Text(text) && text is Some,
            Stage::AllPendingRead => event is PendingFilesWithContact,
            Stage::IdReturned => event matches Event::Text(text) && text is Some,
            Stage::CountRead => event is Count,
            Stage::ReceivedRead => event is ReceivedFile,
            Stage::ReceivedListRead => event is ReceivedFiles,
            Stage::SelfContactRead => event matches Event::SelfContact(row) && row is Some,
            Stage::SelfDisplayRead => event is DisplayContact,
            Stage::SharableRead => event is SharableContact,
            Stage::SettingsRead => event is Bytes,
            Stage::ReasonsRead { .. } => event matches Event::Text(text) && text is Some,
        }
    }

    /// The kind of reply that the stage leads to.
    pub open spec fn kind(self) -> ReplyKind {
        match self {
            Stage::Created { .. } => ReplyKind::Id,
            Stage::AllCreated { .. } => ReplyKind::Ids,
            Stage::Done => ReplyKind::Unit,
            Stage::FilerequestUpdated => ReplyKind::Unit,
            Stage::ContactDeleted => ReplyKind::Unit,
            Stage::ReceivedStatusUpdated { .. } => ReplyKind::Unit,
            Stage::ReceivedFileDeleted { .. } => ReplyKind::Unit,
            Stage::FilerequestRead => ReplyKind::Filerequest,
            Stage::AudienceRead { .. } => ReplyKind::Filerequest,
            Stage::FilerequestsRead => ReplyKind::Filerequests,
            Stage::AudiencesRead { .. } => ReplyKind::Filerequests,
            Stage::NameRead { .. } => ReplyKind::Text,
            Stage::NamesRead => ReplyKind::Names,
            Stage::ContactRead => ReplyKind::Contact,
            Stage::ContactKeysRead => ReplyKind::PublicKeys,
            Stage::DisplayContactsRead => ReplyKind::DisplayContacts,
            Stage::NodeKeyRead => ReplyKind::NodeInfo,
            Stage::NodeContactRead { .. } => ReplyKind::NodeInfo,
            Stage::RemoteRead => ReplyKind::RemoteFilerequest,
            Stage::RemotesRead => ReplyKind::RemoteFilerequests,
            Stage::PendingRead => ReplyKind::PendingFile,
            Stage::PendingContactRead { .. } => ReplyKind::PendingFile,
            Stage::PendingListRead { .. } => ReplyKind::PendingFiles,
            Stage::PendingListContactRead { .. } => ReplyKind::PendingFiles,
            Stage::AllPendingRead => ReplyKind::PendingFiles,
            Stage::IdReturned => ReplyKind::Id,
            Stage::CountRead => ReplyKind::Count,
            Stage::ReceivedRead => ReplyKind::ReceivedFile,
            Stage::ReceivedListRead => ReplyKind::ReceivedFiles,
            Stage::SelfContactRead => ReplyKind::SelfContact,
            Stage::SelfDisplayRead => ReplyKind::DisplayContact,
            Stage::SharableRead => ReplyKind::Contact,
            Stage::SettingsRead => ReplyKind::Settings,
            Stage::ReasonsRead { .. } => ReplyKind::Unit,
        }
    }
}

/// A command that waits for an answer of the database. `info` says what it does.
#[derive(Debug)]
pub struct Waiting {
    pub info: Option<DbOperationInfo>,
    pub stage: Stage,
}

/// What is done next for a command.
#[derive(Debug)]
pub enum DbStep {
    Reply(DbReply),
    Ask(Ask, Waiting),
}

impl DbStep {
    /// What is asked for is what is waited for.
    pub open spec fn is_consistent(self) -> bool {
        match self {
            DbStep::Ask(ask, waiting) => forall|event: Event| #[trigger]
                ask.is_answered_by(event) ==> waiting.stage.takes(event),
            DbStep::Reply(_) => true,
        }
    }

    pub open spec fn replies(self, reply: DbReply) -> bool {
        self == DbStep::Reply(reply)
    }

    /// Whether the command fails with the error.
    pub open spec fn fails(self, kind: ReplyKind, error: crate::db::DbErrorView) -> bool {
        self matches DbStep::Reply(reply) && is_failure(reply, kind, error)
    }
}

/// The stage that a command starts in. `fresh` are the ids that it gives out.
pub open spec fn first_stage(command: DbCommand, fresh: Vec<FylesId>) -> Stage {
    match command {
        DbCommand::GetFilerequest(_) => Stage::FilerequestRead,
        DbCommand::GetFilerequests => Stage::FilerequestsRead,
        DbCommand::GetContactName(id) => Stage::NameRead { id: id },
        DbCommand::GetContactNames(_) => Stage::NamesRead,
        DbCommand::GetContact(_) => Stage::ContactRead,
        DbCommand::GetContacts => Stage::DisplayContactsRead,
        DbCommand::GetContactPublicKeys(_) => Stage::ContactKeysRead,
        DbCommand::GetNodeKeys => Stage::NodeKeyRead,
        DbCommand::GetRemoteFilerequest(_) => Stage::RemoteRead,
        DbCommand::GetRemoteFilerequestsByContact(_) => Stage::RemotesRead,
        DbCommand::GetAllRemoteFilerequests => Stage::RemotesRead,
        DbCommand::GetPendingFile(_) => Stage::PendingRead,
        DbCommand::GetPendingFiles(id) => Stage::PendingListRead { target: id },
        DbCommand::GetAllPendingFiles => Stage::AllPendingRead,
        DbCommand::UpdatePendingFileStatus { .. } => Stage::IdReturned,
        DbCommand::AddInterruptionReason { id, reason } => Stage::ReasonsRead {
            id: id,
            reason: reason,
        },
        DbCommand::CountNonTerminalPendingFilesForPath(_) => Stage::CountRead,
        DbCommand::GetReceivedFileByTransferId(_) => Stage::ReceivedRead,
        DbCommand::CompleteReceivedFile(_) => Stage::IdReturned,
        DbCommand::ListReceivedFiles(_) => Stage::ReceivedListRead,
        DbCommand::GetStaleReceivedFiles { .. } => Stage::ReceivedListRead,
        DbCommand::GetSelfContact => Stage::SelfContactRead,
        DbCommand::GetSelfContactForDisplay => Stage::SelfDisplayRead,
        DbCommand::GetSharablePublicSelfContact => Stage::SharableRead,
        DbCommand::GetSettings => Stage::SettingsRead,
        DbCommand::CreateFilerequest(_) => Stage::Created { id: fresh[0] },
        DbCommand::CreateRemoteFilerequest(_) => Stage::Created { id: fresh[0] },
        DbCommand::CreateIncomingFile(_) => Stage::Created { id: fresh[0] },
        DbCommand::CreatePendingFiles(_) => Stage::AllCreated { ids: fresh },
        DbCommand::UpdateFilerequest(_) => Stage::FilerequestUpdated,
        DbCommand::DeleteContact(_) => Stage::ContactDeleted,
        DbCommand::UpdateReceivedFileStatus { transfer_id, .. } => Stage::ReceivedStatusUpdated {
            transfer_id: transfer_id,
        },
        DbCommand::DeleteReceivedFile(id) => Stage::ReceivedFileDeleted { id: id },
        DbCommand::DeleteFilerequest(_) => Stage::Done,
        DbCommand::UpdateContact(_) => Stage::Done,
        DbCommand::RegisterContact(_) => Stage::Done,
        DbCommand::StoreNodeKeys(_) => Stage::Done,
        DbCommand::UpdateRemoteFilerequest { .. } => Stage::Done,
        DbCommand::DeleteRemoteFilerequest(_) => Stage::Done,
        DbCommand::DeletePendingFile(_) => Stage::Done,
        DbCommand::UpdateSelfContactName(_) => Stage::Done,
        DbCommand::UpdateIdentity(_) => Stage::Done,
        DbCommand::StoreSettings(_) => Stage::Done,
        DbCommand::BackupDatabase => Stage::Done,
        DbCommand::RestoreDatabase => Stage::Done,
    }
}

/// Whether the question is the one that a command starts with: the statements of its plan.
pub open spec fn asks_first(
    command: DbCommand,
    statements: Seq<crate::sqlite::statement::StatementView>,
    ask: Ask,
) -> bool {
    match command {
        DbCommand::GetFilerequest(_) => ask matches Ask::Filerequest(statement)
            && statements == seq![statement@],
        DbCommand::GetFilerequests => ask matches Ask::Filerequests(statement)
            && statements == seq![statement@],
        DbCommand::GetContactName(_) => ask matches Ask::OptionalText(statement)
            && statements == seq![statement@],
        DbCommand::GetContactNames(_) => ask matches Ask::Names(statement)
            && statements == seq![statement@],
        DbCommand::GetContact(_) => ask matches Ask::Contact(statement)
            && statements == seq![statement@],
        DbCommand::GetContacts => ask matches Ask::DisplayContacts(statement)
            && statements == seq![statement@],
        DbCommand::GetContactPublicKeys(_) => ask matches Ask::ContactKeys(statement)
            && statements == seq![statement@],
        DbCommand::GetNodeKeys => ask matches Ask::OptionalBytes(statement)
            && statements == seq![statement@],
        DbCommand::GetRemoteFilerequest(_) => ask matches Ask::RemoteFilerequest(statement)
            && statements == seq![statement@],
        DbCommand::GetRemoteFilerequestsByContact(_) => ask matches Ask::RemoteFilerequests(
            statement,
        )
            && statements == seq![statement@],
        DbCommand::GetAllRemoteFilerequests => ask matches Ask::RemoteFilerequests(statement)
            && statements == seq![statement@],
        DbCommand::GetPendingFile(_) => ask matches Ask::PendingFile(statement)
            && statements == seq![statement@],
        DbCommand::GetPendingFiles(_) => ask matches Ask::PendingFiles(statement)
            && statements == seq![statement@],
        DbCommand::GetAllPendingFiles => ask matches Ask::PendingFilesWithContact(statement)
            && statements == seq![statement@],
        DbCommand::UpdatePendingFileStatus { .. } => ask matches Ask::Text(statement)
            && statements == seq![statement@],
        DbCommand::AddInterruptionReason { .. } => ask matches Ask::Text(statement)
            && statements == seq![statement@],
        DbCommand::CountNonTerminalPendingFilesForPath(_) => ask matches Ask::Count(statement)
            && statements == seq![statement@],
        DbCommand::GetReceivedFileByTransferId(_) => ask matches Ask::ReceivedFile(statement)
            && statements == seq![statement@],
        DbCommand::CompleteReceivedFile(_) => ask matches Ask::Text(statement)
            && statements == seq![statement@],
        DbCommand::ListReceivedFiles(_) => ask matches Ask::ReceivedFiles(statement)
            && statements == seq![statement@],
        DbCommand::GetStaleReceivedFiles { .. } => ask matches Ask::ReceivedFiles(statement)
            && statements == seq![statement@],
        DbCommand::GetSelfContact => ask matches Ask::SelfContact(statement)
            && statements == seq![statement@],
        DbCommand::GetSelfContactForDisplay => ask matches Ask::DisplayContact(statement)
            && statements == seq![statement@],
        DbCommand::GetSharablePublicSelfContact => ask matches Ask::SharableContact(statement)
            && statements == seq![statement@],
        DbCommand::GetSettings => ask matches Ask::OptionalBytes(statement)
            && statements == seq![statement@],
        _ => ask matches Ask::Execute { statements: run, atomic } && crate::domain_models::views(
            run@,
        ) == statements && atomic == crate::sqlite::plan::is_atomic(command),
    }
}

/// Whether the step is the one that a command starts with.
pub open spec fn starts(
    command: DbCommand,
    shown: Seq<char>,
    fresh: Vec<FylesId>,
    step: DbStep,
) -> bool {
    match crate::sqlite::plan::planned(command, crate::domain_models::views(fresh@)) {
        Err(error) => step.fails(first_stage(command, fresh).kind(), error),
        Ok(statements) => {
            &&& step matches DbStep::Ask(ask, waiting)
            &&& asks_first(command, statements, ask)
            &&& crate::domain_models::opt_view(waiting.info) == crate::sqlite::util::operation(
                command,
                shown,
            )
            &&& waiting.stage == first_stage(command, fresh)
        },
    }
}

fn first(ids: Vec<FylesId>) -> (r: FylesId)
    requires
        ids@.len() > 0,
    ensures
        r == ids@[0],
{
    ids[0].clone()
}


fn only(statements: Vec<Statement>) -> (r: Statement)
    requires
        statements@.len() == 1,
    ensures
        crate::domain_models::views(statements@) == seq![r@],
{
    let mut rest = statements;
    let statement = rest.remove(0);
    assert(crate::domain_models::views(statements@) =~= seq![statement@]);
    statement
}

proof fn lemma_reads_have_one_statement(command: DbCommand, fresh: Seq<Seq<char>>)
    requires
        crate::sqlite::plan::planned(command, fresh) is Ok,
    ensures
        reads_rows(command) ==> crate::sqlite::plan::planned(command, fresh)->Ok_0.len() == 1,
{
}

/// Whether the command starts by reading rows.
pub open spec fn reads_rows(command: DbCommand) -> bool {
    match command {
        DbCommand::GetFilerequest(_) => true,
        DbCommand::GetFilerequests => true,
        DbCommand::GetContactName(_) => true,
        DbCommand::GetContactNames(_) => true,
        DbCommand::GetContact(_) => true,
        DbCommand::GetContacts => true,
        DbCommand::GetContactPublicKeys(_) => true,
        DbCommand::GetNodeKeys => true,
        DbCommand::GetRemoteFilerequest(_) => true,
        DbCommand::GetRemoteFilerequestsByContact(_) => true,
        DbCommand::GetAllRemoteFilerequests => true,
        DbCommand::GetPendingFile(_) => true,
        DbCommand::GetPendingFiles(_) => true,
        DbCommand::GetAllPendingFiles => true,
        DbCommand::UpdatePendingFileStatus { .. } => true,
        DbCommand::AddInterruptionReason { .. } => true,
        DbCommand::CountNonTerminalPendingFilesForPath(_) => true,
        DbCommand::GetReceivedFileByTransferId(_) => true,
        DbCommand::CompleteReceivedFile(_) => true,
        DbCommand::ListReceivedFiles(_) => true,
        DbCommand::GetStaleReceivedFiles { .. } => true,
        DbCommand::GetSelfContact => true,
        DbCommand::GetSelfContactForDisplay => true,
        DbCommand::GetSharablePublicSelfContact => true,
        DbCommand::GetSettings => true,
        _ => false,
    }
}

fn ask_first(command: &DbCommand, statements: Vec<Statement>) -> (r: Ask)
    requires
        reads_rows(*command) ==> statements@.len() == 1,
    ensures
        asks_first(*command, crate::domain_models::views(statements@), r),
{
    match command {
        DbCommand::GetFilerequest(_) => Ask::Filerequest(only(statements)),
        DbCommand::GetFilerequests => Ask::Filerequests(only(statements)),
        DbCommand::GetContactName(_) => Ask::OptionalText(only(statements)),
        DbCommand::GetContactNames(_) => Ask::Names(only(statements)),
        DbCommand::GetContact(_) => Ask::Contact(only(statements)),
        DbCommand::GetContacts => Ask::DisplayContacts(only(statements)),
        DbCommand::GetContactPublicKeys(_) => Ask::ContactKeys(only(statements)),
        DbCommand::GetNodeKeys => Ask::OptionalBytes(only(statements)),
        DbCommand::GetRemoteFilerequest(_) => Ask::RemoteFilerequest(only(statements)),
        DbCommand::GetRemoteFilerequestsByContact(_) => Ask::RemoteFilerequests(only(statements)),
        DbCommand::GetAllRemoteFilerequests => Ask::RemoteFilerequests(only(statements)),
        DbCommand::GetPendingFile(_) => Ask::PendingFile(only(statements)),
        DbCommand::GetPendingFiles(_) => Ask::PendingFiles(only(statements)),
        DbCommand::GetAllPendingFiles => Ask::PendingFilesWithContact(only(statements)),
        DbCommand::UpdatePendingFileStatus { .. } => Ask::Text(only(statements)),
        DbCommand::AddInterruptionReason { .. } => Ask::Text(only(statements)),
        DbCommand::CountNonTerminalPendingFilesForPath(_) => Ask::Count(only(statements)),
        DbCommand::GetReceivedFileByTransferId(_) => Ask::ReceivedFile(only(statements)),
        DbCommand::CompleteReceivedFile(_) => Ask::Text(only(statements)),
        DbCommand::ListReceivedFiles(_) => Ask::ReceivedFiles(only(statements)),
        DbCommand::GetStaleReceivedFiles { .. } => Ask::ReceivedFiles(only(statements)),
        DbCommand::GetSelfContact => Ask::SelfContact(only(statements)),
        DbCommand::GetSelfContactForDisplay => Ask::DisplayContact(only(statements)),
        DbCommand::GetSharablePublicSelfContact => Ask::SharableContact(only(statements)),
        DbCommand::GetSettings => Ask::OptionalBytes(only(statements)),
        _ => Ask::Execute { statements, atomic: runs_atomically(command) },
    }
}

fn stage_of(command: &DbCommand, fresh: Vec<FylesId>) -> (r: Stage)
    requires
        fresh@.len() == crate::sqlite::plan::ids_needed(*command),
    ensures
        r == first_stage(*command, fresh),
{
    match command {
        DbCommand::GetFilerequest(_) => Stage::FilerequestRead,
        DbCommand::GetFilerequests => Stage::FilerequestsRead,
        DbCommand::GetContactName(id) => Stage::NameRead { id: id.clone() },
        DbCommand::GetContactNames(_) => Stage::NamesRead,
        DbCommand::GetContact(_) => Stage::ContactRead,
        DbCommand::GetContacts => Stage::DisplayContactsRead,
        DbCommand::GetContactPublicKeys(_) => Stage::ContactKeysRead,
        DbCommand::GetNodeKeys => Stage::NodeKeyRead,
        DbCommand::GetRemoteFilerequest(_) => Stage::RemoteRead,
        DbCommand::GetRemoteFilerequestsByContact(_) => Stage::RemotesRead,
        DbCommand::GetAllRemoteFilerequests => Stage::RemotesRead,
        DbCommand::GetPendingFile(_) => Stage::PendingRead,
        DbCommand::GetPendingFiles(id) => Stage::PendingListRead { target: id.clone() },
        DbCommand::GetAllPendingFiles => Stage::AllPendingRead,
        DbCommand::UpdatePendingFileStatus { .. } => Stage::IdReturned,
        DbCommand::AddInterruptionReason { id, reason } => Stage::ReasonsRead {
            id: id.clone(),
            reason: reason.clone(),
        },
        DbCommand::CountNonTerminalPendingFilesForPath(_) => Stage::CountRead,
        DbCommand::GetReceivedFileByTransferId(_) => Stage::ReceivedRead,
        DbCommand::CompleteReceivedFile(_) => Stage::IdReturned,
        DbCommand::ListReceivedFiles(_) => Stage::ReceivedListRead,
        DbCommand::GetStaleReceivedFiles { .. } => Stage::ReceivedListRead,
        DbCommand::GetSelfContact => Stage::SelfContactRead,
        DbCommand::GetSelfContactForDisplay => Stage::SelfDisplayRead,
        DbCommand::GetSharablePublicSelfContact => Stage::SharableRead,
        DbCommand::GetSettings => Stage::SettingsRead,
        DbCommand::CreateFilerequest(_) => Stage::Created { id: first(fresh) },
        DbCommand::CreateRemoteFilerequest(_) => Stage::Created { id: first(fresh) },
        DbCommand::CreateIncomingFile(_) => Stage::Created { id: first(fresh) },
        DbCommand::CreatePendingFiles(_) => Stage::AllCreated { ids: fresh },
        DbCommand::UpdateFilerequest(_) => Stage::FilerequestUpdated,
        DbCommand::DeleteContact(_) => Stage::ContactDeleted,
        DbCommand::UpdateReceivedFileStatus { transfer_id, .. } => Stage::ReceivedStatusUpdated {
            transfer_id: transfer_id.clone(),
        },
        DbCommand::DeleteReceivedFile(id) => Stage::ReceivedFileDeleted { id: id.clone() },
        DbCommand::DeleteFilerequest(_) => Stage::Done,
        DbCommand::UpdateContact(_) => Stage::Done,
        DbCommand::RegisterContact(_) => Stage::Done,
        DbCommand::StoreNodeKeys(_) => Stage::Done,
        DbCommand::UpdateRemoteFilerequest { .. } => Stage::Done,
        DbCommand::DeleteRemoteFilerequest(_) => Stage::Done,
        DbCommand::DeletePendingFile(_) => Stage::Done,
        DbCommand::UpdateSelfContactName(_) => Stage::Done,
        DbCommand::UpdateIdentity(_) => Stage::Done,
        DbCommand::StoreSettings(_) => Stage::Done,
        DbCommand::BackupDatabase => Stage::Done,
        DbCommand::RestoreDatabase => Stage::Done,
    }
}

impl Stage {
    fn reply_kind(&self) -> (r: ReplyKind)
        ensures
            r == self.kind(),
    {
        match self {
            Stage::Created { .. } => ReplyKind::Id,
            Stage::AllCreated { .. } => ReplyKind::Ids,
            Stage::Done => ReplyKind::Unit,
            Stage::FilerequestUpdated => ReplyKind::Unit,
            Stage::ContactDeleted => ReplyKind::Unit,
            Stage::ReceivedStatusUpdated { .. } => ReplyKind::Unit,
            Stage::ReceivedFileDeleted { .. } => ReplyKind::Unit,
            Stage::FilerequestRead => ReplyKind::Filerequest,
            Stage::AudienceRead { .. } => ReplyKind::Filerequest,
            Stage::FilerequestsRead => ReplyKind::Filerequests,
            Stage::AudiencesRead { .. } => ReplyKind::Filerequests,
            Stage::NameRead { .. } => ReplyKind::Text,
            Stage::NamesRead => ReplyKind::Names,
            Stage::ContactRead => ReplyKind::Contact,
            Stage::ContactKeysRead => ReplyKind::PublicKeys,
            Stage::DisplayContactsRead => ReplyKind::DisplayContacts,
            Stage::NodeKeyRead => ReplyKind::NodeInfo,
            Stage::NodeContactRead { .. } => ReplyKind::NodeInfo,
            Stage::RemoteRead => ReplyKind::RemoteFilerequest,
            Stage::RemotesRead => ReplyKind::RemoteFilerequests,
            Stage::PendingRead => ReplyKind::PendingFile,
            Stage::PendingContactRead { .. } => ReplyKind::PendingFile,
            Stage::PendingListRead { .. } => ReplyKind::PendingFiles,
            Stage::PendingListContactRead { .. } => ReplyKind::PendingFiles,
            Stage::AllPendingRead => ReplyKind::PendingFiles,
            Stage::IdReturned => ReplyKind::Id,
            Stage::CountRead => ReplyKind::Count,
            Stage::ReceivedRead => ReplyKind::ReceivedFile,
            Stage::ReceivedListRead => ReplyKind::ReceivedFiles,
            Stage::SelfContactRead => ReplyKind::SelfContact,
            Stage::SelfDisplayRead => ReplyKind::DisplayContact,
            Stage::SharableRead => ReplyKind::Contact,
            Stage::SettingsRead => ReplyKind::Settings,
            Stage::ReasonsRead { .. } => ReplyKind::Unit,
        }
    }
}

/// Begins to carry out a command. `shown` is how its contents are shown, `fresh` are the ids that
/// it gives out.
pub fn start(command: &DbCommand, shown: &str, fresh: Vec<FylesId>) -> (r: DbStep)
    requires
        fresh@.len() == crate::sqlite::plan::ids_needed(*command),
    ensures
        starts(*command, shown@, fresh, r),
        r.is_consistent(),
{
    match plan(command, &fresh) {
        Ok(statements) => {
            proof {
                lemma_reads_have_one_statement(*command, crate::domain_models::views(fresh@));
                assert(crate::domain_models::views(statements@).len() == statements@.len());
            }
            let ask = ask_first(command, statements);
            let info = operation_info(command, shown);
            DbStep::Ask(ask, Waiting { info, stage: stage_of(command, fresh) })
        },
        Err(error) => DbStep::Reply(failure(stage_of(command, fresh).reply_kind(), error)),
    }
}

/// Whether the audience of the file request is asked for.
pub open spec fn asks_audience(step: DbStep, row: FilerequestRow) -> bool {
    step matches DbStep::Ask(Ask::Texts(statement), _) && statement@
        == crate::sqlite::statement::StatementView::of(crate::sqlite::plan::SELECT_AUDIENCE@).text(
        row.id@,
    )
}

/// Whether the contact of the remote file request is asked for.
pub open spec fn asks_contact(step: DbStep, target: Seq<char>) -> bool {
    step matches DbStep::Ask(Ask::Text(statement), _) && statement@
        == crate::sqlite::statement::StatementView::of(
        crate::sqlite::plan::SELECT_CONTACT_OF_REQUEST@,
    ).text(target)
}

/// Whether the command now waits in the stage, with what it does unchanged.
pub open spec fn waits_in(waiting: Waiting, step: DbStep, stage: Stage) -> bool {
    step matches DbStep::Ask(_, next) && next.info == waiting.info && next.stage == stage
}

/// Whether the file requests are completed one by one: those in `rest` follow those that are
/// done, and for the first that has an audience the audience is asked for.
pub open spec fn completes_filerequests(
    waiting: Waiting,
    done: Seq<crate::domain_models::FilerequestView>,
    rest: Seq<FilerequestRow>,
    step: DbStep,
) -> bool
    decreases rest.len(),
{
    if rest.len() == 0 {
        step matches DbStep::Reply(Answer::Filerequests(Ok(all))) && crate::domain_models::views(
            all@,
        ) == done
    } else if rest[0].access_type@ == "audience"@ {
        &&& asks_audience(step, rest[0])
        &&& step matches DbStep::Ask(_, next)
        &&& next.info == waiting.info
        &&& next.stage matches Stage::AudiencesRead { done: complete, row, rest: others }
        &&& crate::domain_models::views(complete@) == done
        &&& row == rest[0]
        &&& others@ == rest.skip(1)
    } else {
        completes_filerequests(
            waiting,
            done.push(crate::sqlite::rows::filerequest(rest[0], Seq::empty())),
            rest.skip(1),
            step,
        )
    }
}

/// Whether the step is what follows the event.
pub open spec fn concludes(waiting: Waiting, event: Event, step: DbStep) -> bool {
    match (waiting.stage, event) {
        (stage, Event::Failed(source)) => step.fails(
            stage.kind(),
            crate::sqlite::util::reported(
                crate::domain_models::opt_view(waiting.info),
                DbOperationError::Rusqlite { source },
            ),
        ),
        (Stage::Created { id }, Event::Executed(_)) => step.replies(Answer::Id(Ok(id))),
        (Stage::AllCreated { ids }, Event::Executed(_)) => step.replies(Answer::Ids(Ok(ids))),
        (Stage::Done, Event::Executed(_)) => step.replies(Answer::Unit(Ok(()))),
        (Stage::FilerequestUpdated, Event::Executed(changes)) => if changes > 0 {
            step.replies(Answer::Unit(Ok(())))
        } else {
            step.fails(ReplyKind::Unit, crate::sqlite::rows::no_filerequest())
        },
        (Stage::ContactDeleted, Event::Executed(changes)) => if changes > 0 {
            step.replies(Answer::Unit(Ok(())))
        } else {
            step.fails(ReplyKind::Unit, crate::sqlite::rows::no_contact())
        },
        (Stage::ReceivedStatusUpdated { transfer_id }, Event::Executed(changes)) => if changes > 0 {
            step.replies(Answer::Unit(Ok(())))
        } else {
            step.fails(
                ReplyKind::Unit,
                crate::sqlite::rows::no_received_file("transfer_id"@, transfer_id@),
            )
        },
        (Stage::ReceivedFileDeleted { id }, Event::Executed(changes)) => if changes > 0 {
            step.replies(Answer::Unit(Ok(())))
        } else {
            step.fails(ReplyKind::Unit, crate::sqlite::rows::no_received_file("id"@, id@))
        },
        (Stage::FilerequestRead, Event::Filerequest(row)) => if row.access_type@ == "audience"@ {
            asks_audience(step, row) && waits_in(waiting, step, Stage::AudienceRead { row })
        } else {
            step matches DbStep::Reply(Answer::Filerequest(Ok(filerequest))) && filerequest@
                == crate::sqlite::rows::filerequest(row, Seq::empty())
        },
        (Stage::AudienceRead { row }, Event::Texts(ids)) => step
            matches DbStep::Reply(Answer::Filerequest(Ok(filerequest))) && filerequest@
            == crate::sqlite::rows::filerequest(row, crate::domain_models::views(ids@)),
        (Stage::FilerequestsRead, Event::Filerequests(rows)) => completes_filerequests(
            waiting,
            Seq::empty(),
            rows@,
            step,
        ),
        (Stage::AudiencesRead { done, row, rest }, Event::Texts(ids)) => completes_filerequests(
            waiting,
            crate::domain_models::views(done@).push(
                crate::sqlite::rows::filerequest(row, crate::domain_models::views(ids@)),
            ),
            rest@,
            step,
        ),
        (Stage::NameRead { id }, Event::Text(name)) => match name {
            Some(name) => step.replies(Answer::Text(Ok(name))),
            None => step.fails(ReplyKind::Text, crate::sqlite::rows::no_such_contact(id@)),
        },
        (Stage::NamesRead, Event::Names(names)) => step.replies(Answer::Names(Ok(names))),
        (Stage::ContactRead, Event::Contact(row)) => match crate::sqlite::rows::read_contact(row) {
            Ok(view) => step matches DbStep::Reply(Answer::Contact(Ok(contact)))
                && contact@ == view,
            Err(error) => step.fails(ReplyKind::Contact, error),
        },
        (Stage::ContactKeysRead, Event::ContactKeys(row)) =>
            match crate::sqlite::rows::read_contact_keys(row) {
            Ok(view) => step matches DbStep::Reply(Answer::PublicKeys(Ok(keys)))
                && crate::domain_models::opt_view(keys) == view,
            Err(error) => step.fails(ReplyKind::PublicKeys, error),
        },
        (Stage::DisplayContactsRead, Event::DisplayContacts(contacts)) => step.replies(
            Answer::DisplayContacts(Ok(contacts)),
        ),
        (Stage::NodeKeyRead, Event::Bytes(key_bytes)) => match key_bytes {
            Some(key_bytes) => {
                &&& step matches DbStep::Ask(Ask::OptionalSelfContact(statement), _)
                &&& statement@ == crate::sqlite::statement::StatementView::of(
                    crate::sqlite::plan::SELECT_SELF_CONTACT@,
                )
                &&& waits_in(waiting, step, Stage::NodeContactRead { key_bytes })
            },
            None => step.fails(
                ReplyKind::NodeInfo,
                crate::db::DbErrorView::DataNotYetInitialized,
            ),
        },
        (Stage::NodeContactRead { key_bytes }, Event::SelfContact(row)) =>
            match crate::sqlite::rows::read_node_info(Some(key_bytes), row) {
            Ok(view) => step matches DbStep::Reply(Answer::NodeInfo(Ok(info))) && info@ == view,
            Err(error) => step.fails(ReplyKind::NodeInfo, error),
        },
        (Stage::RemoteRead, Event::RemoteFilerequest(request)) => step.replies(
            Answer::RemoteFilerequest(Ok(request)),
        ),
        (Stage::RemotesRead, Event::RemoteFilerequests(requests)) => step.replies(
            Answer::RemoteFilerequests(Ok(requests)),
        ),
        (Stage::PendingRead, Event::PendingFile(row)) => asks_contact(
            step,
            row.target_filerequest_id@,
        ) && waits_in(waiting, step, Stage::PendingContactRead { row }),
        (Stage::PendingContactRead { row }, Event::Text(Some(contact_id))) =>
            match crate::sqlite::rows::pending_file(row, contact_id@) {
            Ok(view) => step matches DbStep::Reply(Answer::PendingFile(Ok(file))) && file@ == view,
            Err(error) => step.fails(ReplyKind::PendingFile, error),
        },
        (Stage::PendingListRead { target }, Event::PendingFiles(rows)) => asks_contact(
            step,
            target@,
        ) && waits_in(waiting, step, Stage::PendingListContactRead { rows }),
        (Stage::PendingListContactRead { rows }, Event::Text(Some(contact_id))) =>
            replies_pending_files(step, crate::sqlite::rows::for_contact(rows@, contact_id@)),
        (Stage::AllPendingRead, Event::PendingFilesWithContact(rows)) => replies_pending_files(
            step,
            crate::sqlite::rows::for_contacts(rows@),
        ),
        (Stage::IdReturned, Event::Text(Some(id))) => step.replies(Answer::Id(Ok(FylesId(id)))),
        (Stage::CountRead, Event::Count(count)) => step.replies(Answer::Count(Ok(count))),
        (Stage::ReceivedRead, Event::ReceivedFile(row)) => step
            matches DbStep::Reply(Answer::ReceivedFile(Ok(file))) && file@
            == crate::sqlite::rows::received_file(row),
        (Stage::ReceivedListRead, Event::ReceivedFiles(rows)) => step
            matches DbStep::Reply(Answer::ReceivedFiles(Ok(files))) && files@.len() == rows@.len()
            && forall|i: int|
            0 <= i < rows@.len() ==> (#[trigger] files@[i])@ == crate::sqlite::rows::received_file(
                rows@[i],
            ),
        (Stage::SelfContactRead, Event::SelfContact(Some(row))) =>
            match crate::sqlite::rows::read_self_contact(row) {
            Ok(view) => step matches DbStep::Reply(Answer::SelfContact(Ok(contact))) && contact@
                == view,
            Err(error) => step.fails(ReplyKind::SelfContact, error),
        },
        (Stage::SelfDisplayRead, Event::DisplayContact(contact)) => step.replies(
            Answer::DisplayContact(Ok(contact)),
        ),
        (Stage::SharableRead, Event::SharableContact(row)) =>
            match crate::sqlite::rows::read_sharable_contact(row) {
            Ok(view) => step matches DbStep::Reply(Answer::Contact(Ok(contact)))
                && contact@ == view,
            Err(error) => step.fails(ReplyKind::Contact, error),
        },
        (Stage::SettingsRead, Event::Bytes(data)) => step
            matches DbStep::Reply(Answer::Settings(Ok(settings))) && match data {
            Some(bytes) => settings@ == bytes@,
            None => settings@.len() == 0,
        },
        (Stage::ReasonsRead { id, reason }, Event::Text(Some(json))) => {
            &&& step matches DbStep::Ask(Ask::Execute { statements, atomic }, _)
            &&& !atomic
            &&& crate::domain_models::views(statements@) == seq![
                crate::sqlite::statement::StatementView::of(
                    crate::sqlite::plan::STORE_INTERRUPTION_REASONS@,
                ).text(
                    crate::sqlite::rows::strings_json(
                        crate::sqlite::rows::reasons(json@).push(reason@),
                    ),
                ).text(id@),
            ]
            &&& waits_in(waiting, step, Stage::Done)
        },
        _ => false,
    }
}

/// Whether the files of the rows are replied, or what is wrong with one of them.
pub open spec fn replies_pending_files(
    step: DbStep,
    rows: Seq<(PendingFileRow, Seq<char>)>,
) -> bool {
    match crate::sqlite::rows::pending_files(rows) {
        Ok(views) => step matches DbStep::Reply(Answer::PendingFiles(Ok(files)))
            && crate::domain_models::views(files@) == views,
        Err(error) => step.fails(ReplyKind::PendingFiles, error),
    }
}

fn no_audience() -> (r: Vec<ContactId>)
    ensures
        crate::domain_models::views(r@) == Seq::<Seq<char>>::empty(),
{
    let nobody: Vec<ContactId> = Vec::new();
    assert(crate::domain_models::views(nobody@) =~= Seq::empty());
    nobody
}

fn complete_filerequests(
    info: Option<DbOperationInfo>,
    done: Vec<Filerequest>,
    rest: Vec<FilerequestRow>,
    Ghost(waiting): Ghost<Waiting>,
) -> (r: DbStep)
    requires
        waiting.info == info,
    ensures
        completes_filerequests(waiting, crate::domain_models::views(done@), rest@, r),
        r.is_consistent(),
    decreases rest@.len(),
{
    let mut done = done;
    let mut rest = rest;
    if rest.len() == 0 {
        return DbStep::Reply(Answer::Filerequests(Ok(done)));
    }
    let ghost rows = rest@;
    let row = rest.remove(0);
    assert(rest@ =~= rows.skip(1));
    if has_audience(row.access_type.as_str()) {
        let statement = audience_query(&FylesId(row.id.clone()));
        return DbStep::Ask(
            Ask::Texts(statement),
            Waiting { info, stage: Stage::AudiencesRead { done, row, rest } },
        );
    }
    let ghost before = done@;
    let filerequest = filerequest_of(row, no_audience());
    done.push(filerequest);
    assert(crate::domain_models::views(done@) =~= crate::domain_models::views(before).push(
        filerequest@,
    ));
    complete_filerequests(info, done, rest, Ghost(waiting))
}

fn received_files_of(rows: Vec<ReceivedFileRow>) -> (r: Vec<ReceivedFile>)
    ensures
        r@.len() == rows@.len(),
        forall|i: int|
            0 <= i < rows@.len() ==> (#[trigger] r@[i])@ == crate::sqlite::rows::received_file(
                rows@[i],
            ),
{
    let mut rest = rows;
    let mut files: Vec<ReceivedFile> = Vec::new();
    while rest.len() > 0
        invariant
            rest@.len() + files@.len() == rows@.len(),
            rest@ == rows@.skip(files@.len() as int),
            forall|i: int|
                0 <= i < files@.len() ==> (#[trigger] files@[i])@
                    == crate::sqlite::rows::received_file(rows@[i]),
        decreases rest@.len(),
    {
        let ghost before = rest@;
        let row = rest.remove(0);
        assert(row == rows@[files@.len() as int]);
        assert(rest@ =~= rows@.skip(files@.len() as int + 1));
        files.push(received_file_of(row));
    }
    files
}

fn replied(reply: DbReply) -> (r: DbStep)
    ensures
        r.replies(reply),
        r.is_consistent(),
{
    DbStep::Reply(reply)
}

fn failed(kind: ReplyKind, error: DbError) -> (r: DbStep)
    ensures
        r.fails(kind, error@),
        r.is_consistent(),
{
    DbStep::Reply(failure(kind, error))
}

fn changed(outcome: Result<(), DbError>) -> (r: DbStep)
    ensures
        match outcome {
            Ok(_) => r.replies(Answer::Unit(Ok(()))),
            Err(e) => r.fails(ReplyKind::Unit, e@),
        },
        r.is_consistent(),
{
    match outcome {
        Ok(_) => replied(Answer::Unit(Ok(()))),
        Err(error) => failed(ReplyKind::Unit, error),
    }
}

/// Goes on with a command once the database has answered.
pub fn resume(waiting: Waiting, event: Event) -> (r: DbStep)
    requires
        waiting.stage.takes(event),
    ensures
        concludes(waiting, event, r),
        r.is_consistent(),
{
    let ghost whole = waiting;
    let Waiting { info, stage } = waiting;
    match (stage, event) {
        (stage, Event::Failed(source)) => failed(
            stage.reply_kind(),
            report(info, DbOperationError::Rusqlite { source }),
        ),
        (Stage::Created { id }, Event::Executed(_)) => replied(Answer::Id(Ok(id))),
        (Stage::AllCreated { ids }, Event::Executed(_)) => replied(Answer::Ids(Ok(ids))),
        (Stage::Done, Event::Executed(_)) => replied(Answer::Unit(Ok(()))),
        (Stage::FilerequestUpdated, Event::Executed(changes)) => changed(
            filerequest_updated(changes),
        ),
        (Stage::ContactDeleted, Event::Executed(changes)) => changed(contact_deleted(changes)),
        (Stage::ReceivedStatusUpdated { transfer_id }, Event::Executed(changes)) => changed(
            received_status_updated(changes, &transfer_id),
        ),
        (Stage::ReceivedFileDeleted { id }, Event::Executed(changes)) => changed(
            received_file_deleted(changes, &id),
        ),
        (Stage::FilerequestRead, Event::Filerequest(row)) => if has_audience(
            row.access_type.as_str(),
        ) {
            let statement = audience_query(&FylesId(row.id.clone()));
            DbStep::Ask(
                Ask::Texts(statement),
                Waiting { info, stage: Stage::AudienceRead { row } },
            )
        } else {
            replied(Answer::Filerequest(Ok(filerequest_of(row, no_audience()))))
        },
        (Stage::AudienceRead { row }, Event::Texts(ids)) => replied(
            Answer::Filerequest(Ok(filerequest_of(row, strings_to_ids(ids)))),
        ),
        (Stage::FilerequestsRead, Event::Filerequests(rows)) => {
            let done: Vec<Filerequest> = Vec::new();
            assert(crate::domain_models::views(done@) =~= Seq::empty());
            complete_filerequests(info, done, rows, Ghost(whole))
        },
        (Stage::AudiencesRead { done, row, rest }, Event::Texts(ids)) => {
            let mut done = done;
            let ghost before = done@;
            let filerequest = filerequest_of(row, strings_to_ids(ids));
            done.push(filerequest);
            assert(crate::domain_models::views(done@) =~= crate::domain_models::views(before).push(
                filerequest@,
            ));
            complete_filerequests(info, done, rest, Ghost(whole))
        },
        (Stage::NameRead { id }, Event::Text(name)) => match contact_name_of(name, &id) {
            Ok(name) => replied(Answer::Text(Ok(name))),
            Err(error) => failed(ReplyKind::Text, error),
        },
        (Stage::NamesRead, Event::Names(names)) => replied(Answer::Names(Ok(names))),
        (Stage::ContactRead, Event::Contact(row)) => match contact_of(row) {
            Ok(contact) => replied(Answer::Contact(Ok(contact))),
            Err(error) => failed(ReplyKind::Contact, error),
        },
        (Stage::ContactKeysRead, Event::ContactKeys(row)) => match contact_keys_of(row) {
            Ok(keys) => replied(Answer::PublicKeys(Ok(keys))),
            Err(error) => failed(ReplyKind::PublicKeys, error),
        },
        (Stage::DisplayContactsRead, Event::DisplayContacts(contacts)) => replied(
            Answer::DisplayContacts(Ok(contacts)),
        ),
        (Stage::NodeKeyRead, Event::Bytes(key_bytes)) => match key_bytes {
            Some(key_bytes) => DbStep::Ask(
                Ask::OptionalSelfContact(self_contact_query()),
                Waiting { info, stage: Stage::NodeContactRead { key_bytes } },
            ),
            None => failed(ReplyKind::NodeInfo, DbError::DataNotYetInitialized),
        },
        (Stage::NodeContactRead { key_bytes }, Event::SelfContact(row)) => match node_info_of(
            Some(key_bytes),
            row,
        ) {
            Ok(node) => replied(Answer::NodeInfo(Ok(node))),
            Err(error) => failed(ReplyKind::NodeInfo, error),
        },
        (Stage::RemoteRead, Event::RemoteFilerequest(request)) => replied(
            Answer::RemoteFilerequest(Ok(request)),
        ),
        (Stage::RemotesRead, Event::RemoteFilerequests(requests)) => replied(
            Answer::RemoteFilerequests(Ok(requests)),
        ),
        (Stage::PendingRead, Event::PendingFile(row)) => {
            let statement = contact_of_request_query(&FylesId(row.target_filerequest_id.clone()));
            DbStep::Ask(
                Ask::Text(statement),
                Waiting { info, stage: Stage::PendingContactRead { row } },
            )
        },
        (Stage::PendingContactRead { row }, Event::Text(Some(contact_id))) => match pending_file_of(
            &row,
            &ContactId(contact_id),
        ) {
            Ok(file) => replied(Answer::PendingFile(Ok(file))),
            Err(error) => failed(ReplyKind::PendingFile, error),
        },
        (Stage::PendingListRead { target }, Event::PendingFiles(rows)) => DbStep::Ask(
            Ask::Text(contact_of_request_query(&target)),
            Waiting { info, stage: Stage::PendingListContactRead { rows } },
        ),
        (Stage::PendingListContactRead { rows }, Event::Text(Some(contact_id))) =>
            match pending_files_for(&rows, &ContactId(contact_id)) {
            Ok(files) => replied(Answer::PendingFiles(Ok(files))),
            Err(error) => failed(ReplyKind::PendingFiles, error),
        },
        (Stage::AllPendingRead, Event::PendingFilesWithContact(rows)) => match pending_files_of(
            &rows,
        ) {
            Ok(files) => replied(Answer::PendingFiles(Ok(files))),
            Err(error) => failed(ReplyKind::PendingFiles, error),
        },
        (Stage::IdReturned, Event::Text(Some(id))) => replied(Answer::Id(Ok(FylesId(id)))),
        (Stage::CountRead, Event::Count(count)) => replied(Answer::Count(Ok(count))),
        (Stage::ReceivedRead, Event::ReceivedFile(row)) => replied(
            Answer::ReceivedFile(Ok(received_file_of(row))),
        ),
        (Stage::ReceivedListRead, Event::ReceivedFiles(rows)) => replied(
            Answer::ReceivedFiles(Ok(received_files_of(rows))),
        ),
        (Stage::SelfContactRead, Event::SelfContact(Some(row))) => match self_contact_of(row) {
            Ok(contact) => replied(Answer::SelfContact(Ok(contact))),
            Err(error) => failed(ReplyKind::SelfContact, error),
        },
        (Stage::SelfDisplayRead, Event::DisplayContact(contact)) => replied(
            Answer::DisplayContact(Ok(contact)),
        ),
        (Stage::SharableRead, Event::SharableContact(row)) => match sharable_contact_of(row) {
            Ok(contact) => replied(Answer::Contact(Ok(contact))),
            Err(error) => failed(ReplyKind::Contact, error),
        },
        (Stage::SettingsRead, Event::Bytes(data)) => replied(
            Answer::Settings(Ok(settings_of(data))),
        ),
        (Stage::ReasonsRead { id, reason }, Event::Text(Some(json))) => {
            let json = with_interruption_reason(json.as_str(), reason.as_str());
            let statements = store_interruption_reasons(&id, json.as_str()).only();
            DbStep::Ask(
                Ask::Execute { statements, atomic: false },
                Waiting { info, stage: Stage::Done },
            )
        },
        (stage, _) => failed(stage.reply_kind(), DbError::DataNotYetInitialized),
    }
}

/// Whether the reply is of the kind.
pub open spec fn is_of_kind(reply: DbReply, kind: ReplyKind) -> bool {
    match kind {
        ReplyKind::Unit => reply is Unit,
        ReplyKind::Id => reply is Id,
        ReplyKind::Ids => reply is Ids,
        ReplyKind::Text => reply is Text,
        ReplyKind::Names => reply is Names,
        ReplyKind::Filerequest => reply is Filerequest,
        ReplyKind::Filerequests => reply is Filerequests,
        ReplyKind::Contact => reply is Contact,
        ReplyKind::DisplayContact => reply is DisplayContact,
        ReplyKind::DisplayContacts => reply is DisplayContacts,
        ReplyKind::SelfContact => reply is SelfContact,
        ReplyKind::RemoteFilerequest => reply is RemoteFilerequest,
        ReplyKind::RemoteFilerequests => reply is RemoteFilerequests,
        ReplyKind::PendingFile => reply is PendingFile,
        ReplyKind::PendingFiles => reply is PendingFiles,
        ReplyKind::ReceivedFile => reply is ReceivedFile,
        ReplyKind::ReceivedFiles => reply is ReceivedFiles,
        ReplyKind::NodeInfo => reply is NodeInfo,
        ReplyKind::PublicKeys => reply is PublicKeys,
        ReplyKind::Settings => reply is Settings,
        ReplyKind::Count => reply is Count,
    }
}

/// A command is given the kind of reply that it is owed, whatever the database answers.
pub proof fn law_reply_is_of_the_kind_owed(waiting: Waiting, event: Event, step: DbStep)
    requires
        concludes(waiting, event, step),
    ensures
        step matches DbStep::Reply(reply) ==> is_of_kind(reply, waiting.stage.kind()),
        step matches DbStep::Ask(_, next) ==> next.stage.kind() == waiting.stage.kind(),
{
    match (waiting.stage, event) {
        (Stage::FilerequestsRead, Event::Filerequests(rows)) => {
            lemma_completed_filerequests_are_replied(waiting, Seq::empty(), rows@, step);
        },
        (Stage::AudiencesRead { done, row, rest }, Event::Texts(ids)) => {
            lemma_completed_filerequests_are_replied(
                waiting,
                crate::domain_models::views(done@).push(
                    crate::sqlite::rows::filerequest(row, crate::domain_models::views(ids@)),
                ),
                rest@,
                step,
            );
        },
        _ => {},
    }
}

/// The reply that a command is owed is one that those who sent it understand.
pub proof fn law_replies_are_understood(command: DbCommand, fresh: Vec<FylesId>, reply: DbReply)
    requires
        is_of_kind(reply, first_stage(command, fresh).kind()),
    ensures
        command.is_answered_by(reply),
{
}

proof fn lemma_completed_filerequests_are_replied(
    waiting: Waiting,
    done: Seq<crate::domain_models::FilerequestView>,
    rest: Seq<FilerequestRow>,
    step: DbStep,
)
    requires
        completes_filerequests(waiting, done, rest, step),
    ensures
        step matches DbStep::Reply(reply) ==> reply is Filerequests,
        step matches DbStep::Ask(_, next) ==> next.stage is AudiencesRead,
    decreases rest.len(),
{
    if rest.len() > 0 && rest[0].access_type@ != "audience"@ {
        lemma_completed_filerequests_are_replied(
            waiting,
            done.push(crate::sqlite::rows::filerequest(rest[0], Seq::empty())),
            rest.skip(1),
            step,
        );
    }
}

} // verus!
