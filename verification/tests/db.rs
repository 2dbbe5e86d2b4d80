
use fyles_core::brain::exchange::{Answer, DbCommand, DbReply};
use fyles_core::db::{DbError, NodeInfo};
use fyles_core::domain_models::{
    CompleteReceivedFile, Contact, ContactId, CreateFilerequest, CreateIncomingFile,
    CreatePendingFiles, CreateRemoteFilerequest, DisplayContact, FileInfo, Filerequest,
    FilerequestAccess, FylesId, InProgress, InProgressSendStatus, PeerIdWrapper, PendingFile,
    ReceiveStatus, ReceivedFile, RemoteFilerequest, SendStatus, TransferData,
};
use fyles_core::mocks::db::MockDb;
use fyles_core::sqlite::actor::{resume, start, Ask, DbStep, Event};
use fyles_core::sqlite::migrations::data::{
    assign_contact, assign_peer, restore_peer, restore_sender, OldFile, OldRequest,
    SELECT_CONTACTS_OF_PEERS, SELECT_FILES_OF_CONTACTS, SELECT_FILES_OF_PEERS,
    SELECT_OLD_REQUESTS, SELECT_PEER, SELECT_PEERS_OF_CONTACTS, SELECT_REQUESTS_OF_PEERS,
};
use fyles_core::sqlite::migrations::{
    pending_migrations, DataStep, MigrationStep, Script, Version, SELECT_SCHEMA_VERSION,
};
use fyles_core::sqlite::plan::fresh_ids;
use fyles_core::sqlite::rows::{
    ContactKeysRow, ContactRow, FilerequestRow, PendingFileRow, ReceivedFileRow, SelfContactRow,
    SharableContactRow,
};
use fyles_core::sqlite::schema::{initialize_tables, COUNT_VERSIONS, CREATE_VERSION_TABLE};
use fyles_core::sqlite::statement::{SqlValue, Statement};
use rusqlite::types::{Null, ToSql, ToSqlOutput};
use rusqlite::{Connection, OptionalExtension, Row};

use fyles_core::util::epoch::unix_epoch_millis;
use rand::RngCore;

struct Param<'a>(&'a SqlValue);

impl ToSql for Param<'_> {
    fn to_sql(&self) -> rusqlite::Result<ToSqlOutput<'_>> {
        match self.0 {
            SqlValue::Null => Ok(ToSqlOutput::from(Null)),
            SqlValue::Integer(number) => number.to_sql(),
            SqlValue::Size(size) => i64::try_from(*size)
                .map(ToSqlOutput::from)
                .map_err(|e| rusqlite::Error::ToSqlConversionFailure(Box::new(e))),
            SqlValue::Text(text) => text.to_sql(),
            SqlValue::Blob(bytes) => bytes.to_sql(),
        }
    }
}

fn params(statement: &Statement) -> Vec<Param<'_>> {
    statement.params.iter().map(Param).collect()
}

fn execute(conn: &Connection, statement: &Statement) -> rusqlite::Result<usize> {
    conn.execute(
        &statement.sql,
        rusqlite::params_from_iter(params(statement)),
    )
}

fn query_row<T>(
    conn: &Connection,
    statement: &Statement,
    read: impl FnOnce(&Row<'_>) -> rusqlite::Result<T>,
) -> rusqlite::Result<T> {
    conn.query_row(
        &statement.sql,
        rusqlite::params_from_iter(params(statement)),
        read,
    )
}

fn query_all<T>(
    conn: &Connection,
    statement: &Statement,
    read: impl FnMut(&Row<'_>) -> rusqlite::Result<T>,
) -> rusqlite::Result<Vec<T>> {
    let mut prepared = conn.prepare(&statement.sql)?;
    let rows = prepared.query_map(rusqlite::params_from_iter(params(statement)), read)?;
    rows.collect()
}

fn unsigned(row: &Row<'_>, index: usize) -> rusqlite::Result<Option<u64>> {
    row.get::<_, Option<i64>>(index)?
        .map(|number| {
            u64::try_from(number)
                .map_err(|_| rusqlite::Error::IntegralValueOutOfRange(index, number))
        })
        .transpose()
}

fn size(row: &Row<'_>, index: usize) -> rusqlite::Result<usize> {
    let number: i64 = row.get(index)?;
    usize::try_from(number).map_err(|_| rusqlite::Error::IntegralValueOutOfRange(index, number))
}

fn filerequest_row(row: &Row<'_>) -> rusqlite::Result<FilerequestRow> {
    Ok(FilerequestRow {
        id: row.get(0)?,
        title: row.get(1)?,
        description: row.get(2)?,
        status: row.get(3)?,
        access_type: row.get(4)?,
    })
}

fn pending_row(row: &Row<'_>) -> rusqlite::Result<PendingFileRow> {
    Ok(PendingFileRow {
        id: row.get(0)?,
        file_path: row.get(1)?,
        target_filerequest_id: row.get(2)?,
        status: row.get(3)?,
        retry_count: size(row, 4)?,
        progress_bytes: unsigned(row, 5)?,
        file_size_bytes: unsigned(row, 6)?,
        transfer_id: row.get(7)?,
        display_name: row.get(8)?,
        interruption_reasons: row.get(9)?,
    })
}

fn received_row(row: &Row<'_>) -> rusqlite::Result<ReceivedFileRow> {
    Ok(ReceivedFileRow {
        id: row.get(0)?,
        contact_id: row.get(1)?,
        peer_id: row.get(2)?,
        filerequest_id: row.get(3)?,
        transfer_id: row.get(4)?,
        file_name: row.get(5)?,
        file_path: row.get(6)?,
        file_size_bytes: row.get(7)?,
        progress_bytes: row.get(8)?,
        status: row.get(9)?,
        started_at_ms: row.get(10)?,
        received_at_ms: row.get(11)?,
    })
}

fn remote_row(row: &Row<'_>) -> rusqlite::Result<RemoteFilerequest> {
    Ok(RemoteFilerequest {
        id: FylesId(row.get(0)?),
        peer_id: PeerIdWrapper(row.get(1)?),
        filerequest_id: FylesId(row.get(2)?),
        name: row.get(3)?,
        contact_id: ContactId(row.get(4)?),
    })
}

fn self_contact_row(row: &Row<'_>) -> rusqlite::Result<SelfContactRow> {
    Ok(SelfContactRow {
        contact_id: row.get(0)?,
        name: row.get(1)?,
        ed25519_private_key: row.get(2)?,
        ed25519_public_key: row.get(3)?,
        dilithium_private_key: row.get(4)?,
        dilithium_public_key: row.get(5)?,
    })
}

fn display_row(row: &Row<'_>) -> rusqlite::Result<DisplayContact> {
    Ok(DisplayContact {
        id: ContactId(row.get(0)?),
        name: row.get(1)?,
    })
}

fn contact_row(row: &Row<'_>) -> rusqlite::Result<ContactRow> {
    Ok(ContactRow {
        id: row.get(0)?,
        name: row.get(1)?,
        keys: ContactKeysRow {
            dilithium_public_key: row.get(2)?,
            ed25519_public_key: row.get(3)?,
        },
    })
}

fn contact_keys_row(row: &Row<'_>) -> rusqlite::Result<ContactKeysRow> {
    Ok(ContactKeysRow {
        dilithium_public_key: row.get(0)?,
        ed25519_public_key: row.get(1)?,
    })
}

fn sharable_contact_row(row: &Row<'_>) -> rusqlite::Result<SharableContactRow> {
    Ok(SharableContactRow {
        contact_id: row.get(0)?,
        name: row.get(1)?,
        dilithium_public_key: row.get(2)?,
        ed25519_public_key: row.get(3)?,
    })
}

/// How the contents of a command are shown where its failure is told.
fn shown(command: &DbCommand) -> String {
    match command {
        DbCommand::CreateFilerequest(filerequest) => format!("{filerequest:?}"),
        DbCommand::UpdateFilerequest(filerequest) => format!("{filerequest:?}"),
        DbCommand::GetContactNames(ids) => format!("{ids:?}"),
        DbCommand::UpdateContact(contact) => format!("{contact:?}"),
        DbCommand::CreateRemoteFilerequest(request) => format!("{request:?}"),
        DbCommand::UpdateRemoteFilerequest { id, .. } => format!("{id:?}"),
        _ => String::new(),
    }
}

/// The database, open.
struct Sqlite {
    conn: Connection,
}

impl Sqlite {
    fn in_memory() -> Self {
        let conn = Connection::open_in_memory().unwrap();
        Sqlite {
            conn: initialize_database(conn).unwrap(),
        }
    }

    /// Runs all statements and tells how many rows the first one changed.
    fn run_all(&mut self, statements: &[Statement], atomic: bool) -> rusqlite::Result<usize> {
        let mut changes = Vec::new();
        if atomic {
            let tx = self.conn.transaction()?;
            for statement in statements {
                changes.push(execute(&tx, statement)?);
            }
            tx.commit()?;
        } else {
            for statement in statements {
                changes.push(execute(&self.conn, statement)?);
            }
        }
        Ok(changes.first().copied().unwrap_or(0))
    }

    /// Puts a question to the database.
    fn ask(&mut self, ask: &Ask) -> rusqlite::Result<Event> {
        if let Ask::Execute { statements, atomic } = ask {
            return self.run_all(statements, *atomic).map(Event::Executed);
        }
        let conn = &self.conn;
        Ok(match ask {
            Ask::Execute { .. } => Event::Executed(0),
            Ask::Text(s) => Event::Text(Some(query_row(conn, s, |row| row.get(0))?)),
            Ask::OptionalText(s) => {
                Event::Text(query_row(conn, s, |row| row.get(0)).optional()?)
            }
            Ask::Texts(s) => Event::Texts(query_all(conn, s, |row| row.get(0))?),
            Ask::OptionalBytes(s) => {
                Event::Bytes(query_row(conn, s, |row| row.get(0)).optional()?)
            }
            Ask::Count(s) => Event::Count(query_row(conn, s, |row| size(row, 0))?),
            Ask::Names(s) => Event::Names(query_all(conn, s, |row| {
                Ok((ContactId(row.get(0)?), row.get(1)?))
            })?),
            Ask::Filerequest(s) => Event::Filerequest(query_row(conn, s, filerequest_row)?),
            Ask::Filerequests(s) => Event::Filerequests(query_all(conn, s, filerequest_row)?),
            Ask::Contact(s) => Event::Contact(query_row(conn, s, contact_row)?),
            Ask::ContactKeys(s) => {
                Event::ContactKeys(query_row(conn, s, contact_keys_row).optional()?)
            }
            Ask::DisplayContact(s) => Event::DisplayContact(query_row(conn, s, display_row)?),
            Ask::DisplayContacts(s) => Event::DisplayContacts(query_all(conn, s, display_row)?),
            Ask::SelfContact(s) => {
                Event::SelfContact(Some(query_row(conn, s, self_contact_row)?))
            }
            Ask::OptionalSelfContact(s) => {
                Event::SelfContact(query_row(conn, s, self_contact_row).optional()?)
            }
            Ask::SharableContact(s) => {
                Event::SharableContact(query_row(conn, s, sharable_contact_row)?)
            }
            Ask::RemoteFilerequest(s) => Event::RemoteFilerequest(query_row(conn, s, remote_row)?),
            Ask::RemoteFilerequests(s) => {
                Event::RemoteFilerequests(query_all(conn, s, remote_row)?)
            }
            Ask::PendingFile(s) => Event::PendingFile(query_row(conn, s, pending_row)?),
            Ask::PendingFiles(s) => Event::PendingFiles(query_all(conn, s, pending_row)?),
            Ask::PendingFilesWithContact(s) => {
                Event::PendingFilesWithContact(query_all(conn, s, |row| {
                    Ok((pending_row(row)?, ContactId(row.get(10)?)))
                })?)
            }
            Ask::ReceivedFile(s) => Event::ReceivedFile(query_row(conn, s, received_row)?),
            Ask::ReceivedFiles(s) => Event::ReceivedFiles(query_all(conn, s, received_row)?),
        })
    }

    /// Carries out a command on the tables.
    fn execute(&mut self, command: &DbCommand) -> DbReply {
        let mut step = start(command, &shown(command), fresh_ids(command));
        loop {
            match step {
                DbStep::Reply(reply) => return reply,
                DbStep::Ask(ask, waiting) => {
                    let event = match self.ask(&ask) {
                        Ok(event) => event,
                        Err(source) => Event::Failed(source.to_string()),
                    };
                    step = resume(waiting, event);
                }
            }
        }
    }
}

fn initialize_database(mut conn: Connection) -> rusqlite::Result<Connection> {
    conn.execute("PRAGMA foreign_keys = ON", [])?;
    conn.execute(CREATE_VERSION_TABLE, [])?;
    let count: i64 = conn.query_row(COUNT_VERSIONS, [], |row| row.get(0))?;
    let tx = conn.transaction()?;
    for statement in initialize_tables(count) {
        if statement.params.is_empty() {
            tx.execute_batch(&statement.sql)?;
        } else {
            execute(&tx, &statement)?;
        }
    }
    tx.commit()?;
    run_migrations(&mut conn)?;
    Ok(conn)
}

/// Brings a database to the current version, one migration at a time.
fn run_migrations(conn: &mut Connection) -> rusqlite::Result<()> {
    let version: String = conn.query_row(SELECT_SCHEMA_VERSION, [], |row| row.get(0))?;
    let version = Version::parse(&version).expect("the version of the schema to be readable");
    for migration in pending_migrations(&version) {
        let (script, record) = migration.upgrade();
        let tx = conn.transaction()?;
        run_script(&tx, script)?;
        execute(&tx, &record)?;
        tx.commit()?;
    }
    Ok(())
}

fn run_script(conn: &Connection, script: &Script) -> rusqlite::Result<()> {
    for step in &script.steps {
        match step {
            MigrationStep::Run(sql) => conn.execute_batch(sql)?,
            MigrationStep::Data(step) => run_data_step(conn, *step)?,
        }
    }
    Ok(())
}

fn old_requests(conn: &Connection, sql: &str) -> rusqlite::Result<Vec<OldRequest>> {
    query_all(conn, &Statement::of(sql), |row| {
        Ok(OldRequest {
            id: row.get(0)?,
            peer_id: row.get(1)?,
            filerequest_id: row.get(2)?,
            name: row.get(3)?,
            created_at: row.get(4)?,
        })
    })
}

fn old_files(conn: &Connection, sql: &str) -> rusqlite::Result<Vec<OldFile>> {
    query_all(conn, &Statement::of(sql), |row| {
        Ok(OldFile {
            id: row.get(0)?,
            sender: row.get(1)?,
            filerequest_id: row.get(2)?,
            file_name: row.get(3)?,
            file_path: row.get(4)?,
            size: row.get(5)?,
            received_at_ms: row.get(6)?,
        })
    })
}

fn pairs(conn: &Connection, sql: &str) -> rusqlite::Result<Vec<(String, String)>> {
    query_all(conn, &Statement::of(sql), |row| {
        Ok((row.get(0)?, row.get(1)?))
    })
}

fn run_data_step(conn: &Connection, step: DataStep) -> rusqlite::Result<()> {
    match step {
        DataStep::AssignPeers => {
            for request in old_requests(conn, SELECT_OLD_REQUESTS)? {
                let query = Statement::of(SELECT_PEER).text(&request.peer_id);
                let known = query_row(conn, &query, |row| row.get(0)).optional()?;
                let rows = assign_peer(&request, known, &FylesId::new(), &FylesId::new())
                    .expect("the id of a peer to be long enough");
                for row in rows {
                    execute(conn, &row)?;
                }
            }
        }
        DataStep::RestorePeers => {
            for request in old_requests(conn, SELECT_REQUESTS_OF_PEERS)? {
                execute(conn, &restore_peer(&request))?;
            }
        }
        DataStep::AssignContacts => {
            let peers = pairs(conn, SELECT_CONTACTS_OF_PEERS)?;
            for file in old_files(conn, SELECT_FILES_OF_PEERS)? {
                let assigned = assign_contact(&file, &peers, &FylesId::new())
                    .expect("the id of a peer to be long enough");
                if let Some(contact) = assigned.contact {
                    execute(conn, &contact).ok();
                }
                execute(conn, &assigned.file)?;
            }
        }
        DataStep::RestoreSenders => {
            let contacts = pairs(conn, SELECT_PEERS_OF_CONTACTS)?;
            for file in old_files(conn, SELECT_FILES_OF_CONTACTS)? {
                execute(conn, &restore_sender(&file, &contacts))?;
            }
        }
    }
    Ok(())
}

trait Store {
    fn carry_out(&mut self, command: DbCommand) -> DbReply;
}

impl Store for Sqlite {
    fn carry_out(&mut self, command: DbCommand) -> DbReply {
        self.execute(&command)
    }
}

impl Store for MockDb {
    fn carry_out(&mut self, command: DbCommand) -> DbReply {
        match command {
            DbCommand::GetFilerequest(id) => Answer::Filerequest(self.get_filerequest(&id)),
            DbCommand::GetFilerequests => Answer::Filerequests(self.get_filerequests()),
            DbCommand::CreateFilerequest(filerequest) => {
                Answer::Id(self.create_filerequest(&filerequest))
            }
            DbCommand::UpdateFilerequest(filerequest) => {
                Answer::Unit(self.update_filerequest(&filerequest))
            }
            DbCommand::DeleteFilerequest(id) => Answer::Unit(self.delete_filerequest(&id)),
            DbCommand::GetContactName(id) => Answer::Text(self.get_contact_name(&id)),
            DbCommand::GetContactNames(ids) => Answer::Names(self.get_contact_names(&ids)),
            DbCommand::GetContact(id) => Answer::Contact(self.get_contact(&id)),
            DbCommand::GetContacts => Answer::DisplayContacts(self.get_contacts()),
            DbCommand::UpdateContact(contact) => Answer::Unit(self.update_contact(&contact)),
            DbCommand::DeleteContact(id) => Answer::Unit(self.delete_contact(&id)),
            DbCommand::GetContactPublicKeys(id) => {
                Answer::PublicKeys(self.get_contact_public_keys(id))
            }
            DbCommand::RegisterContact(contact) => Answer::Unit(self.register_contact(contact)),
            DbCommand::StoreNodeKeys(info) => Answer::Unit(self.store_node_keys(info)),
            DbCommand::GetNodeKeys => Answer::NodeInfo(self.get_node_keys()),
            DbCommand::GetRemoteFilerequest(id) => {
                Answer::RemoteFilerequest(self.get_remote_filerequest(&id))
            }
            DbCommand::GetRemoteFilerequestsByContact(id) => {
                Answer::RemoteFilerequests(self.get_remote_filerequests_by_contact(&id))
            }
            DbCommand::GetAllRemoteFilerequests => {
                Answer::RemoteFilerequests(self.get_all_remote_filerequests())
            }
            DbCommand::CreateRemoteFilerequest(request) => {
                Answer::Id(self.create_remote_filerequest(&request))
            }
            DbCommand::UpdateRemoteFilerequest { id, name } => {
                Answer::Unit(self.update_remote_filerequest(id, name))
            }
            DbCommand::DeleteRemoteFilerequest(id) => {
                Answer::Unit(self.delete_remote_filerequest(&id))
            }
            DbCommand::CreatePendingFiles(files) => {
                Answer::Ids(self.create_pending_files(&files))
            }
            DbCommand::GetPendingFile(id) => Answer::PendingFile(self.get_pending_file(&id)),
            DbCommand::GetPendingFiles(id) => Answer::PendingFiles(self.get_pending_files(&id)),
            DbCommand::GetAllPendingFiles => Answer::PendingFiles(self.get_all_pending_files()),
            DbCommand::UpdatePendingFileStatus {
                id,
                status,
                retry_count,
            } => Answer::Id(self.handle_update_pending_file_status(&id, &status, retry_count)),
            DbCommand::DeletePendingFile(id) => Answer::Unit(self.delete_pending_file(&id)),
            DbCommand::AddInterruptionReason { id, reason } => {
                Answer::Unit(self.add_interruption_reason(&id, reason))
            }
            DbCommand::CountNonTerminalPendingFilesForPath(id) => {
                Answer::Count(self.count_non_terminal_pending_files_for_path(&id))
            }
            DbCommand::CreateIncomingFile(file) => Answer::Id(self.create_incoming_file(&file)),
            DbCommand::UpdateReceivedFileStatus {
                transfer_id,
                status,
                progress_bytes,
            } => Answer::Unit(self.update_received_file_status(
                &transfer_id,
                &status,
                progress_bytes,
            )),
            DbCommand::GetReceivedFileByTransferId(id) => {
                Answer::ReceivedFile(self.get_received_file_by_transfer_id(&id))
            }
            DbCommand::CompleteReceivedFile(file) => {
                Answer::Id(self.complete_received_file(&file))
            }
            DbCommand::ListReceivedFiles(id) => {
                Answer::ReceivedFiles(self.list_received_files(&id))
            }
            DbCommand::DeleteReceivedFile(id) => Answer::Unit(self.delete_received_file(&id)),
            DbCommand::GetStaleReceivedFiles { older_than_ms } => {
                Answer::ReceivedFiles(self.get_stale_received_files(older_than_ms))
            }
            DbCommand::GetSelfContact => Answer::SelfContact(self.get_self_contact()),
            DbCommand::GetSelfContactForDisplay => {
                Answer::DisplayContact(self.get_self_contact_for_display())
            }
            DbCommand::UpdateSelfContactName(name) => {
                Answer::Unit(self.update_self_contact_name(name))
            }
            DbCommand::UpdateIdentity(contact) => Answer::Unit(self.update_identity(contact)),
            DbCommand::GetSharablePublicSelfContact => {
                Answer::Contact(self.get_sharable_public_self_contact())
            }
            DbCommand::GetSettings => Answer::Settings(self.get_settings()),
            DbCommand::StoreSettings(settings) => Answer::Unit(self.store_settings(settings)),
            DbCommand::BackupDatabase | DbCommand::RestoreDatabase => Answer::Unit(Ok(())),
        }
    }
}

type Outcome<T> = Result<T, DbError>;

fn unit(db: &mut dyn Store, command: DbCommand) -> Outcome<()> {
    match db.carry_out(command) {
        Answer::Unit(result) => result,
        other => panic!("unexpected {other:?}"),
    }
}

fn id(db: &mut dyn Store, command: DbCommand) -> Outcome<FylesId> {
    match db.carry_out(command) {
        Answer::Id(result) => result,
        other => panic!("unexpected {other:?}"),
    }
}

fn ids(db: &mut dyn Store, command: DbCommand) -> Outcome<Vec<FylesId>> {
    match db.carry_out(command) {
        Answer::Ids(result) => result,
        other => panic!("unexpected {other:?}"),
    }
}

fn get_filerequest(db: &mut dyn Store, id: &FylesId) -> Outcome<Filerequest> {
    match db.carry_out(DbCommand::GetFilerequest(id.clone())) {
        Answer::Filerequest(result) => result,
        other => panic!("unexpected {other:?}"),
    }
}

fn get_filerequests(db: &mut dyn Store) -> Outcome<Vec<Filerequest>> {
    match db.carry_out(DbCommand::GetFilerequests) {
        Answer::Filerequests(result) => result,
        other => panic!("unexpected {other:?}"),
    }
}

fn update_filerequest(db: &mut dyn Store, filerequest: &Filerequest) -> Outcome<()> {
    unit(db, DbCommand::UpdateFilerequest(filerequest.clone()))
}

fn register_contact(db: &mut dyn Store, contact: &Contact) -> Outcome<()> {
    unit(db, DbCommand::RegisterContact(contact.clone()))
}

fn get_pending_file(db: &mut dyn Store, id: &FylesId) -> Outcome<PendingFile> {
    match db.carry_out(DbCommand::GetPendingFile(id.clone())) {
        Answer::PendingFile(result) => result,
        other => panic!("unexpected {other:?}"),
    }
}

fn get_all_pending_files(db: &mut dyn Store) -> Outcome<Vec<PendingFile>> {
    match db.carry_out(DbCommand::GetAllPendingFiles) {
        Answer::PendingFiles(result) => result,
        other => panic!("unexpected {other:?}"),
    }
}

fn list_received_files(db: &mut dyn Store, id: &FylesId) -> Outcome<Vec<ReceivedFile>> {
    match db.carry_out(DbCommand::ListReceivedFiles(id.clone())) {
        Answer::ReceivedFiles(result) => result,
        other => panic!("unexpected {other:?}"),
    }
}

fn get_node_keys(db: &mut dyn Store) -> Outcome<NodeInfo> {
    match db.carry_out(DbCommand::GetNodeKeys) {
        Answer::NodeInfo(result) => result,
        other => panic!("unexpected {other:?}"),
    }
}

fn get_self_contact_for_display(db: &mut dyn Store) -> Outcome<DisplayContact> {
    match db.carry_out(DbCommand::GetSelfContactForDisplay) {
        Answer::DisplayContact(result) => result,
        other => panic!("unexpected {other:?}"),
    }
}

fn helper_register_contact(db: &mut dyn Store) -> Contact {
    let c = Contact::for_test();
    register_contact(db, &c).unwrap();
    c
}

fn helper_create_public_filerequest(db: &mut dyn Store, title: &str) -> (FylesId, Filerequest) {
    let id = id(
        db,
        DbCommand::CreateFilerequest(CreateFilerequest {
            title: title.into(),
            description: "Desc".into(),
            is_active: true,
            access: FilerequestAccess::Public,
        }),
    )
    .unwrap();
    let fr = get_filerequest(db, &id).unwrap();
    (id, fr)
}

fn helper_create_audience_filerequest(
    db: &mut dyn Store,
    title: &str,
    contact_ids: Vec<ContactId>,
) -> (FylesId, Filerequest) {
    let id = id(
        db,
        DbCommand::CreateFilerequest(CreateFilerequest {
            title: title.into(),
            description: "Desc".into(),
            is_active: true,
            access: FilerequestAccess::Audience { contact_ids },
        }),
    )
    .unwrap();
    let fr = get_filerequest(db, &id).unwrap();
    (id, fr)
}

fn check_filerequest_crud_and_access(db: &mut dyn Store) {
    // Audience path
    let c1 = helper_register_contact(db);
    let (aud_id, mut aud_fr) =
        helper_create_audience_filerequest(db, "Audience 1", vec![c1.id.clone()]);
    if let FilerequestAccess::Audience { contact_ids } = &aud_fr.access {
        assert_eq!(contact_ids, &vec![c1.id.clone()]);
    } else {
        panic!("Expected audience");
    }

    // Update (title + add member)
    let c2 = helper_register_contact(db);
    aud_fr.title = "Audience 1 Updated".into();
    aud_fr.access = FilerequestAccess::Audience {
        contact_ids: vec![c1.id.clone(), c2.id.clone()],
    };
    update_filerequest(db, &aud_fr).unwrap();
    let aud_fr = get_filerequest(db, &aud_id).unwrap();
    assert_eq!(aud_fr.title, "Audience 1 Updated");
    if let FilerequestAccess::Audience { contact_ids } = &aud_fr.access {
        assert_eq!(contact_ids.len(), 2);
    }

    // Switch to public
    let mut aud_fr_public = aud_fr.clone();
    aud_fr_public.access = FilerequestAccess::Public;
    update_filerequest(db, &aud_fr_public).unwrap();
    assert!(matches!(
        get_filerequest(db, &aud_id).unwrap().access,
        FilerequestAccess::Public
    ));

    // Public path -> later switched to audience
    let (pub_id, mut pub_fr) = helper_create_public_filerequest(db, "Public 1");
    let c3 = helper_register_contact(db);
    pub_fr.access = FilerequestAccess::Audience {
        contact_ids: vec![c3.id.clone()],
    };
    update_filerequest(db, &pub_fr).unwrap();
    match get_filerequest(db, &pub_id).unwrap().access {
        FilerequestAccess::Audience { contact_ids } => {
            assert_eq!(contact_ids, vec![c3.id.clone()]);
        }
        _ => panic!("Expected audience after update"),
    }

    // Second audience mutation: replace previous audience member with a new one (purge old)
    let c4 = helper_register_contact(db);
    let mut fr_second_change = get_filerequest(db, &pub_id).unwrap();
    fr_second_change.access = FilerequestAccess::Audience {
        contact_ids: vec![c4.id.clone()],
    };
    update_filerequest(db, &fr_second_change).unwrap();
    match get_filerequest(db, &pub_id).unwrap().access {
        FilerequestAccess::Audience { contact_ids } => {
            assert_eq!(
                contact_ids,
                vec![c4.id],
                "Old audience member should be purged"
            );
        }
        _ => panic!("Expected audience after second mutation"),
    }

    // List ensures both present and access types intact
    let list = get_filerequests(db).unwrap();
    assert_eq!(list.len(), 2);
    let audience_count = list
        .iter()
        .filter(|f| matches!(f.access, FilerequestAccess::Audience { .. }))
        .count();
    assert_eq!(audience_count, 1);

    // Delete one
    unit(db, DbCommand::DeleteFilerequest(aud_id.clone())).unwrap();
    assert!(get_filerequest(db, &aud_id).is_err());
}

fn check_filerequest_deletion(db: &mut dyn Store) {
    let contact = helper_register_contact(db);
    let fr_id = id(
        db,
        DbCommand::CreateFilerequest(CreateFilerequest {
            title: "Test Delete Request".to_string(),
            description: "Test Description".to_string(),
            is_active: true,
            access: FilerequestAccess::Audience {
                contact_ids: vec![contact.id.clone()],
            },
        }),
    )
    .unwrap();

    // Create some received files (simulate incoming transfer + completion)
    let transfer_id = FylesId::new();
    id(
        db,
        DbCommand::CreateIncomingFile(CreateIncomingFile {
            filerequest_id: fr_id.clone(),
            file_name: "test.txt".to_string(),
            file_size_bytes: 1234,
            transfer_id: transfer_id.clone(),
            contact_id: Some(contact.id.clone()),
            peer_id: "test-peer-id".to_string(),
            started_at_ms: 0,
        }),
    )
    .unwrap();
    id(
        db,
        DbCommand::CompleteReceivedFile(CompleteReceivedFile {
            transfer_id,
            file_path: "/tmp/test.txt".to_string(),
            received_at_ms: 12345,
        }),
    )
    .unwrap();

    let fr = get_filerequest(db, &fr_id).unwrap();
    assert_eq!(fr.title, "Test Delete Request");
    let received_files = list_received_files(db, &fr_id).unwrap();
    assert_eq!(received_files.len(), 1);

    unit(db, DbCommand::DeleteFilerequest(fr_id.clone())).unwrap();
    assert!(get_filerequest(db, &fr_id).is_err());
    let received_files = list_received_files(db, &fr_id).unwrap();
    assert_eq!(
        received_files.len(),
        0,
        "Received files should be deleted when filerequest is deleted"
    );
}

fn write_and_check(db: &mut dyn Store, bytes: Vec<u8>) {
    let node_info = NodeInfo::generate_random_bytes(bytes.clone());
    unit(db, DbCommand::StoreNodeKeys(node_info.clone())).unwrap();
    let got = get_node_keys(db).unwrap();
    assert_eq!(got.node_key_pair, bytes);
    assert_eq!(got, node_info);
}

fn check_node_keys_integrity(db: &mut dyn Store) {
    assert!(matches!(
        get_node_keys(db),
        Err(DbError::DataNotYetInitialized)
    ));

    // Pattern sizes
    for size in [32usize, 64usize] {
        let mut key = vec![0u8; size];
        for i in 0..size {
            key[i] = (i % 256) as u8;
        }
        write_and_check(db, key);
    }

    // Overwrite with inverse pattern
    let mut rev = vec![0u8; 64];
    for i in 0..64 {
        rev[i] = (255 - i as u16) as u8;
    }
    write_and_check(db, rev);

    // Random final overwrite
    let mut random = [0u8; 64];
    rand::thread_rng().fill_bytes(&mut random);
    write_and_check(db, random.to_vec());
}

fn file_info(path: &str, name: &str) -> FileInfo {
    FileInfo {
        path: path.into(),
        display_name: Some(name.into()),
    }
}

fn check_pending_files(db: &mut dyn Store) {
    // Negative first: invalid remote
    let bad = ids(
        db,
        DbCommand::CreatePendingFiles(CreatePendingFiles {
            file_infos: vec![file_info("/x", "x")],
            target_filerequest_id: FylesId::new(),
        }),
    );
    assert!(bad.is_err(), "Should fail for unknown remote filerequest");

    // Normal flow
    let contact = helper_register_contact(db);
    let remote_id = id(
        db,
        DbCommand::CreateRemoteFilerequest(CreateRemoteFilerequest {
            peer_id: PeerIdWrapper::for_test(),
            filerequest_id: "remote-fr-123".into(),
            name: "Remote Test Filerequest".into(),
            contact_id: contact.id.clone(),
        }),
    )
    .unwrap();

    let pending_ids = ids(
        db,
        DbCommand::CreatePendingFiles(CreatePendingFiles {
            file_infos: vec![file_info("/path/to/file.txt", "file.txt")],
            target_filerequest_id: remote_id.clone(),
        }),
    )
    .unwrap();
    let first = get_pending_file(db, &pending_ids[0]).unwrap();
    assert_eq!(first.status, SendStatus::Pending);

    id(
        db,
        DbCommand::UpdatePendingFileStatus {
            id: pending_ids[0].clone(),
            status: SendStatus::InProgress(InProgress {
                status: InProgressSendStatus::Sending,
                transfer_data: TransferData {
                    progress_bytes: 0,
                    file_size_bytes: 0,
                    transfer_id: Default::default(),
                },
            }),
            retry_count: Some(0),
        },
    )
    .unwrap();
    assert!(matches!(
        get_pending_file(db, &pending_ids[0]).unwrap().status,
        SendStatus::InProgress(_)
    ));

    // Additional pending
    ids(
        db,
        DbCommand::CreatePendingFiles(CreatePendingFiles {
            file_infos: vec![file_info("/path/to/another.txt", "another.txt")],
            target_filerequest_id: remote_id.clone(),
        }),
    )
    .unwrap();
    assert_eq!(get_all_pending_files(db).unwrap().len(), 2);

    // Cascade delete
    unit(db, DbCommand::DeleteRemoteFilerequest(remote_id)).unwrap();
    assert_eq!(get_all_pending_files(db).unwrap().len(), 0);
    assert!(get_pending_file(db, &pending_ids[0]).is_err());
}

fn receive_a_file(
    db: &mut dyn Store,
    contact: &Contact,
    size: u64,
    received_at_ms: i64,
) -> (FylesId, FylesId) {
    let filerequest_id = id(
        db,
        DbCommand::CreateFilerequest(CreateFilerequest {
            title: "Test Request".to_string(),
            description: "Test Description".to_string(),
            is_active: true,
            access: FilerequestAccess::Public,
        }),
    )
    .unwrap();
    let transfer_id = FylesId::new();
    id(
        db,
        DbCommand::CreateIncomingFile(CreateIncomingFile {
            contact_id: Some(contact.id.clone()),
            filerequest_id: filerequest_id.clone(),
            transfer_id: transfer_id.clone(),
            peer_id: "test-peer-id".to_string(),
            file_name: "test.txt".to_string(),
            file_size_bytes: size,
            started_at_ms: 0,
        }),
    )
    .unwrap();
    let file_id = id(
        db,
        DbCommand::CompleteReceivedFile(CompleteReceivedFile {
            transfer_id,
            file_path: "/tmp/test.txt".to_string(),
            received_at_ms,
        }),
    )
    .unwrap();
    (filerequest_id, file_id)
}

fn check_received_files(db: &mut dyn Store) {
    let contact = helper_register_contact(db);
    let now = unix_epoch_millis().unwrap();
    let (filerequest_id, file_id) = receive_a_file(db, &contact, 1234, now);
    let mut files = list_received_files(db, &filerequest_id).unwrap();
    assert_eq!(files.len(), 1);
    assert_eq!(files[0].id, file_id);
    assert_eq!(files[0].contact_id.take().unwrap(), contact.id);
    assert_eq!(files[0].file_size_bytes, 1234);
    assert_eq!(files[0].received_at_ms, Some(now));
    assert_eq!(files[0].status, ReceiveStatus::Completed);
}

fn check_delete_received_file(db: &mut dyn Store) {
    let contact = helper_register_contact(db);
    let (filerequest_id, file_id) = receive_a_file(db, &contact, 100, 12345);
    unit(db, DbCommand::DeleteReceivedFile(file_id)).unwrap();
    assert_eq!(list_received_files(db, &filerequest_id).unwrap().len(), 0);
}

fn check_delete_nonexistent_received_file(db: &mut dyn Store) {
    let result = unit(db, DbCommand::DeleteReceivedFile("nonexistent".into()));
    assert!(result.is_err());
}

fn check_contact_deletion_cascade(db: &mut dyn Store) {
    // Two contacts in audience
    let c1 = helper_register_contact(db);
    let c2 = helper_register_contact(db);
    let fr_id = id(
        db,
        DbCommand::CreateFilerequest(CreateFilerequest {
            title: "Cascade Test".into(),
            description: "Test".into(),
            is_active: true,
            access: FilerequestAccess::Audience {
                contact_ids: vec![c1.id.clone(), c2.id.clone()],
            },
        }),
    )
    .unwrap();
    match get_filerequest(db, &fr_id).unwrap().access {
        FilerequestAccess::Audience { contact_ids } => assert_eq!(contact_ids.len(), 2),
        _ => panic!("Expected audience"),
    }
    unit(db, DbCommand::DeleteContact(c1.id.clone())).unwrap();
    if let FilerequestAccess::Audience { contact_ids } = get_filerequest(db, &fr_id).unwrap().access
    {
        assert!(!contact_ids.contains(&c1.id));
        assert!(contact_ids.contains(&c2.id));
    }
    unit(db, DbCommand::DeleteContact(c2.id.clone())).unwrap();
    if let FilerequestAccess::Audience { contact_ids } = get_filerequest(db, &fr_id).unwrap().access
    {
        assert!(contact_ids.is_empty());
    }
    let phantom = Contact::for_test().id;
    let res = unit(db, DbCommand::DeleteContact(phantom));
    assert!(res.is_err(), "Expected error for deleting unknown contact");
}

fn check_update_nonexistent_filerequest(db: &mut dyn Store) {
    let phantom = Filerequest {
        id: FylesId::new(),
        title: "Does not exist".into(),
        description: "Ignored".into(),
        is_active: true,
        access: FilerequestAccess::Public,
    };
    let res = update_filerequest(db, &phantom);
    assert!(
        res.is_err(),
        "Updating non-existent filerequest should error"
    );
    let all = get_filerequests(db).unwrap();
    assert!(!all.iter().any(|f| f.id == phantom.id));
}

fn remote_filerequests_of(db: &mut dyn Store, id: &ContactId) -> Vec<RemoteFilerequest> {
    match db.carry_out(DbCommand::GetRemoteFilerequestsByContact(id.clone())) {
        Answer::RemoteFilerequests(result) => result.unwrap(),
        other => panic!("unexpected {other:?}"),
    }
}

fn check_remote_filerequests_unknown_contact_query(db: &mut dyn Store) {
    let contact = helper_register_contact(db);
    let remote_id = id(
        db,
        DbCommand::CreateRemoteFilerequest(CreateRemoteFilerequest {
            peer_id: PeerIdWrapper::for_test(),
            filerequest_id: "remote-1".into(),
            name: "Remote".into(),
            contact_id: contact.id.clone(),
        }),
    )
    .unwrap();
    let list = remote_filerequests_of(db, &contact.id);
    assert_eq!(list.len(), 1);
    assert_eq!(list[0].id, remote_id);
    let unknown = Contact::for_test().id;
    assert!(remote_filerequests_of(db, &unknown).is_empty());
}

fn check_contact_public_keys(db: &mut dyn Store) {
    let contact = helper_register_contact(db);
    let unknown = Contact::for_test().id;
    match db.carry_out(DbCommand::GetContactPublicKeys(contact.id.clone())) {
        Answer::PublicKeys(keys) => assert_eq!(
            keys.expect("query ok"),
            Some(contact.public_keys),
            "Expected Some(public keys) for known contact"
        ),
        other => panic!("unexpected {other:?}"),
    }
    match db.carry_out(DbCommand::GetContactPublicKeys(unknown)) {
        Answer::PublicKeys(keys) => assert!(
            keys.expect("query ok for unknown").is_none(),
            "Expected None for unknown contact id"
        ),
        other => panic!("unexpected {other:?}"),
    }
}

fn check_db_initialization(db: &mut dyn Store) {
    assert!(matches!(
        get_node_keys(db),
        Err(DbError::DataNotYetInitialized)
    ));
    assert!(matches!(
        db.carry_out(DbCommand::GetSelfContact),
        Answer::SelfContact(Err(_))
    ));
    assert!(get_self_contact_for_display(db).is_err());
    assert!(matches!(
        db.carry_out(DbCommand::GetSharablePublicSelfContact),
        Answer::Contact(Err(_))
    ));

    // Store node keys (seeds self_contact in both backends)
    let node_info = NodeInfo::generate_random_bytes(vec![1, 2, 3, 4, 5, 6, 7, 8]);
    unit(db, DbCommand::StoreNodeKeys(node_info.clone())).unwrap();
    let got_keys = get_node_keys(db).unwrap();
    assert_eq!(got_keys.node_key_pair, node_info.node_key_pair);

    // Self contact retrievals
    let sc = match db.carry_out(DbCommand::GetSelfContact) {
        Answer::SelfContact(result) => result.unwrap(),
        other => panic!("unexpected {other:?}"),
    };
    assert_eq!(sc.id, node_info.self_contact_id);
    let sc_disp = get_self_contact_for_display(db).unwrap();
    assert_eq!(sc_disp.id, sc.id);
    let public_sc = match db.carry_out(DbCommand::GetSharablePublicSelfContact) {
        Answer::Contact(result) => result.unwrap(),
        other => panic!("unexpected {other:?}"),
    };
    assert_eq!(public_sc.id, sc.id);
    assert_eq!(public_sc.public_keys.ed25519, sc.keys.public.ed25519);

    // Update name
    unit(db, DbCommand::UpdateSelfContactName("Renamed".into())).unwrap();
    let sc_disp2 = get_self_contact_for_display(db).unwrap();
    assert_eq!(sc_disp2.name, "Renamed");

    // Identity update (reuse keys, change name again)
    let mut new_sc = sc.clone();
    new_sc.name = "RenamedAgain".into();
    unit(db, DbCommand::UpdateIdentity(new_sc)).unwrap();
    let sc_disp3 = get_self_contact_for_display(db).unwrap();
    assert_eq!(sc_disp3.name, "RenamedAgain");
}

fn remote_request(db: &mut dyn Store) -> FylesId {
    let contact = helper_register_contact(db);
    id(
        db,
        DbCommand::CreateRemoteFilerequest(CreateRemoteFilerequest {
            peer_id: PeerIdWrapper::for_test(),
            filerequest_id: "remote".into(),
            name: "Remote".into(),
            contact_id: contact.id,
        }),
    )
    .unwrap()
}

fn sending(progress_bytes: u64) -> SendStatus {
    SendStatus::InProgress(InProgress {
        status: InProgressSendStatus::Sending,
        transfer_data: TransferData {
            progress_bytes,
            file_size_bytes: 100,
            transfer_id: "transfer".into(),
        },
    })
}

/// The reasons are kept in order, and the status with its columns.
fn check_sending_a_file(db: &mut dyn Store) {
    let remote = remote_request(db);
    let files = ids(
        db,
        DbCommand::CreatePendingFiles(CreatePendingFiles {
            file_infos: vec![file_info("/a", "a"), file_info("/a", "b")],
            target_filerequest_id: remote.clone(),
        }),
    )
    .unwrap();
    for reason in ["lost \"it\"", "again"] {
        unit(
            db,
            DbCommand::AddInterruptionReason {
                id: files[0].clone(),
                reason: reason.into(),
            },
        )
        .unwrap();
    }
    let target = id(
        db,
        DbCommand::UpdatePendingFileStatus {
            id: files[0].clone(),
            status: sending(40),
            retry_count: Some(3),
        },
    )
    .unwrap();
    assert_eq!(target, remote);
    let file = get_pending_file(db, &files[0]).unwrap();
    assert_eq!(file.status, sending(40));
    assert_eq!(file.retry_count, 3);
    assert_eq!(file.interruption_reasons, vec!["lost \"it\"", "again"]);
    id(
        db,
        DbCommand::UpdatePendingFileStatus {
            id: files[0].clone(),
            status: sending(60),
            retry_count: None,
        },
    )
    .unwrap();
    let file = get_pending_file(db, &files[0]).unwrap();
    assert_eq!(file.status, sending(60));
    assert_eq!(file.retry_count, 3);
    let count = |db: &mut dyn Store, id: &FylesId| {
        match db.carry_out(DbCommand::CountNonTerminalPendingFilesForPath(id.clone())) {
            Answer::Count(result) => result.unwrap(),
            other => panic!("unexpected {other:?}"),
        }
    };
    assert_eq!(count(db, &files[1]), 1);
    id(
        db,
        DbCommand::UpdatePendingFileStatus {
            id: files[0].clone(),
            status: SendStatus::Sent,
            retry_count: None,
        },
    )
    .unwrap();
    assert_eq!(get_pending_file(db, &files[0]).unwrap().status, SendStatus::Sent);
    assert_eq!(count(db, &files[1]), 0);
}

#[test]
fn sqlite_test_filerequest_crud_and_access() {
    check_filerequest_crud_and_access(&mut Sqlite::in_memory());
}

#[test]
fn db_test_filerequest_crud_and_access() {
    check_filerequest_crud_and_access(&mut MockDb::new());
}

#[test]
fn sqlite_test_filerequest_deletion() {
    check_filerequest_deletion(&mut Sqlite::in_memory());
}

#[test]
fn db_test_filerequest_deletion() {
    check_filerequest_deletion(&mut MockDb::new());
}

#[test]
fn sqlite_test_node_keys_integrity() {
    check_node_keys_integrity(&mut Sqlite::in_memory());
}

#[test]
fn db_test_node_keys_integrity() {
    check_node_keys_integrity(&mut MockDb::new());
}

#[test]
fn sqlite_test_pending_files() {
    check_pending_files(&mut Sqlite::in_memory());
}

#[test]
fn db_test_pending_files() {
    check_pending_files(&mut MockDb::new());
}

#[test]
fn sqlite_test_received_files() {
    check_received_files(&mut Sqlite::in_memory());
}

#[test]
fn db_test_received_files() {
    check_received_files(&mut MockDb::new());
}

#[test]
fn sqlite_test_delete_received_file() {
    check_delete_received_file(&mut Sqlite::in_memory());
}

#[test]
fn db_test_delete_received_file() {
    check_delete_received_file(&mut MockDb::new());
}

#[test]
fn sqlite_test_delete_nonexistent_received_file() {
    check_delete_nonexistent_received_file(&mut Sqlite::in_memory());
}

#[test]
fn db_test_delete_nonexistent_received_file() {
    check_delete_nonexistent_received_file(&mut MockDb::new());
}

#[test]
fn sqlite_test_contact_deletion_cascade() {
    check_contact_deletion_cascade(&mut Sqlite::in_memory());
}

#[test]
fn db_test_contact_deletion_cascade() {
    check_contact_deletion_cascade(&mut MockDb::new());
}

#[test]
fn sqlite_test_update_nonexistent_filerequest() {
    check_update_nonexistent_filerequest(&mut Sqlite::in_memory());
}

#[test]
fn db_test_update_nonexistent_filerequest() {
    check_update_nonexistent_filerequest(&mut MockDb::new());
}

#[test]
fn sqlite_test_remote_filerequests_unknown_contact_query() {
    check_remote_filerequests_unknown_contact_query(&mut Sqlite::in_memory());
}

#[test]
fn db_test_remote_filerequests_unknown_contact_query() {
    check_remote_filerequests_unknown_contact_query(&mut MockDb::new());
}

#[test]
fn sqlite_test_contact_public_keys() {
    check_contact_public_keys(&mut Sqlite::in_memory());
}

#[test]
fn db_test_contact_public_keys() {
    check_contact_public_keys(&mut MockDb::new());
}

#[test]
fn sqlite_test_db_initialization() {
    check_db_initialization(&mut Sqlite::in_memory());
}

#[test]
fn db_test_db_initialization() {
    check_db_initialization(&mut MockDb::new());
}

#[test]
fn sqlite_keeps_what_is_told_of_a_file_to_send() {
    check_sending_a_file(&mut Sqlite::in_memory());
}

#[test]
fn mock_keeps_what_is_told_of_a_file_to_send() {
    check_sending_a_file(&mut MockDb::new());
}

#[test]
fn sqlite_refuses_statuses_that_are_not_stored() {
    let mut db = Sqlite::in_memory();
    let prepared = SendStatus::InProgress(InProgress {
        status: InProgressSendStatus::Prepared,
        transfer_data: TransferData {
            progress_bytes: 0,
            file_size_bytes: 0,
            transfer_id: "t".into(),
        },
    });
    let error = id(
        &mut db,
        DbCommand::UpdatePendingFileStatus {
            id: "f".into(),
            status: prepared,
            retry_count: None,
        },
    )
    .unwrap_err();
    assert_eq!(
        error.to_text(),
        "Data conversion error: Failed to convert status to tag: Prepared is an ephemeral status \
         and must not be persisted"
    );
    let error = unit(
        &mut db,
        DbCommand::UpdateReceivedFileStatus {
            transfer_id: "t".into(),
            status: ReceiveStatus::Unknown("Odd".into()),
            progress_bytes: 0,
        },
    )
    .unwrap_err();
    assert!(matches!(error, DbError::DataConversion { .. }));
}

#[test]
fn sqlite_tells_what_was_being_done() {
    let mut db = Sqlite::in_memory();
    let error = get_filerequest(&mut db, &"nope".into()).unwrap_err();
    assert_eq!(
        error.to_text(),
        "Database operation error: Read operation on table filerequests: Retrieve filerequest \
         with ID nope - Query returned no rows"
    );
    match db.carry_out(DbCommand::GetContactName("c".into())) {
        Answer::Text(Err(e)) => assert_eq!(
            e.to_text(),
            "Record not found: The contact with id c could not be found"
        ),
        other => panic!("unexpected {other:?}"),
    }
    let error = unit(&mut db, DbCommand::DeleteReceivedFile("r".into())).unwrap_err();
    assert_eq!(
        error.to_text(),
        "Record not found: Received file with id r not found"
    );
    let error = unit(
        &mut db,
        DbCommand::UpdateReceivedFileStatus {
            transfer_id: "t".into(),
            status: ReceiveStatus::Receiving,
            progress_bytes: 1,
        },
    )
    .unwrap_err();
    assert_eq!(
        error.to_text(),
        "Record not found: Received file with transfer_id t not found"
    );
}

#[test]
fn sqlite_finds_names_settings_and_stale_files() {
    let mut db = Sqlite::in_memory();
    let a = helper_register_contact(&mut db);
    let b = helper_register_contact(&mut db);
    match db.carry_out(DbCommand::GetContactNames(vec![
        a.id.clone(),
        "unknown".into(),
        b.id.clone(),
    ])) {
        Answer::Names(Ok(names)) => assert_eq!(names.len(), 2),
        other => panic!("unexpected {other:?}"),
    }
    match db.carry_out(DbCommand::GetContactNames(vec![])) {
        Answer::Names(Ok(names)) => assert!(names.is_empty()),
        other => panic!("unexpected {other:?}"),
    }
    match db.carry_out(DbCommand::GetContact(a.id.clone())) {
        Answer::Contact(Ok(contact)) => assert_eq!(contact.public_keys, a.public_keys),
        other => panic!("unexpected {other:?}"),
    }
    match db.carry_out(DbCommand::GetSettings) {
        Answer::Settings(Ok(settings)) => assert!(settings.is_empty()),
        other => panic!("unexpected {other:?}"),
    }
    unit(&mut db, DbCommand::StoreSettings(vec![1, 2])).unwrap();
    unit(&mut db, DbCommand::StoreSettings(vec![3])).unwrap();
    match db.carry_out(DbCommand::GetSettings) {
        Answer::Settings(Ok(settings)) => assert_eq!(settings, vec![3]),
        other => panic!("unexpected {other:?}"),
    }
    let (request, _) = receive_a_file(&mut db, &a, 5, 6);
    for (transfer, started_at_ms) in [("old", 10), ("new", 20)] {
        id(
            &mut db,
            DbCommand::CreateIncomingFile(CreateIncomingFile {
                contact_id: None,
                filerequest_id: request.clone(),
                transfer_id: transfer.into(),
                peer_id: "p".to_string(),
                file_name: "f".to_string(),
                file_size_bytes: u64::MAX,
                started_at_ms,
            }),
        )
        .unwrap();
    }
    match db.carry_out(DbCommand::GetStaleReceivedFiles { older_than_ms: 20 }) {
        Answer::ReceivedFiles(Ok(files)) => {
            assert_eq!(files.len(), 1);
            assert_eq!(files[0].transfer_id, Some("old".into()));
            assert_eq!(files[0].file_size_bytes, u64::MAX);
            assert_eq!(files[0].contact_id, None);
        }
        other => panic!("unexpected {other:?}"),
    }
}

/// The tables as the first version had them.
const FIRST_TABLES: &str = "
    CREATE TABLE schema_version (version TEXT NOT NULL);
    INSERT INTO schema_version (version) VALUES ('1.0.0');
    CREATE TABLE filerequests (
        id TEXT PRIMARY KEY,
        title TEXT NOT NULL,
        description TEXT,
        created_at TEXT NOT NULL,
        updated_at TEXT NOT NULL,
        status TEXT CHECK (status IN ('active', 'paused')) NOT NULL DEFAULT 'active',
        access_type TEXT NOT NULL
    );
    CREATE TABLE contacts (
        id TEXT PRIMARY KEY,
        name TEXT NOT NULL,
        created_at TEXT NOT NULL,
        updated_at TEXT NOT NULL
    );
    CREATE TABLE peers (
        id TEXT NOT NULL,
        peer_id TEXT NOT NULL,
        contact_id TEXT NOT NULL,
        multiaddr TEXT NOT NULL,
        is_active BOOLEAN NOT NULL,
        created_at TEXT NOT NULL,
        updated_at TEXT NOT NULL,
        PRIMARY KEY (id, contact_id),
        FOREIGN KEY (contact_id) REFERENCES contacts(id) ON DELETE CASCADE
    );
    CREATE TABLE filerequest_audience (
        filerequest_id TEXT NOT NULL,
        peer_id TEXT NOT NULL,
        created_at TEXT NOT NULL,
        PRIMARY KEY (filerequest_id, peer_id)
    );
    CREATE TABLE node_keys (id INTEGER PRIMARY KEY CHECK (id = 1), key_bytes BLOB NOT NULL);
    CREATE TABLE remote_filerequests (
        id TEXT PRIMARY KEY,
        peer_id TEXT NOT NULL,
        filerequest_id TEXT NOT NULL,
        created_at TEXT NOT NULL
    );
    CREATE TABLE pending_files (
        id TEXT PRIMARY KEY,
        file_path TEXT NOT NULL,
        target_filerequest_id TEXT NOT NULL,
        status TEXT CHECK (status IN ('Pending', 'Sending', 'Sent', 'Rejected', 'Failed'))
            NOT NULL DEFAULT 'Pending',
        created_at TEXT NOT NULL,
        FOREIGN KEY(target_filerequest_id) REFERENCES remote_filerequests(id)
    );";

#[test]
fn databases_of_the_first_version_are_brought_to_the_current_one() {
    let mut conn = Connection::open_in_memory().unwrap();
    conn.execute_batch("PRAGMA foreign_keys = OFF").unwrap();
    conn.execute_batch(FIRST_TABLES).unwrap();
    conn.execute(
        "INSERT INTO filerequests VALUES ('fr', 'Title', 'D', 'now', 'now', 'active', 'public')",
        [],
    )
    .unwrap();
    conn.execute(
        "INSERT INTO remote_filerequests VALUES ('r', '12D3KooWpeer', 'theirs', 'now')",
        [],
    )
    .unwrap();
    run_migrations(&mut conn).unwrap();
    let version: String = conn
        .query_row("SELECT version FROM schema_version", [], |row| row.get(0))
        .unwrap();
    assert_eq!(version, "1.19.1");
    let name: String = conn
        .query_row("SELECT name FROM contacts", [], |row| row.get(0))
        .unwrap();
    assert_eq!(name, "Auto-created for peer 12D3KooW");
    let mut db = Sqlite { conn };
    let fr = get_filerequest(&mut db, &"fr".into()).unwrap();
    assert_eq!(fr.title, "Title");
    assert!(fr.is_active);
    assert!(matches!(fr.access, FilerequestAccess::Public));
    check_sending_a_file(&mut db);
}
