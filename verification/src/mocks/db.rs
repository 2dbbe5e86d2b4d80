//! The store, held in memory.
use vstd::prelude::*;

use crate::crypto::ContactPublicKeys;
use crate::db::{missing, DatabaseResult, DbError, NodeInfo, OperationType};
use crate::domain_models::{
    CompleteReceivedFile, Contact, ContactId, CreateFilerequest,
    CreateIncomingFile, CreatePendingFiles, CreateRemoteFilerequest, DisplayContact, Filerequest,
    FilerequestAccess, FylesId, PendingFile, ReceiveStatus, ReceivedFile, RemoteFilerequest,
    SelfContact, SendStatus,
};
use crate::mocks::table::{Row, RowFilter, RowUpdate, Table};

verus! {

impl Row for Filerequest {
    open spec fn key_of(row: crate::domain_models::FilerequestView) -> Seq<char> {
        row.id
    }

    fn has_key(&self, key: &String) -> (r: bool) {
        self.id.0 == *key
    }

    fn same_key(&self, other: &Self) -> (r: bool) {
        self.id.same(&other.id)
    }

    fn copy_row(&self) -> (r: Self) {
        self.clone()
    }
}

impl Row for Contact {
    open spec fn key_of(row: crate::domain_models::ContactView) -> Seq<char> {
        row.id
    }

    fn has_key(&self, key: &String) -> (r: bool) {
        self.id.0 == *key
    }

    fn same_key(&self, other: &Self) -> (r: bool) {
        self.id.same(&other.id)
    }

    fn copy_row(&self) -> (r: Self) {
        self.clone()
    }
}

impl Row for RemoteFilerequest {
    open spec fn key_of(row: crate::domain_models::RemoteFilerequestView) -> Seq<char> {
        row.id
    }

    fn has_key(&self, key: &String) -> (r: bool) {
        self.id.0 == *key
    }

    fn same_key(&self, other: &Self) -> (r: bool) {
        self.id.same(&other.id)
    }

    fn copy_row(&self) -> (r: Self) {
        self.clone()
    }
}

impl Row for PendingFile {
    open spec fn key_of(row: crate::domain_models::PendingFileView) -> Seq<char> {
        row.id
    }

    fn has_key(&self, key: &String) -> (r: bool) {
        self.id.0 == *key
    }

    fn same_key(&self, other: &Self) -> (r: bool) {
        self.id.same(&other.id)
    }

    fn copy_row(&self) -> (r: Self) {
        self.clone()
    }
}

impl Row for ReceivedFile {
    open spec fn key_of(row: crate::domain_models::ReceivedFileView) -> Seq<char> {
        row.id
    }

    fn has_key(&self, key: &String) -> (r: bool) {
        self.id.0 == *key
    }

    fn same_key(&self, other: &Self) -> (r: bool) {
        self.id.same(&other.id)
    }

    fn copy_row(&self) -> (r: Self) {
        self.clone()
    }
}

/// The entries of a table whose record satisfies `keeps`.
pub open spec fn filtered<V>(table: Map<Seq<char>, V>, keeps: spec_fn(V) -> bool) -> Map<
    Seq<char>,
    V,
> {
    Map::new(|k: Seq<char>| table.contains_key(k) && keeps(table[k]), |k: Seq<char>| table[k])
}

/// A pending file with another status, and another number of retries where one is given.
pub open spec fn with_send_status(
    row: crate::domain_models::PendingFileView,
    status: crate::domain_models::SendStatusView,
    retry_count: Option<usize>,
) -> crate::domain_models::PendingFileView {
    crate::domain_models::PendingFileView {
        status,
        retry_count: match retry_count {
            Some(retry_count) => retry_count,
            None => row.retry_count,
        },
        ..row
    }
}

/// A received file once its transfer is complete.
pub open spec fn completed(
    row: crate::domain_models::ReceivedFileView,
    file_path: Seq<char>,
    received_at_ms: i64,
) -> crate::domain_models::ReceivedFileView {
    crate::domain_models::ReceivedFileView {
        file_path: Some(file_path),
        received_at_ms: Some(received_at_ms),
        status: crate::domain_models::ReceiveStatusView::Completed,
        progress_bytes: row.file_size_bytes,
        ..row
    }
}

/// What is not the given contact.
pub open spec fn is_other(contact_id: Seq<char>) -> spec_fn(Seq<char>) -> bool {
    |id: Seq<char>| id != contact_id
}

/// A file request that a contact no longer belongs to the audience of.
pub open spec fn without_contact(
    row: crate::domain_models::FilerequestView,
    contact_id: Seq<char>,
) -> crate::domain_models::FilerequestView {
    crate::domain_models::FilerequestView {
        access: match row.access {
            crate::domain_models::AccessView::Public => crate::domain_models::AccessView::Public,
            crate::domain_models::AccessView::Audience { contact_ids } =>
                crate::domain_models::AccessView::Audience {
                contact_ids: contact_ids.filter(is_other(contact_id)),
            },
        },
        ..row
    }
}

/// The contacts other than `id`, in order.
fn other_contacts(ids: &Vec<ContactId>, id: &ContactId) -> (r: Vec<ContactId>)
    ensures
        crate::domain_models::views(r@) == crate::domain_models::views(ids@).filter(is_other(id@)),
{
    let ghost keeps = is_other(id@);
    let mut r: Vec<ContactId> = Vec::new();
    let mut i: usize = 0;
    proof {
        reveal(Seq::filter);
    }
    while i < ids.len()
        invariant
            i <= ids.len(),
            keeps == is_other(id@),
            crate::domain_models::views(r@) == crate::domain_models::views(ids@).take(
                i as int,
            ).filter(keeps),
        decreases ids.len() - i,
    {
        proof {
            let all = crate::domain_models::views(ids@);
            assert(all.take(i + 1).drop_last() =~= all.take(i as int));
            assert(all.take(i + 1).last() == ids@[i as int]@);
            reveal(Seq::filter);
        }
        if !ids[i].same(id) {
            let ghost before = r@;
            r.push(ids[i].clone());
            assert(crate::domain_models::views(r@) =~= crate::domain_models::views(before).push(
                ids@[i as int]@,
            ));
        }
        i = i + 1;
    }
    assert(crate::domain_models::views(ids@).take(i as int) =~= crate::domain_models::views(ids@));
    r
}

/// Received files of other file requests.
struct NotReceivedFor {
    id: FylesId,
}

impl RowFilter<ReceivedFile> for NotReceivedFor {
    closed spec fn keeps(&self, row: crate::domain_models::ReceivedFileView) -> bool {
        row.filerequest_id != self.id@
    }

    fn keep(&self, row: &ReceivedFile) -> (r: bool) {
        !row.filerequest_id.same(&self.id)
    }
}

/// Received files of a file request.
struct ReceivedFor {
    id: FylesId,
}

impl RowFilter<ReceivedFile> for ReceivedFor {
    closed spec fn keeps(&self, row: crate::domain_models::ReceivedFileView) -> bool {
        row.filerequest_id == self.id@
    }

    fn keep(&self, row: &ReceivedFile) -> (r: bool) {
        row.filerequest_id.same(&self.id)
    }
}

/// Pending files for other file requests.
struct NotPendingFor {
    id: FylesId,
}

impl RowFilter<PendingFile> for NotPendingFor {
    closed spec fn keeps(&self, row: crate::domain_models::PendingFileView) -> bool {
        row.target_filerequest_id != self.id@
    }

    fn keep(&self, row: &PendingFile) -> (r: bool) {
        !row.target_filerequest_id.same(&self.id)
    }
}

/// Pending files for a file request.
struct PendingFor {
    id: FylesId,
}

impl RowFilter<PendingFile> for PendingFor {
    closed spec fn keeps(&self, row: crate::domain_models::PendingFileView) -> bool {
        row.target_filerequest_id == self.id@
    }

    fn keep(&self, row: &PendingFile) -> (r: bool) {
        row.target_filerequest_id.same(&self.id)
    }
}

/// File requests of a contact.
struct RequestedBy {
    id: ContactId,
}

impl RowFilter<RemoteFilerequest> for RequestedBy {
    closed spec fn keeps(&self, row: crate::domain_models::RemoteFilerequestView) -> bool {
        row.contact_id == self.id@
    }

    fn keep(&self, row: &RemoteFilerequest) -> (r: bool) {
        row.contact_id.same(&self.id)
    }
}

/// The received file of a transfer.
struct InTransfer {
    id: FylesId,
}

impl RowFilter<ReceivedFile> for InTransfer {
    closed spec fn keeps(&self, row: crate::domain_models::ReceivedFileView) -> bool {
        row.transfer_id == Some(self.id@)
    }

    fn keep(&self, row: &ReceivedFile) -> (r: bool) {
        match &row.transfer_id {
            Some(id) => id.same(&self.id),
            None => false,
        }
    }
}

/// Unfinished transfers that began before a point in time.
struct Stale {
    older_than_ms: i64,
}

impl RowFilter<ReceivedFile> for Stale {
    closed spec fn keeps(&self, row: crate::domain_models::ReceivedFileView) -> bool {
        row.status.is_unfinished() && row.started_at_ms < self.older_than_ms
    }

    fn keep(&self, row: &ReceivedFile) -> (r: bool) {
        row.status.is_unfinished() && row.started_at_ms < self.older_than_ms
    }
}

/// Other files to send from the same path.
struct OthersToSend {
    id: FylesId,
    path: String,
}

impl RowFilter<PendingFile> for OthersToSend {
    closed spec fn keeps(&self, row: crate::domain_models::PendingFileView) -> bool {
        row.id != self.id@ && row.file_path == self.path@ && row.status.is_unfinished()
    }

    fn keep(&self, row: &PendingFile) -> (r: bool) {
        !row.id.same(&self.id) && row.file_path == self.path && row.status.is_unfinished()
    }
}

/// Changes the name of a peer's file request.
struct RenameRemote {
    name: String,
}

impl RowUpdate<RemoteFilerequest> for RenameRemote {
    closed spec fn updated(
        &self,
        row: crate::domain_models::RemoteFilerequestView,
    ) -> crate::domain_models::RemoteFilerequestView {
        crate::domain_models::RemoteFilerequestView { name: self.name@, ..row }
    }

    fn update(&self, row: &mut RemoteFilerequest) {
        row.name = self.name.clone();
    }
}

/// Changes the name of a contact.
struct RenameContact {
    name: String,
}

impl RowUpdate<Contact> for RenameContact {
    closed spec fn updated(
        &self,
        row: crate::domain_models::ContactView,
    ) -> crate::domain_models::ContactView {
        crate::domain_models::ContactView { name: self.name@, ..row }
    }

    fn update(&self, row: &mut Contact) {
        row.name = self.name.clone();
    }
}

/// Changes the status of a pending file.
struct SetSendStatus {
    status: SendStatus,
    retry_count: Option<usize>,
}

impl RowUpdate<PendingFile> for SetSendStatus {
    closed spec fn updated(
        &self,
        row: crate::domain_models::PendingFileView,
    ) -> crate::domain_models::PendingFileView {
        with_send_status(row, self.status@, self.retry_count)
    }

    fn update(&self, row: &mut PendingFile) {
        row.status = self.status.clone();
        match self.retry_count {
            Some(retry_count) => {
                row.retry_count = retry_count;
            },
            None => {},
        }
    }
}

/// Notes why a pending file was interrupted.
struct AddReason {
    reason: String,
}

impl RowUpdate<PendingFile> for AddReason {
    closed spec fn updated(
        &self,
        row: crate::domain_models::PendingFileView,
    ) -> crate::domain_models::PendingFileView {
        crate::domain_models::PendingFileView {
            interruption_reasons: row.interruption_reasons.push(self.reason@),
            ..row
        }
    }

    fn update(&self, row: &mut PendingFile) {
        let ghost before = row.interruption_reasons@;
        row.interruption_reasons.push(self.reason.clone());
        assert(crate::domain_models::views(row.interruption_reasons@)
            =~= crate::domain_models::views(before).push(self.reason@));
    }
}

/// Changes the status of a received file.
struct SetReceiveStatus {
    status: ReceiveStatus,
    progress_bytes: u64,
}

impl RowUpdate<ReceivedFile> for SetReceiveStatus {
    closed spec fn updated(
        &self,
        row: crate::domain_models::ReceivedFileView,
    ) -> crate::domain_models::ReceivedFileView {
        crate::domain_models::ReceivedFileView {
            status: self.status@,
            progress_bytes: self.progress_bytes,
            ..row
        }
    }

    fn update(&self, row: &mut ReceivedFile) {
        row.status = self.status.clone();
        row.progress_bytes = self.progress_bytes;
    }
}

/// Completes a received file.
struct Complete {
    file_path: String,
    received_at_ms: i64,
}

impl RowUpdate<ReceivedFile> for Complete {
    closed spec fn updated(
        &self,
        row: crate::domain_models::ReceivedFileView,
    ) -> crate::domain_models::ReceivedFileView {
        completed(row, self.file_path@, self.received_at_ms)
    }

    fn update(&self, row: &mut ReceivedFile) {
        row.file_path = Some(self.file_path.clone());
        row.received_at_ms = Some(self.received_at_ms);
        row.status = ReceiveStatus::Completed;
        row.progress_bytes = row.file_size_bytes;
    }
}

/// Removes a contact from the audience of a file request.
struct Uninvite {
    id: ContactId,
}

impl RowUpdate<Filerequest> for Uninvite {
    closed spec fn updated(
        &self,
        row: crate::domain_models::FilerequestView,
    ) -> crate::domain_models::FilerequestView {
        without_contact(row, self.id@)
    }

    fn update(&self, row: &mut Filerequest) {
        match &row.access {
            FilerequestAccess::Public => {},
            FilerequestAccess::Audience { contact_ids } => {
                let rest = other_contacts(contact_ids, &self.id);
                row.access = FilerequestAccess::Audience { contact_ids: rest };
            },
        }
    }
}

/// What the store holds.
pub ghost struct StoreView {
    pub filerequests: Map<Seq<char>, crate::domain_models::FilerequestView>,
    pub contacts: Map<Seq<char>, crate::domain_models::ContactView>,
    pub node_keys: Option<crate::db::NodeInfoView>,
    pub remote_filerequests: Map<Seq<char>, crate::domain_models::RemoteFilerequestView>,
    pub pending_files: Map<Seq<char>, crate::domain_models::PendingFileView>,
    pub received_files: Map<Seq<char>, crate::domain_models::ReceivedFileView>,
    pub self_contact: Option<crate::domain_models::SelfContactView>,
}

impl StoreView {
    pub open spec fn empty() -> StoreView {
        StoreView {
            filerequests: Map::empty(),
            contacts: Map::empty(),
            node_keys: None,
            remote_filerequests: Map::empty(),
            pending_files: Map::empty(),
            received_files: Map::empty(),
            self_contact: None,
        }
    }

    /// The store without a file request, the files received for it and the files that are to be
    /// sent to it.
    pub open spec fn without_filerequest(self, id: Seq<char>) -> StoreView {
        StoreView {
            filerequests: self.filerequests.remove(id),
            received_files: filtered(
                self.received_files,
                |file: crate::domain_models::ReceivedFileView| file.filerequest_id != id,
            ),
            pending_files: filtered(
                self.pending_files,
                |file: crate::domain_models::PendingFileView| file.target_filerequest_id != id,
            ),
            ..self
        }
    }

    /// The store without a peer's file request and the files that are to be sent to it.
    pub open spec fn without_remote_filerequest(self, id: Seq<char>) -> StoreView {
        if self.remote_filerequests.contains_key(id) {
            StoreView {
                remote_filerequests: self.remote_filerequests.remove(id),
                pending_files: filtered(
                    self.pending_files,
                    |file: crate::domain_models::PendingFileView| file.target_filerequest_id != id,
                ),
                ..self
            }
        } else {
            self
        }
    }

    /// The store without a contact, which no longer belongs to any audience either.
    pub open spec fn without_contact(self, id: Seq<char>) -> StoreView {
        StoreView {
            contacts: self.contacts.remove(id),
            filerequests: Map::new(
                |k: Seq<char>| self.filerequests.contains_key(k),
                |k: Seq<char>| without_contact(self.filerequests[k], id),
            ),
            ..self
        }
    }

    /// The received file of a transfer, which is one that has the transfer's identifier.
    pub open spec fn is_of_transfer(
        self,
        file: crate::domain_models::ReceivedFileView,
        transfer_id: Seq<char>,
    ) -> bool {
        &&& self.received_files.contains_key(file.id)
        &&& self.received_files[file.id] == file
        &&& file.transfer_id == Some(transfer_id)
    }

    pub open spec fn has_transfer(self, transfer_id: Seq<char>) -> bool {
        exists|k: Seq<char>| #[trigger]
            self.received_files.contains_key(k) && self.received_files[k].transfer_id == Some(
                transfer_id,
            )
    }

    /// How many other files are still to be sent from the path of a pending file.
    pub open spec fn unfinished_siblings(self, id: Seq<char>) -> nat {
        filtered(
            self.pending_files,
            |file: crate::domain_models::PendingFileView|
                file.id != id && file.file_path == self.pending_files[id].file_path
                    && file.status.is_unfinished(),
        ).dom().len()
    }

    /// The store after `ids` were given to new pending files.
    pub open spec fn with_pending_files(
        self,
        ids: Seq<Seq<char>>,
        request: crate::domain_models::CreatePendingFilesView,
        contact_id: Seq<char>,
    ) -> StoreView
        decreases ids.len(),
    {
        if ids.len() == 0 {
            self
        } else {
            let before = self.with_pending_files(ids.drop_last(), request, contact_id);
            let info = request.file_infos[ids.len() - 1];
            StoreView {
                pending_files: before.pending_files.insert(
                    ids.last(),
                    crate::domain_models::PendingFileView {
                        id: ids.last(),
                        contact_id,
                        file_path: info.path,
                        retry_count: 0,
                        target_filerequest_id: request.target_filerequest_id,
                        status: crate::domain_models::SendStatusView::Pending,
                        display_name: info.display_name,
                        interruption_reasons: Seq::empty(),
                    },
                ),
                ..before
            }
        }
    }
}

/// The store, held in memory.
pub struct MockDb {
    filerequests: Table<Filerequest>,
    contacts: Table<Contact>,
    node_keys: Option<NodeInfo>,
    remote_filerequests: Table<RemoteFilerequest>,
    pending_files: Table<PendingFile>,
    received_files: Table<ReceivedFile>,
    self_contact: Option<SelfContact>,
}

impl View for MockDb {
    type V = StoreView;

    closed spec fn view(&self) -> StoreView {
        StoreView {
            filerequests: self.filerequests@,
            contacts: self.contacts@,
            node_keys: crate::domain_models::opt_view(self.node_keys),
            remote_filerequests: self.remote_filerequests@,
            pending_files: self.pending_files@,
            received_files: self.received_files@,
            self_contact: crate::domain_models::opt_view(self.self_contact),
        }
    }
}

impl Default for MockDb {
    fn default() -> (r: Self)
        ensures
            r@ == StoreView::empty(),
    {
        MockDb {
            filerequests: Table::new(),
            contacts: Table::new(),
            node_keys: None,
            remote_filerequests: Table::new(),
            pending_files: Table::new(),
            received_files: Table::new(),
            self_contact: None,
        }
    }
}

impl MockDb {
    pub fn new() -> (r: Self)
        ensures
            r@ == StoreView::empty(),
    {
        Self::default()
    }

    pub fn get_filerequest(&self, id: &FylesId) -> (r: DatabaseResult<Filerequest>)
        ensures
            match r {
                Ok(filerequest) => self@.filerequests.contains_key(id@) && filerequest@
                    == self@.filerequests[id@],
                Err(e) => !self@.filerequests.contains_key(id@) && e@
                    == crate::db::DbErrorView::missing(
                    "filerequests"@,
                    OperationType::Read,
                    " Get Filerequest"@,
                    "Filerequest not found"@,
                ),
            },
    {
        match self.filerequests.get(&id.0) {
            Some(filerequest) => Ok(filerequest),
            None => Err(
                missing(
                    "filerequests",
                    OperationType::Read,
                    " Get Filerequest",
                    "Filerequest not found",
                ),
            ),
        }
    }

    pub fn get_filerequests(&self) -> (r: DatabaseResult<Vec<Filerequest>>)
        ensures
            r matches Ok(rows) && crate::mocks::table::enumerates::<Filerequest>(
                crate::domain_models::views(rows@),
                self@.filerequests,
            ),
    {
        Ok(self.filerequests.list())
    }

    pub fn create_filerequest(&mut self, filerequest: &CreateFilerequest) -> (r: DatabaseResult<
        FylesId,
    >)
        ensures
            r matches Ok(id) && {
                &&& crate::domain_models::is_uuid(id@)
                &&& crate::domain_models::can_be_new_uuid(id@)
                &&& final(self)@ == (StoreView {
                    filerequests: old(self)@.filerequests.insert(
                        id@,
                        crate::domain_models::FilerequestView {
                            id: id@,
                            title: filerequest@.title,
                            description: filerequest@.description,
                            access: filerequest@.access,
                            is_active: filerequest@.is_active,
                        },
                    ),
                    ..old(self)@
                })
            },
    {
        let id = FylesId::new();
        let new_filerequest = Filerequest {
            id: id.clone(),
            title: filerequest.title.clone(),
            description: filerequest.description.clone(),
            access: filerequest.access.clone(),
            is_active: filerequest.is_active,
        };
        self.filerequests.insert(new_filerequest);
        Ok(id)
    }

    /// Replaces a file request. One that the store does not hold is an error.
    pub fn update_filerequest(&mut self, filerequest: &Filerequest) -> (r: DatabaseResult<()>)
        ensures
            match r {
                Ok(()) => old(self)@.filerequests.contains_key(filerequest@.id) && final(self)@
                    == (StoreView {
                    filerequests: old(self)@.filerequests.insert(filerequest@.id, filerequest@),
                    ..old(self)@
                }),
                Err(e) => !old(self)@.filerequests.contains_key(filerequest@.id) && final(self)@
                    == old(self)@ && e@ == crate::db::DbErrorView::missing(
                    "filerequests"@,
                    OperationType::Update,
                    "Update Filerequest"@,
                    "Filerequest not found"@,
                ),
            },
    {
        if self.filerequests.contains(&filerequest.id.0) {
            self.filerequests.insert(filerequest.clone());
            Ok(())
        } else {
            Err(
                missing(
                    "filerequests",
                    OperationType::Update,
                    "Update Filerequest",
                    "Filerequest not found",
                ),
            )
        }
    }

    pub fn delete_filerequest(&mut self, id: &FylesId) -> (r: DatabaseResult<()>)
        ensures
            r is Ok,
            final(self)@ == old(self)@.without_filerequest(id@),
    {
        let _ = self.filerequests.remove(&id.0);
        self.received_files.retain(&NotReceivedFor { id: id.clone() });
        self.pending_files.retain(&NotPendingFor { id: id.clone() });
        proof {
            let expected = old(self)@.without_filerequest(id@);
            assert(self@.received_files =~= expected.received_files);
            assert(self@.pending_files =~= expected.pending_files);
        }
        Ok(())
    }

    pub fn get_contact_name(&self, id: &ContactId) -> (r: DatabaseResult<String>)
        ensures
            match r {
                Ok(name) => self@.contacts.contains_key(id@) && name@ == self@.contacts[id@].name,
                Err(e) => !self@.contacts.contains_key(id@) && e@
                    == (crate::db::DbErrorView::NotFound { message: "Contact could not be found"@ }),
            },
    {
        match self.contacts.get(&id.0) {
            Some(contact) => Ok(contact.name),
            None => Err(DbError::NotFound { message: "Contact could not be found".to_owned() }),
        }
    }

    /// The names of those contacts that the store knows, in the order of `ids`.
    pub fn get_contact_names(&self, ids: &Vec<ContactId>) -> (r: DatabaseResult<
        Vec<(ContactId, String)>,
    >)
        ensures
            r matches Ok(names) && name_views(names@) == known_names(
                self@.contacts,
                crate::domain_models::views(ids@),
            ),
    {
        let mut names: Vec<(ContactId, String)> = Vec::new();
        let mut i: usize = 0;
        assert(name_views(names@) =~= Seq::<(Seq<char>, Seq<char>)>::empty());
        while i < ids.len()
            invariant
                i <= ids.len(),
                name_views(names@) == known_names(
                    self@.contacts,
                    crate::domain_models::views(ids@).take(i as int),
                ),
            decreases ids.len() - i,
        {
            let ghost all = crate::domain_models::views(ids@);
            proof {
                assert(all.take(i + 1).drop_last() =~= all.take(i as int));
                assert(all.take(i + 1).last() == ids@[i as int]@);
            }
            match self.contacts.get(&ids[i].0) {
                Some(contact) => {
                    let ghost before = names@;
                    names.push((ids[i].clone(), contact.name));
                    assert(name_views(names@) =~= name_views(before).push(
                        (ids@[i as int]@, self@.contacts[ids@[i as int]@].name),
                    ));
                },
                None => {},
            }
            i = i + 1;
        }
        assert(crate::domain_models::views(ids@).take(i as int) =~= crate::domain_models::views(
            ids@,
        ));
        Ok(names)
    }

    pub fn get_contact(&self, id: &ContactId) -> (r: DatabaseResult<Contact>)
        ensures
            match r {
                Ok(contact) => self@.contacts.contains_key(id@) && contact@ == self@.contacts[id@],
                Err(e) => !self@.contacts.contains_key(id@) && e@
                    == crate::db::DbErrorView::missing(
                    "contacts"@,
                    OperationType::Read,
                    "Get contact"@,
                    "Contact not found"@,
                ),
            },
    {
        match self.contacts.get(&id.0) {
            Some(contact) => Ok(contact),
            None => Err(
                missing("contacts", OperationType::Read, "Get contact", "Contact not found"),
            ),
        }
    }

    pub fn get_contacts(&self) -> (r: DatabaseResult<Vec<DisplayContact>>)
        ensures
            r matches Ok(shown) && exists|rows: Seq<crate::domain_models::ContactView>|
                crate::mocks::table::enumerates::<Contact>(rows, self@.contacts)
                    && crate::domain_models::views(shown@) == #[trigger] display_views(rows),
    {
        let contacts = self.contacts.list();
        let mut shown: Vec<DisplayContact> = Vec::new();
        let mut i: usize = 0;
        while i < contacts.len()
            invariant
                i <= contacts.len(),
                shown@.len() == i,
                forall|j: int|
                    0 <= j < i ==> (#[trigger] shown@[j])@ == display_view(contacts@[j]@),
            decreases contacts.len() - i,
        {
            shown.push(
                DisplayContact { id: contacts[i].id.clone(), name: contacts[i].name.clone() },
            );
            i = i + 1;
        }
        assert(crate::domain_models::views(shown@) =~= display_views(
            crate::domain_models::views(contacts@),
        ));
        Ok(shown)
    }

    pub fn get_contact_public_keys(&self, contact_id: ContactId) -> (r: DatabaseResult<
        Option<ContactPublicKeys>,
    >)
        ensures
            match r {
                Ok(Some(keys)) => self@.contacts.contains_key(contact_id@) && keys@
                    == self@.contacts[contact_id@].public_keys,
                Ok(None) => !self@.contacts.contains_key(contact_id@),
                Err(_) => false,
            },
    {
        match self.contacts.get(&contact_id.0) {
            Some(contact) => Ok(Some(contact.public_keys)),
            None => Ok(None),
        }
    }

    /// Keeps the keys of the node. Its own contact begins with its identifier for a name.
    pub fn store_node_keys(&mut self, keys: NodeInfo) -> (r: DatabaseResult<()>)
        ensures
            r is Ok,
            final(self)@ == (StoreView {
                node_keys: Some(keys@),
                self_contact: Some(
                    crate::domain_models::SelfContactView {
                        id: keys@.self_contact_id,
                        name: keys@.self_contact_id,
                        keys: keys@.self_contact_keys,
                    },
                ),
                ..old(self)@
            }),
    {
        self.self_contact = Some(
            SelfContact {
                id: keys.self_contact_id.clone(),
                name: keys.self_contact_id.0.clone(),
                keys: keys.self_contact_keys.clone(),
            },
        );
        self.node_keys = Some(keys);
        Ok(())
    }

    pub fn get_node_keys(&self) -> (r: DatabaseResult<NodeInfo>)
        ensures
            match r {
                Ok(keys) => self@.node_keys == Some(keys@),
                Err(e) => self@.node_keys is None && e is DataNotYetInitialized,
            },
    {
        match &self.node_keys {
            Some(keys) => Ok(keys.clone()),
            None => Err(DbError::DataNotYetInitialized),
        }
    }

    pub fn get_remote_filerequest(&self, id: &FylesId) -> (r: DatabaseResult<RemoteFilerequest>)
        ensures
            match r {
                Ok(filerequest) => self@.remote_filerequests.contains_key(id@) && filerequest@
                    == self@.remote_filerequests[id@],
                Err(e) => !self@.remote_filerequests.contains_key(id@) && e@
                    == crate::db::DbErrorView::missing(
                    "remote_filerequests"@,
                    OperationType::Read,
                    "Get RemoteFilerequest"@,
                    "Remote filerequest not found: "@ + id@,
                ),
            },
    {
        match self.remote_filerequests.get(&id.0) {
            Some(filerequest) => Ok(filerequest),
            None => Err(
                missing(
                    "remote_filerequests",
                    OperationType::Read,
                    "Get RemoteFilerequest",
                    "Remote filerequest not found: ".to_owned().concat(id.0.as_str()).as_str(),
                ),
            ),
        }
    }

    pub fn get_remote_filerequests_by_contact(&self, contact_id: &ContactId) -> (r: DatabaseResult<
        Vec<RemoteFilerequest>,
    >)
        ensures
            r matches Ok(rows) && crate::mocks::table::enumerates::<RemoteFilerequest>(
                crate::domain_models::views(rows@),
                filtered(
                    self@.remote_filerequests,
                    |row: crate::domain_models::RemoteFilerequestView| row.contact_id == contact_id@,
                ),
            ),
    {
        let filter = RequestedBy { id: contact_id.clone() };
        proof {
            assert(crate::mocks::table::selected::<RemoteFilerequest, RequestedBy>(
                self@.remote_filerequests,
                &filter,
            ) =~= filtered(
                self@.remote_filerequests,
                |row: crate::domain_models::RemoteFilerequestView| row.contact_id == contact_id@,
            ));
        }
        Ok(self.remote_filerequests.list_where(&filter))
    }

    pub fn get_all_remote_filerequests(&self) -> (r: DatabaseResult<Vec<RemoteFilerequest>>)
        ensures
            r matches Ok(rows) && crate::mocks::table::enumerates::<RemoteFilerequest>(
                crate::domain_models::views(rows@),
                self@.remote_filerequests,
            ),
    {
        Ok(self.remote_filerequests.list())
    }

    pub fn create_remote_filerequest(&mut self, remote_fr: &CreateRemoteFilerequest) -> (r:
        DatabaseResult<FylesId>)
        ensures
            r matches Ok(id) && {
                &&& crate::domain_models::is_uuid(id@)
                &&& crate::domain_models::can_be_new_uuid(id@)
                &&& final(self)@ == (StoreView {
                    remote_filerequests: old(self)@.remote_filerequests.insert(
                        id@,
                        crate::domain_models::RemoteFilerequestView {
                            id: id@,
                            peer_id: remote_fr@.peer_id,
                            filerequest_id: remote_fr@.filerequest_id,
                            contact_id: remote_fr@.contact_id,
                            name: remote_fr@.name,
                        },
                    ),
                    ..old(self)@
                })
            },
    {
        let id = FylesId::new();
        let new_remote_fr = RemoteFilerequest {
            id: id.clone(),
            peer_id: remote_fr.peer_id.clone(),
            filerequest_id: FylesId(remote_fr.filerequest_id.clone()),
            contact_id: remote_fr.contact_id.clone(),
            name: remote_fr.name.clone(),
        };
        self.remote_filerequests.insert(new_remote_fr);
        Ok(id)
    }

    /// Changes the name of a peer's file request, where the store holds it.
    pub fn update_remote_filerequest(
        &mut self,
        id: FylesId,
        name: String,
    ) -> (r: DatabaseResult<()>)
        ensures
            r is Ok,
            final(self)@ == (if old(self)@.remote_filerequests.contains_key(id@) {
                StoreView {
                    remote_filerequests: old(self)@.remote_filerequests.insert(
                        id@,
                        crate::domain_models::RemoteFilerequestView {
                            name: name@,
                            ..old(self)@.remote_filerequests[id@]
                        },
                    ),
                    ..old(self)@
                }
            } else {
                old(self)@
            }),
    {
        let _ = self.remote_filerequests.update_key(&id.0, &RenameRemote { name });
        Ok(())
    }

    /// Removes a peer's file request with the files that are to be sent to it. One that the store
    /// does not hold is no error.
    pub fn delete_remote_filerequest(&mut self, id: &FylesId) -> (r: DatabaseResult<()>)
        ensures
            r is Ok,
            final(self)@ == old(self)@.without_remote_filerequest(id@),
    {
        if self.remote_filerequests.remove(&id.0) {
            self.pending_files.retain(&NotPendingFor { id: id.clone() });
            proof {
                let expected = old(self)@.without_remote_filerequest(id@);
                assert(self@.pending_files =~= expected.pending_files);
            }
        } else {
            assert(self@.remote_filerequests =~= old(self)@.remote_filerequests);
        }
        Ok(())
    }

    pub fn get_pending_file(&self, id: &FylesId) -> (r: DatabaseResult<PendingFile>)
        ensures
            match r {
                Ok(file) => self@.pending_files.contains_key(id@) && file@
                    == self@.pending_files[id@],
                Err(e) => !self@.pending_files.contains_key(id@) && e@
                    == crate::db::DbErrorView::missing(
                    "pending_files"@,
                    OperationType::Read,
                    "Get pending file"@,
                    "PendingFile not found"@,
                ),
            },
    {
        match self.pending_files.get(&id.0) {
            Some(file) => Ok(file),
            None => Err(
                missing(
                    "pending_files",
                    OperationType::Read,
                    "Get pending file",
                    "PendingFile not found",
                ),
            ),
        }
    }

    pub fn get_pending_files(&self, target_filerequest_id: &FylesId) -> (r: DatabaseResult<
        Vec<PendingFile>,
    >)
        ensures
            r matches Ok(rows) && crate::mocks::table::enumerates::<PendingFile>(
                crate::domain_models::views(rows@),
                filtered(
                    self@.pending_files,
                    |row: crate::domain_models::PendingFileView|
                        row.target_filerequest_id == target_filerequest_id@,
                ),
            ),
    {
        let filter = PendingFor { id: target_filerequest_id.clone() };
        proof {
            assert(crate::mocks::table::selected::<PendingFile, PendingFor>(
                self@.pending_files,
                &filter,
            ) =~= filtered(
                self@.pending_files,
                |row: crate::domain_models::PendingFileView|
                    row.target_filerequest_id == target_filerequest_id@,
            ));
        }
        Ok(self.pending_files.list_where(&filter))
    }

    pub fn get_all_pending_files(&self) -> (r: DatabaseResult<Vec<PendingFile>>)
        ensures
            r matches Ok(rows) && crate::mocks::table::enumerates::<PendingFile>(
                crate::domain_models::views(rows@),
                self@.pending_files,
            ),
    {
        Ok(self.pending_files.list())
    }

    /// Adds files that are to be sent to a peer's file request. One that the store does not hold
    /// is an error, and nothing is added then.
    pub fn create_pending_files(
        &mut self,
        pending_files: &CreatePendingFiles,
    ) -> (r: DatabaseResult<
        Vec<FylesId>,
    >)
        ensures
            match r {
                Ok(ids) => {
                    &&& old(self)@.remote_filerequests.contains_key(
                        pending_files@.target_filerequest_id,
                    )
                    &&& ids@.len() == pending_files@.file_infos.len()
                    &&& forall|i: int|
                        0 <= i < ids@.len() ==> crate::domain_models::is_uuid(
                            (#[trigger] ids@[i])@,
                        ) && crate::domain_models::can_be_new_uuid(ids@[i]@)
                    &&& final(self)@ == old(self)@.with_pending_files(
                        crate::domain_models::views(ids@),
                        pending_files@,
                        old(
                            self,
                        )@.remote_filerequests[pending_files@.target_filerequest_id].contact_id,
                    )
                },
                Err(e) => {
                    &&& !old(self)@.remote_filerequests.contains_key(
                        pending_files@.target_filerequest_id,
                    )
                    &&& final(self)@ == old(self)@
                    &&& e@ == crate::db::DbErrorView::missing(
                        "remote_filerequests"@,
                        OperationType::Read,
                        "Get remote filerequest"@,
                        "Target remote filerequest not found"@,
                    )
                },
            },
    {
        let remote_fr = match self.remote_filerequests.get(&pending_files.target_filerequest_id.0) {
            Some(remote_fr) => remote_fr,
            None => {
                return Err(
                    missing(
                        "remote_filerequests",
                        OperationType::Read,
                        "Get remote filerequest",
                        "Target remote filerequest not found",
                    ),
                );
            },
        };
        let mut ids: Vec<FylesId> = Vec::new();
        let mut i: usize = 0;
        assert(crate::domain_models::views(ids@) =~= Seq::<Seq<char>>::empty());
        while i < pending_files.file_infos.len()
            invariant
                i <= pending_files.file_infos@.len(),
                ids@.len() == i,
                forall|i: int|
                    0 <= i < ids@.len() ==> crate::domain_models::is_uuid((#[trigger] ids@[i])@)
                        && crate::domain_models::can_be_new_uuid(ids@[i]@),
                remote_fr@ == old(self)@.remote_filerequests[pending_files@.target_filerequest_id],
                self@ == old(self)@.with_pending_files(
                    crate::domain_models::views(ids@),
                    pending_files@,
                    remote_fr@.contact_id,
                ),
            decreases pending_files.file_infos.len() - i,
        {
            let id = FylesId::new();
            let info = &pending_files.file_infos[i];
            let ghost before = *self;
            let ghost ids_before = ids@;
            let interruption_reasons: Vec<String> = Vec::new();
            assert(
                crate::domain_models::views(interruption_reasons@) =~= Seq::<Seq<char>>::empty()
            );
            let new_pending_file = PendingFile {
                id: id.clone(),
                contact_id: remote_fr.contact_id.clone(),
                file_path: info.path.clone(),
                retry_count: 0,
                target_filerequest_id: pending_files.target_filerequest_id.clone(),
                status: SendStatus::Pending,
                display_name: info.display_name.clone(),
                interruption_reasons,
            };
            self.pending_files.insert(new_pending_file);
            ids.push(id);
            proof {
                let after = crate::domain_models::views(ids@);
                assert(after.drop_last() =~= crate::domain_models::views(ids_before));
                assert(after.last() == ids@.last()@);
                assert(pending_files@.file_infos[i as int] == info@);
            }
            i = i + 1;
        }
        Ok(ids)
    }

    /// Changes the status of a pending file and returns the file request that it is for.
    pub fn handle_update_pending_file_status(
        &mut self,
        id: &FylesId,
        status: &SendStatus,
        retry_count: Option<usize>,
    ) -> (r: DatabaseResult<FylesId>)
        ensures
            match r {
                Ok(target) => {
                    &&& old(self)@.pending_files.contains_key(id@)
                    &&& target@ == old(self)@.pending_files[id@].target_filerequest_id
                    &&& final(self)@ == (StoreView {
                        pending_files: old(self)@.pending_files.insert(
                            id@,
                            with_send_status(old(self)@.pending_files[id@], status@, retry_count),
                        ),
                        ..old(self)@
                    })
                },
                Err(e) => {
                    &&& !old(self)@.pending_files.contains_key(id@)
                    &&& final(self)@ == old(self)@
                    &&& e@ == crate::db::DbErrorView::missing(
                        "pending_files"@,
                        OperationType::Update,
                        "Update pending file status"@,
                        "PendingFile not found"@,
                    )
                },
            },
    {
        let update = SetSendStatus { status: status.clone(), retry_count };
        match self.pending_files.get(&id.0) {
            Some(file) => {
                let _ = self.pending_files.update_key(&id.0, &update);
                Ok(file.target_filerequest_id)
            },
            None => Err(
                missing(
                    "pending_files",
                    OperationType::Update,
                    "Update pending file status",
                    "PendingFile not found",
                ),
            ),
        }
    }

    pub fn delete_pending_file(&mut self, id: &FylesId) -> (r: DatabaseResult<()>)
        ensures
            r is Ok,
            final(self)@ == (StoreView {
                pending_files: old(self)@.pending_files.remove(id@),
                ..old(self)@
            }),
    {
        let _ = self.pending_files.remove(&id.0);
        Ok(())
    }

    pub fn add_interruption_reason(
        &mut self,
        id: &FylesId,
        reason: String,
    ) -> (r: DatabaseResult<()>)
        ensures
            match r {
                Ok(()) => {
                    &&& old(self)@.pending_files.contains_key(id@)
                    &&& final(self)@ == (StoreView {
                        pending_files: old(self)@.pending_files.insert(
                            id@,
                            crate::domain_models::PendingFileView {
                                interruption_reasons: old(
                                    self,
                                )@.pending_files[id@].interruption_reasons.push(
                                    reason@,
                                ),
                                ..old(self)@.pending_files[id@]
                            },
                        ),
                        ..old(self)@
                    })
                },
                Err(e) => {
                    &&& !old(self)@.pending_files.contains_key(id@)
                    &&& final(self)@ == old(self)@
                    &&& e@ == (crate::db::DbErrorView::Generic { message: "PendingFile not found"@ })
                },
            },
    {
        if self.pending_files.update_key(&id.0, &AddReason { reason }) {
            Ok(())
        } else {
            Err(DbError::Generic { message: "PendingFile not found".to_owned() })
        }
    }

    /// How many other files are still to be sent from the path of a pending file.
    pub fn count_non_terminal_pending_files_for_path(&self, pending_file_id: &FylesId) -> (r:
        DatabaseResult<usize>)
        ensures
            match r {
                Ok(count) => self@.pending_files.contains_key(pending_file_id@) && count
                    == self@.unfinished_siblings(pending_file_id@),
                Err(e) => !self@.pending_files.contains_key(pending_file_id@) && e@
                    == crate::db::DbErrorView::missing(
                    "pending_files"@,
                    OperationType::Read,
                    "Count non-terminal pending files for path"@,
                    "PendingFile not found"@,
                ),
            },
    {
        match self.pending_files.get(&pending_file_id.0) {
            Some(file) => {
                let filter = OthersToSend { id: pending_file_id.clone(), path: file.file_path };
                let count = self.pending_files.count_where(&filter);
                proof {
                    let id = pending_file_id@;
                    assert(crate::mocks::table::selected::<PendingFile, OthersToSend>(
                        self@.pending_files,
                        &filter,
                    ) =~= filtered(
                        self@.pending_files,
                        |row: crate::domain_models::PendingFileView|
                            row.id != id && row.file_path == self@.pending_files[id].file_path
                                && row.status.is_unfinished(),
                    ));
                }
                Ok(count)
            },
            None => Err(
                missing(
                    "pending_files",
                    OperationType::Read,
                    "Count non-terminal pending files for path",
                    "PendingFile not found",
                ),
            ),
        }
    }

    pub fn create_incoming_file(&mut self, incoming: &CreateIncomingFile) -> (r: DatabaseResult<
        FylesId,
    >)
        ensures
            r matches Ok(id) && {
                &&& crate::domain_models::is_uuid(id@)
                &&& crate::domain_models::can_be_new_uuid(id@)
                &&& final(self)@ == (StoreView {
                    received_files: old(self)@.received_files.insert(
                        id@,
                        crate::domain_models::ReceivedFileView {
                            id: id@,
                            contact_id: incoming@.contact_id,
                            peer_id: incoming@.peer_id,
                            filerequest_id: incoming@.filerequest_id,
                            transfer_id: Some(incoming@.transfer_id),
                            file_name: incoming@.file_name,
                            file_path: None,
                            file_size_bytes: incoming@.file_size_bytes,
                            progress_bytes: 0,
                            status: crate::domain_models::ReceiveStatusView::Receiving,
                            started_at_ms: incoming@.started_at_ms,
                            received_at_ms: None,
                        },
                    ),
                    ..old(self)@
                })
            },
    {
        let id = FylesId::new();
        let received_file = ReceivedFile {
            id: id.clone(),
            contact_id: incoming.contact_id.clone(),
            peer_id: incoming.peer_id.clone(),
            filerequest_id: incoming.filerequest_id.clone(),
            transfer_id: Some(incoming.transfer_id.clone()),
            file_name: incoming.file_name.clone(),
            file_path: None,
            file_size_bytes: incoming.file_size_bytes,
            progress_bytes: 0,
            status: ReceiveStatus::Receiving,
            started_at_ms: incoming.started_at_ms,
            received_at_ms: None,
        };
        self.received_files.insert(received_file);
        Ok(id)
    }

    pub fn update_received_file_status(
        &mut self,
        transfer_id: &FylesId,
        status: &ReceiveStatus,
        progress_bytes: u64,
    ) -> (r: DatabaseResult<()>)
        ensures
            match r {
                Ok(()) => exists|file: crate::domain_models::ReceivedFileView| #[trigger]
                    old(self)@.is_of_transfer(file, transfer_id@) && final(self)@ == (StoreView {
                        received_files: old(self)@.received_files.insert(
                            file.id,
                            crate::domain_models::ReceivedFileView {
                                status: status@,
                                progress_bytes,
                                ..file
                            },
                        ),
                        ..old(self)@
                    }),
                Err(e) => !old(self)@.has_transfer(transfer_id@) && final(self)@ == old(self)@ && e@
                    == (crate::db::DbErrorView::Generic {
                    message: "Received file with transfer_id "@ + transfer_id@ + " not found"@,
                }),
            },
    {
        let filter = InTransfer { id: transfer_id.clone() };
        let update = SetReceiveStatus { status: status.clone(), progress_bytes };
        match self.received_files.update_where(&filter, &update) {
            Some(file) => {
                proof {
                    let k = file@.id;
                    assert(old(self)@.is_of_transfer(old(self)@.received_files[k], transfer_id@));
                }
                Ok(())
            },
            None => Err(
                DbError::Generic {
                    message: "Received file with transfer_id ".to_owned().concat(
                        transfer_id.0.as_str(),
                    ).concat(" not found"),
                },
            ),
        }
    }

    pub fn get_received_file_by_transfer_id(&self, transfer_id: &FylesId) -> (r: DatabaseResult<
        ReceivedFile,
    >)
        ensures
            match r {
                Ok(file) => self@.is_of_transfer(file@, transfer_id@),
                Err(e) => !self@.has_transfer(transfer_id@) && e@
                    == (crate::db::DbErrorView::Generic {
                    message: "Received file with transfer_id "@ + transfer_id@ + " not found"@,
                }),
            },
    {
        match self.received_files.find_where(&InTransfer { id: transfer_id.clone() }) {
            Some(file) => Ok(file),
            None => Err(
                DbError::Generic {
                    message: "Received file with transfer_id ".to_owned().concat(
                        transfer_id.0.as_str(),
                    ).concat(" not found"),
                },
            ),
        }
    }

    pub fn complete_received_file(&mut self, completed_file: &CompleteReceivedFile) -> (r:
        DatabaseResult<FylesId>)
        ensures
            match r {
                Ok(id) => exists|file: crate::domain_models::ReceivedFileView| #[trigger]
                    old(self)@.is_of_transfer(file, completed_file@.transfer_id) && file.id == id@
                        && final(self)@ == (StoreView {
                        received_files: old(self)@.received_files.insert(
                            id@,
                            completed(
                                file,
                                completed_file@.file_path,
                                completed_file@.received_at_ms,
                            ),
                        ),
                        ..old(self)@
                    }),
                Err(e) => !old(self)@.has_transfer(completed_file@.transfer_id) && final(self)@
                    == old(self)@ && e@ == (crate::db::DbErrorView::Generic {
                    message: "Received file with transfer_id "@ + completed_file@.transfer_id
                        + " not found for completion"@,
                }),
            },
    {
        let filter = InTransfer { id: completed_file.transfer_id.clone() };
        let update = Complete {
            file_path: completed_file.file_path.clone(),
            received_at_ms: completed_file.received_at_ms,
        };
        match self.received_files.update_where(&filter, &update) {
            Some(file) => {
                proof {
                    let k = file@.id;
                    assert(old(self)@.is_of_transfer(
                        old(self)@.received_files[k],
                        completed_file@.transfer_id,
                    ));
                }
                Ok(file.id)
            },
            None => Err(
                DbError::Generic {
                    message: "Received file with transfer_id ".to_owned().concat(
                        completed_file.transfer_id.0.as_str(),
                    ).concat(" not found for completion"),
                },
            ),
        }
    }

    pub fn list_received_files(&self, filerequest_id: &FylesId) -> (r: DatabaseResult<
        Vec<ReceivedFile>,
    >)
        ensures
            r matches Ok(rows) && crate::mocks::table::enumerates::<ReceivedFile>(
                crate::domain_models::views(rows@),
                filtered(
                    self@.received_files,
                    |row: crate::domain_models::ReceivedFileView|
                        row.filerequest_id == filerequest_id@,
                ),
            ),
    {
        let filter = ReceivedFor { id: filerequest_id.clone() };
        proof {
            assert(crate::mocks::table::selected::<ReceivedFile, ReceivedFor>(
                self@.received_files,
                &filter,
            ) =~= filtered(
                self@.received_files,
                |row: crate::domain_models::ReceivedFileView|
                    row.filerequest_id == filerequest_id@,
            ));
        }
        Ok(self.received_files.list_where(&filter))
    }

    pub fn delete_received_file(&mut self, id: &FylesId) -> (r: DatabaseResult<()>)
        ensures
            final(self)@ == (StoreView {
                received_files: old(self)@.received_files.remove(id@),
                ..old(self)@
            }),
            match r {
                Ok(()) => old(self)@.received_files.contains_key(id@),
                Err(e) => !old(self)@.received_files.contains_key(id@) && e@
                    == crate::db::DbErrorView::missing(
                    "received_files"@,
                    OperationType::Delete,
                    "Delete received file"@,
                    "File not found"@,
                ),
            },
    {
        if self.received_files.remove(&id.0) {
            Ok(())
        } else {
            Err(
                missing(
                    "received_files",
                    OperationType::Delete,
                    "Delete received file",
                    "File not found",
                ),
            )
        }
    }

    pub fn get_stale_received_files(&self, older_than_ms: i64) -> (r: DatabaseResult<
        Vec<ReceivedFile>,
    >)
        ensures
            r matches Ok(rows) && crate::mocks::table::enumerates::<ReceivedFile>(
                crate::domain_models::views(rows@),
                filtered(
                    self@.received_files,
                    |row: crate::domain_models::ReceivedFileView|
                        row.status.is_unfinished() && row.started_at_ms < older_than_ms,
                ),
            ),
    {
        let filter = Stale { older_than_ms };
        proof {
            assert(crate::mocks::table::selected::<ReceivedFile, Stale>(
                self@.received_files,
                &filter,
            ) =~= filtered(
                self@.received_files,
                |row: crate::domain_models::ReceivedFileView|
                    row.status.is_unfinished() && row.started_at_ms < older_than_ms,
            ));
        }
        Ok(self.received_files.list_where(&filter))
    }

    pub fn get_self_contact(&self) -> (r: DatabaseResult<SelfContact>)
        ensures
            match r {
                Ok(contact) => self@.self_contact == Some(contact@),
                Err(e) => self@.self_contact is None && e is DataNotYetInitialized,
            },
    {
        match &self.self_contact {
            Some(contact) => Ok(contact.clone()),
            None => Err(DbError::DataNotYetInitialized),
        }
    }

    pub fn get_self_contact_for_display(&self) -> (r: DatabaseResult<DisplayContact>)
        ensures
            match r {
                Ok(shown) => self@.self_contact matches Some(contact) && shown@
                    == (crate::domain_models::DisplayContactView {
                    id: contact.id,
                    name: contact.name,
                }),
                Err(e) => self@.self_contact is None && e is DataNotYetInitialized,
            },
    {
        match &self.self_contact {
            Some(contact) => Ok(
                DisplayContact { id: contact.id.clone(), name: contact.name.clone() },
            ),
            None => Err(DbError::DataNotYetInitialized),
        }
    }

    pub fn update_self_contact_name(&mut self, name: String) -> (r: DatabaseResult<()>)
        ensures
            match r {
                Ok(()) => old(self)@.self_contact matches Some(contact) && final(self)@
                    == (StoreView {
                    self_contact: Some(
                        crate::domain_models::SelfContactView { name: name@, ..contact },
                    ),
                    ..old(self)@
                }),
                Err(e) => old(self)@.self_contact is None && e is DataNotYetInitialized
                    && final(self)@ == old(self)@,
            },
    {
        match self.self_contact.take() {
            Some(contact) => {
                self.self_contact = Some(
                    SelfContact { id: contact.id, name, keys: contact.keys },
                );
                Ok(())
            },
            None => Err(DbError::DataNotYetInitialized),
        }
    }

    /// Replaces the node's own contact, where there is one.
    pub fn update_identity(&mut self, self_contact: SelfContact) -> (r: DatabaseResult<()>)
        ensures
            match r {
                Ok(()) => old(self)@.self_contact is Some && final(self)@ == (StoreView {
                    self_contact: Some(self_contact@),
                    ..old(self)@
                }),
                Err(e) => old(self)@.self_contact is None && e is DataNotYetInitialized
                    && final(self)@ == old(self)@,
            },
    {
        if self.self_contact.is_some() {
            self.self_contact = Some(self_contact);
            Ok(())
        } else {
            Err(DbError::DataNotYetInitialized)
        }
    }

    /// The node's own contact as others may know it: without the private keys.
    pub fn get_sharable_public_self_contact(&self) -> (r: DatabaseResult<Contact>)
        ensures
            match r {
                Ok(shared) => self@.self_contact matches Some(contact) && shared@
                    == (crate::domain_models::ContactView {
                    id: contact.id,
                    name: contact.name,
                    public_keys: contact.keys.public,
                }),
                Err(e) => self@.self_contact is None && e is DataNotYetInitialized,
            },
    {
        match &self.self_contact {
            Some(contact) => Ok(
                Contact {
                    id: contact.id.clone(),
                    name: contact.name.clone(),
                    public_keys: contact.keys.public.clone(),
                },
            ),
            None => Err(DbError::DataNotYetInitialized),
        }
    }

    pub fn register_contact(&mut self, contact: Contact) -> (r: DatabaseResult<()>)
        ensures
            r is Ok,
            final(self)@ == (StoreView {
                contacts: old(self)@.contacts.insert(contact@.id, contact@),
                ..old(self)@
            }),
    {
        self.contacts.insert(contact);
        Ok(())
    }

    pub fn update_contact(&mut self, contact: &DisplayContact) -> (r: DatabaseResult<()>)
        ensures
            match r {
                Ok(()) => old(self)@.contacts.contains_key(contact@.id) && final(self)@
                    == (StoreView {
                    contacts: old(self)@.contacts.insert(
                        contact@.id,
                        crate::domain_models::ContactView {
                            name: contact@.name,
                            ..old(self)@.contacts[contact@.id]
                        },
                    ),
                    ..old(self)@
                }),
                Err(e) => !old(self)@.contacts.contains_key(contact@.id)
                    && final(self)@ == old(self)@ && e@ == crate::db::DbErrorView::missing(
                    "contacts"@,
                    OperationType::Update,
                    "Update contact"@,
                    "Contact not found"@,
                ),
            },
    {
        if self.contacts.update_key(&contact.id.0, &RenameContact { name: contact.name.clone() }) {
            Ok(())
        } else {
            Err(missing("contacts", OperationType::Update, "Update contact", "Contact not found"))
        }
    }

    /// Removes a contact from the store and from all audiences. One that the store does not hold
    /// is an error.
    pub fn delete_contact(&mut self, id: &ContactId) -> (r: DatabaseResult<()>)
        ensures
            match r {
                Ok(()) => old(self)@.contacts.contains_key(id@)
                    && final(self)@ == old(self)@.without_contact(id@),
                Err(e) => !old(self)@.contacts.contains_key(id@) && final(self)@ == old(self)@ && e@
                    == crate::db::DbErrorView::missing(
                    "contacts"@,
                    OperationType::Delete,
                    "Delete contact"@,
                    "Contact not found"@,
                ),
            },
    {
        if self.contacts.remove(&id.0) {
            self.remove_contact_from_audiences(id);
            Ok(())
        } else {
            assert(self@.contacts =~= old(self)@.contacts);
            Err(missing("contacts", OperationType::Delete, "Delete contact", "Contact not found"))
        }
    }

    fn remove_contact_from_audiences(&mut self, contact_id: &ContactId)
        ensures
            final(self)@ == (StoreView {
                filerequests: Map::new(
                    |k: Seq<char>| old(self)@.filerequests.contains_key(k),
                    |k: Seq<char>| without_contact(old(self)@.filerequests[k], contact_id@),
                ),
                ..old(self)@
            }),
    {
        let update = Uninvite { id: contact_id.clone() };
        self.filerequests.update_all(&update);
        proof {
            assert(self@.filerequests =~= Map::new(
                |k: Seq<char>| old(self)@.filerequests.contains_key(k),
                |k: Seq<char>| without_contact(old(self)@.filerequests[k], contact_id@),
            ));
        }
    }

    /// Settings are not kept in memory: they always read as empty.
    pub fn get_settings(&self) -> (r: DatabaseResult<Vec<u8>>)
        ensures
            r matches Ok(settings) && settings@ == Seq::<u8>::empty(),
    {
        Ok(Vec::new())
    }

    /// Settings are not kept in memory.
    pub fn store_settings(&mut self, _settings: Vec<u8>) -> (r: DatabaseResult<()>)
        ensures
            r is Ok,
            final(self)@ == old(self)@,
    {
        Ok(())
    }
}

pub open spec fn name_views(names: Seq<(ContactId, String)>) -> Seq<(Seq<char>, Seq<char>)> {
    names.map_values(|name: (ContactId, String)| (name.0@, name.1@))
}

/// The names of those of `ids` that are known, with their identifiers.
pub open spec fn known_names(
    contacts: Map<Seq<char>, crate::domain_models::ContactView>,
    ids: Seq<Seq<char>>,
) -> Seq<(Seq<char>, Seq<char>)>
    decreases ids.len(),
{
    if ids.len() == 0 {
        Seq::empty()
    } else {
        let before = known_names(contacts, ids.drop_last());
        if contacts.contains_key(ids.last()) {
            before.push((ids.last(), contacts[ids.last()].name))
        } else {
            before
        }
    }
}

pub open spec fn display_view(
    contact: crate::domain_models::ContactView,
) -> crate::domain_models::DisplayContactView {
    crate::domain_models::DisplayContactView { id: contact.id, name: contact.name }
}

pub open spec fn display_views(
    contacts: Seq<crate::domain_models::ContactView>,
) -> Seq<crate::domain_models::DisplayContactView> {
    contacts.map_values(|contact: crate::domain_models::ContactView| display_view(contact))
}

} // verus!
