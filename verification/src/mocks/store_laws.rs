//! What the store holds after it was asked to change something.
use vstd::prelude::*;

use crate::db::DatabaseResult;
use crate::domain_models::{
    CompleteReceivedFile, Contact, ContactId, CreateFilerequest, CreateIncomingFile,
    CreatePendingFiles, CreateRemoteFilerequest, DisplayContact, Filerequest, FylesId, ReceiveStatus,
    SendStatus,
};
use crate::mocks::db::MockDb;

verus! {

/// Whether nothing is different in the one map beside the key.
pub open spec fn is_same_beside<V>(
    a: Map<Seq<char>, V>,
    b: Map<Seq<char>, V>,
    key: Seq<char>,
) -> bool {
    &&& forall|k: Seq<char>|
        k != key ==> (#[trigger] a.contains_key(k) <==> b.contains_key(k))
    &&& forall|k: Seq<char>| k != key && a.contains_key(k) ==> #[trigger] a[k] == b[k]
}

/// A new file request is found under its id as it was asked for, and all else stays.
pub proof fn law_a_new_filerequest_is_found(
    store: &mut MockDb,
    new: &CreateFilerequest,
    created: DatabaseResult<FylesId>,
)
    requires
        call_ensures(MockDb::create_filerequest, (store, new), created),
    ensures
        created matches Ok(id) && {
            &&& final(store)@.filerequests.contains_key(id@)
            &&& final(store)@.filerequests[id@].id == id@
            &&& final(store)@.filerequests[id@].title == new.title@
            &&& final(store)@.filerequests[id@].description == new.description@
            &&& final(store)@.filerequests[id@].is_active == new.is_active
            &&& final(store)@.filerequests[id@].access == new.access@
            &&& is_same_beside(old(store)@.filerequests, final(store)@.filerequests, id@)
            &&& final(store)@.contacts == old(store)@.contacts
            &&& final(store)@.remote_filerequests == old(store)@.remote_filerequests
            &&& final(store)@.pending_files == old(store)@.pending_files
            &&& final(store)@.received_files == old(store)@.received_files
        },
{
}

/// A file request that is changed is found as the change has it, and all else stays; one that is not
/// there is not made.
pub proof fn law_a_changed_filerequest_is_found(
    store: &mut MockDb,
    update: &Filerequest,
    changed: DatabaseResult<()>,
)
    requires
        call_ensures(MockDb::update_filerequest, (store, update), changed),
    ensures
        changed is Ok <==> old(store)@.filerequests.contains_key(update.id@),
        changed is Err ==> final(store)@ == old(store)@,
        changed is Ok ==> {
            &&& final(store)@.filerequests.contains_key(update.id@)
            &&& final(store)@.filerequests[update.id@].title == update.title@
            &&& final(store)@.filerequests[update.id@].description == update.description@
            &&& final(store)@.filerequests[update.id@].is_active == update.is_active
            &&& final(store)@.filerequests[update.id@].access == update.access@
            &&& is_same_beside(old(store)@.filerequests, final(store)@.filerequests, update.id@)
            &&& final(store)@.contacts == old(store)@.contacts
            &&& final(store)@.remote_filerequests == old(store)@.remote_filerequests
            &&& final(store)@.pending_files == old(store)@.pending_files
            &&& final(store)@.received_files == old(store)@.received_files
        },
{
}

/// The file request of another is found under its new id as it was asked for, and all else stays.
pub proof fn law_a_new_remote_request_is_found(
    store: &mut MockDb,
    new: &CreateRemoteFilerequest,
    created: DatabaseResult<FylesId>,
)
    requires
        call_ensures(MockDb::create_remote_filerequest, (store, new), created),
    ensures
        created matches Ok(id) && {
            &&& final(store)@.remote_filerequests.contains_key(id@)
            &&& final(store)@.remote_filerequests[id@].peer_id == new.peer_id@
            &&& final(store)@.remote_filerequests[id@].filerequest_id == new.filerequest_id@
            &&& final(store)@.remote_filerequests[id@].contact_id == new.contact_id@
            &&& final(store)@.remote_filerequests[id@].name == new.name@
            &&& is_same_beside(
                old(store)@.remote_filerequests,
                final(store)@.remote_filerequests,
                id@,
            )
            &&& final(store)@.filerequests == old(store)@.filerequests
            &&& final(store)@.contacts == old(store)@.contacts
            &&& final(store)@.pending_files == old(store)@.pending_files
            &&& final(store)@.received_files == old(store)@.received_files
        },
{
}

/// The file request of another gets the new name and keeps all else, and no other is touched.
pub proof fn law_a_renamed_remote_request_is_found(
    store: &mut MockDb,
    id: FylesId,
    name: String,
    changed: DatabaseResult<()>,
)
    requires
        call_ensures(MockDb::update_remote_filerequest, (store, id, name), changed),
        old(store)@.remote_filerequests.contains_key(id@),
    ensures
        changed is Ok,
        final(store)@.remote_filerequests.contains_key(id@),
        final(store)@.remote_filerequests[id@].name == name@,
        final(store)@.remote_filerequests[id@].peer_id
            == old(store)@.remote_filerequests[id@].peer_id,
        final(store)@.remote_filerequests[id@].filerequest_id
            == old(store)@.remote_filerequests[id@].filerequest_id,
        final(store)@.remote_filerequests[id@].contact_id
            == old(store)@.remote_filerequests[id@].contact_id,
        is_same_beside(old(store)@.remote_filerequests, final(store)@.remote_filerequests, id@),
        final(store)@.pending_files == old(store)@.pending_files,
{
}

/// New files to send are found one for one under their ids, where these differ: each with the path
/// and the name that were asked for in its place, as pending and never tried, for the request that
/// was named and its contact. The files that were there stay, unless they had one of these ids.
pub proof fn law_new_files_are_found(
    store: &mut MockDb,
    new: &CreatePendingFiles,
    ids: Vec<FylesId>,
)
    requires
        call_ensures(MockDb::create_pending_files, (store, new), Ok(ids)),
        crate::domain_models::views(ids@).no_duplicates(),
    ensures
        ids@.len() == new.file_infos@.len(),
        old(store)@.remote_filerequests.contains_key(new.target_filerequest_id@),
        forall|i: int|
            0 <= i < ids@.len() ==> {
                let file = final(store)@.pending_files[(#[trigger] ids@[i])@];
                &&& final(store)@.pending_files.contains_key(ids@[i]@)
                &&& file.id == ids@[i]@
                &&& file.file_path == new.file_infos@[i].path@
                &&& file.display_name == crate::domain_models::opt_view(
                    new.file_infos@[i].display_name,
                )
                &&& file.target_filerequest_id == new.target_filerequest_id@
                &&& file.contact_id
                    == old(store)@.remote_filerequests[new.target_filerequest_id@].contact_id
                &&& file.status is Pending
                &&& file.retry_count == 0
                &&& file.interruption_reasons.len() == 0
            },
        forall|k: Seq<char>|
            !crate::domain_models::views(ids@).contains(k) ==> (
            #[trigger] final(store)@.pending_files.contains_key(k)
                <==> old(store)@.pending_files.contains_key(k)),
        forall|k: Seq<char>|
            !crate::domain_models::views(ids@).contains(k)
                && old(store)@.pending_files.contains_key(k)
                ==> #[trigger] final(store)@.pending_files[k] == old(store)@.pending_files[k],
        final(store)@.filerequests == old(store)@.filerequests,
        final(store)@.remote_filerequests == old(store)@.remote_filerequests,
{
    let views = crate::domain_models::views(ids@);
    let contact = old(store)@.remote_filerequests[new.target_filerequest_id@].contact_id;
    lemma_added_files(old(store)@, views, new@, contact);
    assert(views.len() == ids@.len());
    assert(new@.file_infos.len() == new.file_infos@.len());
    assert forall|i: int| 0 <= i < ids@.len() implies {
        let file = final(store)@.pending_files[(#[trigger] ids@[i])@];
        &&& final(store)@.pending_files.contains_key(ids@[i]@)
        &&& file.id == ids@[i]@
        &&& file.file_path == new.file_infos@[i].path@
        &&& file.display_name == crate::domain_models::opt_view(new.file_infos@[i].display_name)
        &&& file.target_filerequest_id == new.target_filerequest_id@
        &&& file.contact_id
            == old(store)@.remote_filerequests[new.target_filerequest_id@].contact_id
        &&& file.status is Pending
        &&& file.retry_count == 0
        &&& file.interruption_reasons.len() == 0
    } by {
        assert(views[i] == ids@[i]@);
        assert(new@.file_infos[i] == new.file_infos@[i]@);
    }
}

proof fn lemma_added_files(
    store: crate::mocks::db::StoreView,
    ids: Seq<Seq<char>>,
    new: crate::domain_models::CreatePendingFilesView,
    contact: Seq<char>,
)
    requires
        ids.no_duplicates(),
        ids.len() <= new.file_infos.len(),
    ensures
        ({
            let after = store.with_pending_files(ids, new, contact);
            &&& after.filerequests == store.filerequests
            &&& after.remote_filerequests == store.remote_filerequests
            &&& forall|i: int|
                0 <= i < ids.len() ==> {
                    &&& after.pending_files.contains_key(#[trigger] ids[i])
                    &&& after.pending_files[ids[i]].id == ids[i]
                    &&& after.pending_files[ids[i]].file_path == new.file_infos[i].path
                    &&& after.pending_files[ids[i]].display_name == new.file_infos[i].display_name
                    &&& after.pending_files[ids[i]].target_filerequest_id
                        == new.target_filerequest_id
                    &&& after.pending_files[ids[i]].contact_id == contact
                    &&& after.pending_files[ids[i]].status is Pending
                    &&& after.pending_files[ids[i]].retry_count == 0
                    &&& after.pending_files[ids[i]].interruption_reasons.len() == 0
                }
            &&& forall|k: Seq<char>|
                !ids.contains(k) ==> (#[trigger] after.pending_files.contains_key(k)
                    <==> store.pending_files.contains_key(k))
            &&& forall|k: Seq<char>|
                !ids.contains(k) && store.pending_files.contains_key(k)
                    ==> #[trigger] after.pending_files[k] == store.pending_files[k]
        }),
    decreases ids.len(),
{
    if ids.len() > 0 {
        let fewer = ids.drop_last();
        let before = store.with_pending_files(fewer, new, contact);
        let after = store.with_pending_files(ids, new, contact);
        assert(fewer.no_duplicates());
        lemma_added_files(store, fewer, new, contact);
        assert forall|i: int| 0 <= i < ids.len() implies {
            &&& after.pending_files.contains_key(#[trigger] ids[i])
            &&& after.pending_files[ids[i]].id == ids[i]
            &&& after.pending_files[ids[i]].file_path == new.file_infos[i].path
            &&& after.pending_files[ids[i]].display_name == new.file_infos[i].display_name
            &&& after.pending_files[ids[i]].target_filerequest_id == new.target_filerequest_id
            &&& after.pending_files[ids[i]].contact_id == contact
            &&& after.pending_files[ids[i]].status is Pending
            &&& after.pending_files[ids[i]].retry_count == 0
            &&& after.pending_files[ids[i]].interruption_reasons.len() == 0
        } by {
            if i < fewer.len() {
                assert(fewer[i] == ids[i]);
                assert(ids[i] != ids.last());
            }
        }
        assert forall|k: Seq<char>| !ids.contains(k) implies !fewer.contains(k) && k
            != ids.last() by {
            if fewer.contains(k) {
                let i = choose|i: int| 0 <= i < fewer.len() && fewer[i] == k;
                assert(ids[i] == k);
            }
            assert(ids[ids.len() - 1] == ids.last());
        }
    }
}

/// The new status of a file is found of that file, with the number of tries where one is named, and
/// what is told is the request that the file is for. All else stays.
pub proof fn law_a_new_send_status_is_found(
    store: &mut MockDb,
    id: &FylesId,
    status: &SendStatus,
    retry_count: Option<usize>,
    changed: DatabaseResult<FylesId>,
)
    requires
        call_ensures(
            MockDb::handle_update_pending_file_status,
            (store, id, status, retry_count),
            changed,
        ),
    ensures
        changed is Ok <==> old(store)@.pending_files.contains_key(id@),
        changed is Err ==> final(store)@ == old(store)@,
        changed matches Ok(target) ==> {
            let before = old(store)@.pending_files[id@];
            let after = final(store)@.pending_files[id@];
            &&& target@ == before.target_filerequest_id
            &&& final(store)@.pending_files.contains_key(id@)
            &&& after.status == status@
            &&& retry_count matches Some(count) ==> after.retry_count == count
            &&& retry_count is None ==> after.retry_count == before.retry_count
            &&& after.id == before.id
            &&& after.file_path == before.file_path
            &&& after.target_filerequest_id == before.target_filerequest_id
            &&& after.interruption_reasons == before.interruption_reasons
            &&& is_same_beside(old(store)@.pending_files, final(store)@.pending_files, id@)
            &&& final(store)@.received_files == old(store)@.received_files
        },
{
}

/// A file that is deleted is not found any more, and every other one is.
pub proof fn law_a_deleted_file_is_gone(
    store: &mut MockDb,
    id: &FylesId,
    deleted: DatabaseResult<()>,
)
    requires
        call_ensures(MockDb::delete_pending_file, (store, id), deleted),
    ensures
        deleted is Ok,
        !final(store)@.pending_files.contains_key(id@),
        is_same_beside(old(store)@.pending_files, final(store)@.pending_files, id@),
        final(store)@.filerequests == old(store)@.filerequests,
        final(store)@.remote_filerequests == old(store)@.remote_filerequests,
        final(store)@.received_files == old(store)@.received_files,
{
}

/// A reason for an interruption is found behind those that were there, of that file.
pub proof fn law_a_new_reason_is_found(
    store: &mut MockDb,
    id: &FylesId,
    reason: String,
    added: DatabaseResult<()>,
)
    requires
        call_ensures(MockDb::add_interruption_reason, (store, id, reason), added),
    ensures
        added is Ok <==> old(store)@.pending_files.contains_key(id@),
        added is Ok ==> {
            let before = old(store)@.pending_files[id@].interruption_reasons;
            let after = final(store)@.pending_files[id@].interruption_reasons;
            &&& after.len() == before.len() + 1
            &&& after.last() == reason@
            &&& forall|i: int| 0 <= i < before.len() ==> #[trigger] after[i] == before[i]
            &&& final(store)@.pending_files[id@].status == old(store)@.pending_files[id@].status
            &&& is_same_beside(old(store)@.pending_files, final(store)@.pending_files, id@)
        },
{
}

/// A file that is about to be received is found under its id, as it was announced and with nothing
/// of it there yet; all else stays.
pub proof fn law_an_incoming_file_is_found(
    store: &mut MockDb,
    incoming: &CreateIncomingFile,
    created: DatabaseResult<FylesId>,
)
    requires
        call_ensures(MockDb::create_incoming_file, (store, incoming), created),
    ensures
        created matches Ok(id) && {
            let file = final(store)@.received_files[id@];
            &&& final(store)@.received_files.contains_key(id@)
            &&& file.transfer_id == Some(incoming.transfer_id@)
            &&& file.filerequest_id == incoming.filerequest_id@
            &&& file.peer_id == incoming.peer_id@
            &&& file.contact_id == crate::domain_models::opt_view(incoming.contact_id)
            &&& file.file_name == incoming.file_name@
            &&& file.file_size_bytes == incoming.file_size_bytes
            &&& file.started_at_ms == incoming.started_at_ms
            &&& file.progress_bytes == 0
            &&& file.status is Receiving
            &&& file.file_path is None && file.received_at_ms is None
            &&& is_same_beside(old(store)@.received_files, final(store)@.received_files, id@)
            &&& final(store)@.pending_files == old(store)@.pending_files
        },
{
}

/// How far a transfer got is found of a file of that transfer, and no other is touched.
pub proof fn law_progress_is_found(
    store: &mut MockDb,
    transfer_id: &FylesId,
    status: &ReceiveStatus,
    progress_bytes: u64,
    changed: DatabaseResult<()>,
)
    requires
        call_ensures(
            MockDb::update_received_file_status,
            (store, transfer_id, status, progress_bytes),
            changed,
        ),
        changed is Ok,
    ensures
        exists|id: Seq<char>|
            {
                &&& #[trigger] old(store)@.received_files.contains_key(id)
                &&& old(store)@.received_files[id].transfer_id == Some(transfer_id@)
                &&& final(store)@.received_files.contains_key(id)
                &&& final(store)@.received_files[id].status == status@
                &&& final(store)@.received_files[id].progress_bytes == progress_bytes
                &&& final(store)@.received_files[id].file_name
                    == old(store)@.received_files[id].file_name
                &&& final(store)@.received_files[id].transfer_id == Some(transfer_id@)
                &&& is_same_beside(old(store)@.received_files, final(store)@.received_files, id)
            },
{
    let file = choose|file: crate::domain_models::ReceivedFileView|
        #![trigger old(store)@.is_of_transfer(file, transfer_id@)]
        old(store)@.is_of_transfer(file, transfer_id@) && final(store)@.received_files
            == old(store)@.received_files.insert(
            file.id,
            crate::domain_models::ReceivedFileView { status: status@, progress_bytes, ..file },
        );
    assert(old(store)@.received_files.contains_key(file.id));
}

/// A file that is complete is found so, of the transfer that was named, with its path and the time;
/// what is told is its id.
pub proof fn law_a_completed_file_is_found(
    store: &mut MockDb,
    completed: &CompleteReceivedFile,
    changed: DatabaseResult<FylesId>,
)
    requires
        call_ensures(MockDb::complete_received_file, (store, completed), changed),
    ensures
        changed matches Ok(id) ==> {
            &&& old(store)@.received_files.contains_key(id@)
            &&& old(store)@.received_files[id@].transfer_id == Some(completed.transfer_id@)
            &&& final(store)@.received_files[id@].status is Completed
            &&& final(store)@.received_files[id@].file_path == Some(completed.file_path@)
            &&& final(store)@.received_files[id@].received_at_ms == Some(completed.received_at_ms)
            &&& final(store)@.received_files[id@].file_name
                == old(store)@.received_files[id@].file_name
            &&& is_same_beside(old(store)@.received_files, final(store)@.received_files, id@)
        },
        changed is Err ==> final(store)@ == old(store)@,
{
}

/// A contact that is registered is found as it is, and every other one stays.
pub proof fn law_a_registered_contact_is_found(
    store: &mut MockDb,
    contact: Contact,
    registered: DatabaseResult<()>,
)
    requires
        call_ensures(MockDb::register_contact, (store, contact), registered),
    ensures
        registered is Ok,
        final(store)@.contacts.contains_key(contact.id@),
        final(store)@.contacts[contact.id@] == contact@,
        is_same_beside(old(store)@.contacts, final(store)@.contacts, contact.id@),
        final(store)@.filerequests == old(store)@.filerequests,
{
}

/// A contact that is renamed keeps its keys, and every other one stays.
pub proof fn law_a_renamed_contact_keeps_its_keys(
    store: &mut MockDb,
    contact: &DisplayContact,
    changed: DatabaseResult<()>,
)
    requires
        call_ensures(MockDb::update_contact, (store, contact), changed),
    ensures
        changed is Ok <==> old(store)@.contacts.contains_key(contact.id@),
        changed is Err ==> final(store)@ == old(store)@,
        changed is Ok ==> {
            &&& final(store)@.contacts.contains_key(contact.id@)
            &&& final(store)@.contacts[contact.id@].name == contact.name@
            &&& final(store)@.contacts[contact.id@].public_keys
                == old(store)@.contacts[contact.id@].public_keys
            &&& is_same_beside(old(store)@.contacts, final(store)@.contacts, contact.id@)
        },
{
}

/// A contact that is deleted is not found any more, and every other one is.
pub proof fn law_a_deleted_contact_is_gone(
    store: &mut MockDb,
    id: &ContactId,
    deleted: DatabaseResult<()>,
)
    requires
        call_ensures(MockDb::delete_contact, (store, id), deleted),
    ensures
        deleted is Ok <==> old(store)@.contacts.contains_key(id@),
        !final(store)@.contacts.contains_key(id@),
        is_same_beside(old(store)@.contacts, final(store)@.contacts, id@),
        forall|k: Seq<char>| #[trigger]
            old(store)@.filerequests.contains_key(k) ==> final(store)@.filerequests.contains_key(k),
{
}

} // verus!
