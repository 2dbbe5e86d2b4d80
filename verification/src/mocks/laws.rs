//! What holds of the store whatever it holds.
use vstd::prelude::*;

verus! {

/// Deleting a file request leaves no file of it behind, and touches nothing else.
pub proof fn law_deleted_filerequest_leaves_nothing(
    store: crate::mocks::db::StoreView,
    id: Seq<char>,
)
    ensures
        !store.without_filerequest(id).filerequests.contains_key(id),
        forall|k: Seq<char>| #[trigger]
            store.without_filerequest(id).received_files.contains_key(k)
                <==> store.received_files.contains_key(k) && store.received_files[k].filerequest_id
                != id,
        forall|k: Seq<char>| #[trigger]
            store.without_filerequest(id).pending_files.contains_key(k)
                <==> store.pending_files.contains_key(k)
                && store.pending_files[k].target_filerequest_id != id,
        forall|k: Seq<char>|
            k != id && #[trigger] store.filerequests.contains_key(k)
                ==> store.without_filerequest(id).filerequests.contains_key(k)
                && store.without_filerequest(id).filerequests[k] == store.filerequests[k],
        store.without_filerequest(id).contacts == store.contacts,
        store.without_filerequest(id).remote_filerequests == store.remote_filerequests,
{
}

/// A new file request that is deleted again leaves the store as it was.
pub proof fn law_deleting_a_new_filerequest_restores_the_store(
    store: crate::mocks::db::StoreView,
    filerequest: crate::domain_models::FilerequestView,
)
    requires
        !store.filerequests.contains_key(filerequest.id),
        forall|k: Seq<char>| #[trigger]
            store.received_files.contains_key(k) ==> store.received_files[k].filerequest_id
                != filerequest.id,
        forall|k: Seq<char>| #[trigger]
            store.pending_files.contains_key(k) ==> store.pending_files[k].target_filerequest_id
                != filerequest.id,
    ensures
        (crate::mocks::db::StoreView {
            filerequests: store.filerequests.insert(filerequest.id, filerequest),
            ..store
        }).without_filerequest(filerequest.id) == store,
{
    let with_request = crate::mocks::db::StoreView {
        filerequests: store.filerequests.insert(filerequest.id, filerequest),
        ..store
    };
    let after = with_request.without_filerequest(filerequest.id);
    assert(after.filerequests =~= store.filerequests);
    assert(after.received_files =~= store.received_files);
    assert(after.pending_files =~= store.pending_files);
}

/// Deleting a file request of another takes along the files that were to be sent to it.
pub proof fn law_deleted_remote_filerequest_takes_its_files(
    store: crate::mocks::db::StoreView,
    id: Seq<char>,
)
    requires
        store.remote_filerequests.contains_key(id),
    ensures
        !store.without_remote_filerequest(id).remote_filerequests.contains_key(id),
        forall|k: Seq<char>| #[trigger]
            store.without_remote_filerequest(id).pending_files.contains_key(k)
                <==> store.pending_files.contains_key(k)
                && store.pending_files[k].target_filerequest_id != id,
{
}

/// A deleted contact belongs to no audience any more; everybody else is admitted as before.
pub proof fn law_deleted_contact_is_admitted_nowhere(
    store: crate::mocks::db::StoreView,
    id: Seq<char>,
    request: Seq<char>,
    other: Option<Seq<char>>,
)
    requires
        store.filerequests.contains_key(request),
    ensures
        !store.without_contact(id).contacts.contains_key(id),
        store.without_contact(id).filerequests.contains_key(request),
        store.filerequests[request].access is Audience
            ==> !store.without_contact(id).filerequests[request].access.admits(Some(id)),
        other != Some(id) ==> store.without_contact(id).filerequests[request].access.admits(other)
            == store.filerequests[request].access.admits(other),
{
    if let crate::domain_models::AccessView::Audience { contact_ids } =
        store.filerequests[request].access {
        let keeps = crate::mocks::db::is_other(id);
        let rest = contact_ids.filter(keeps);
        if let Some(contact) = other {
            if contact != id && contact_ids.contains(contact) {
                let i = contact_ids.index_of(contact);
                assert(contact_ids[i] == contact);
                contact_ids.lemma_filter_contains(keeps, i);
            }
            if rest.contains(contact) {
                contact_ids.lemma_filter_contains_rev(keeps, contact);
            }
        }
        assert(store.without_contact(id).filerequests[request].access
            == (crate::domain_models::AccessView::Audience { contact_ids: rest }));
        if rest.contains(id) {
            let i = rest.index_of(id);
            contact_ids.lemma_filter_pred(keeps, i);
        }
    }
}

} // verus!
