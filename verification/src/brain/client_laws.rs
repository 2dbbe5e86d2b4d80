//! What a client can rely on, by what it asks for.
use vstd::prelude::*;

use crate::api_server::service::{ApiRequest, Awaited};
use crate::brain::action_client::ClientAction;
use crate::brain::action_p2p::NetworkNodeAction;
use crate::brain::error::FilerequestError;
use crate::brain::exchange::{
    Answer, DbCommand, DbReply, Effect, HostCommand, NetworkCommand, NetworkReply, Query, Reply,
    Response,
};
use crate::brain::state::{Next, Step};
use crate::brain::types::{ContactShareChallenge, SelfContactInviteChallenge};
use crate::db::{DbError, NodeInfo};
use crate::domain_models::{
    CreateFilerequest, CreatePendingFiles, Filerequest, FylesId, PeerIdWrapper, PendingFile,
    RemoteFilerequest, SelfContact,
};
use crate::io_controller::{FileNamespace, Uri};
use crate::p2p::{FileToSend, NodeStatusInfo, P2pError};
use crate::wire::{Message, ServerMessage};

verus! {

/// A client that changes a file request is told that it was changed exactly where the store was
/// asked for that change and made it, whether the title changes or not. Nothing but that change is
/// asked of the store. Where the title changes, the directory has been renamed before, and where it
/// does not, no directory is touched.
#[verifier::rlimit(50)]
pub proof fn law_updated_filerequests_are_stored(
    update: Filerequest,
    handling: crate::api_server::laws::Handling,
)
    requires
        handling.is_of(ClientAction::UpdateFilerequest(update)),
        handling.is_over(),
    ensures
        handling.answered(Answer::Unit(Ok(()))) <==> handling.got(
            Query::Db(DbCommand::UpdateFilerequest(update)),
            Reply::Db(Answer::Unit(Ok(()))),
        ),
        forall|query: Query| #[trigger]
            handling.asked(query) ==> {
                ||| query == Query::Db(DbCommand::GetFilerequest(update.id))
                ||| query == Query::Db(DbCommand::UpdateFilerequest(update))
                ||| query matches Query::Host(HostCommand::RenameResource { .. })
            },
        forall|error: DbError| #[trigger]
            handling.got(
                Query::Db(DbCommand::UpdateFilerequest(update)),
                Reply::Db(Answer::Unit(Err(error))),
            ) ==> handling.answered(Answer::Unit(Err(FilerequestError::DatabaseError(error)))),
        forall|error: DbError| #[trigger]
            handling.got(
                Query::Db(DbCommand::GetFilerequest(update.id)),
                Reply::Db(Answer::Filerequest(Err(error))),
            ) ==> handling.answered(Answer::Unit(Err(FilerequestError::DatabaseError(error)))),
        forall|stored: Filerequest| #[trigger]
            handling.got(
                Query::Db(DbCommand::GetFilerequest(update.id)),
                Reply::Db(Answer::Filerequest(Ok(stored))),
            ) && stored.title@ == update.title@ ==> handling.asked(
                Query::Db(DbCommand::UpdateFilerequest(update)),
            ) && forall|query: Query| #[trigger] handling.asked(query) ==> !(query is Host),
{
    crate::brain::flows::lemma_first_steps(handling);
    crate::brain::flows::lemma_short_handling(handling);
}

/// Where a client changes the title of a file request, the store is asked for the change exactly
/// where the host has renamed the directory, from the name that belongs to the id and the present
/// title to the name that belongs to the same id and the new title.
#[verifier::rlimit(50)]
pub proof fn law_directories_follow_titles(
    update: Filerequest,
    stored: Filerequest,
    handling: crate::api_server::laws::Handling,
)
    requires
        handling.is_of(ClientAction::UpdateFilerequest(update)),
        handling.is_over(),
        handling.got(
            Query::Db(DbCommand::GetFilerequest(update.id)),
            Reply::Db(Answer::Filerequest(Ok(stored))),
        ),
        stored.title@ != update.title@,
    ensures
        forall|from: FileNamespace, to: FileNamespace| #[trigger]
            handling.asked(Query::Host(HostCommand::RenameResource { from, to })) ==> {
                &&& from@.names.len() == 1
                &&& to@.names.len() == 1
                &&& !from@.is_file
                &&& !to@.is_file
                &&& exists|separator: char|
                    {
                        &&& from@.names[0]
                            == #[trigger] crate::filerequest_drive_handler::dir_name_for(
                            stored.id@,
                            stored.title@,
                            separator,
                        )
                        &&& to@.names[0] == crate::filerequest_drive_handler::dir_name_for(
                            stored.id@,
                            update.title@,
                            separator,
                        )
                    }
            },
        forall|from: FileNamespace, to: FileNamespace| #[trigger]
            handling.got(
                Query::Host(HostCommand::RenameResource { from, to }),
                Reply::Host(Ok(())),
            ) ==> handling.asked(Query::Db(DbCommand::UpdateFilerequest(update))),
        handling.asked(Query::Db(DbCommand::UpdateFilerequest(update))) ==> exists|
            from: FileNamespace,
            to: FileNamespace,
        | #[trigger]
            handling.got(
                Query::Host(HostCommand::RenameResource { from, to }),
                Reply::Host(Ok(())),
            ),
{
    crate::brain::flows::lemma_first_steps(handling);
    crate::brain::flows::lemma_short_handling(handling);
    if handling.steps.len() > 1 {
        if let (
            Next::Await(Query::Host(HostCommand::RenameResource { from, to }), _),
            Next::Await(_, state),
        ) = (handling.steps[1].next, handling.steps[0].next) {
            let (before, after) = choose|
                before: crate::brain::state::EphemeralView,
                after: crate::brain::state::EphemeralView,
            | #[trigger]
                crate::brain::handle_action::resumed(
                    state,
                    handling.replies[0],
                    before,
                    after,
                    handling.steps[1],
                );
            assert(from@.names[0] == crate::filerequest_drive_handler::dir_name_for(
                stored.id@,
                stored.title@,
                before.separator,
            ));
            if handling.steps.len() > 2 && handling.replies[1] == Reply::Host(Ok(())) {
                assert(handling.got(
                    Query::Host(HostCommand::RenameResource { from, to }),
                    Reply::Host(Ok(())),
                ));
            }
        }
    }
}

/// A client that creates a file request is told its id exactly where the store has given it that id
/// and the host has made its directory. Where the host could not, the store is asked to delete it
/// again, and nothing else is ever deleted.
#[verifier::rlimit(50)]
pub proof fn law_created_filerequests_have_directories(
    request: CreateFilerequest,
    handling: crate::api_server::laws::Handling,
)
    requires
        handling.is_of(ClientAction::CreateFilerequest(request)),
        handling.is_over(),
    ensures
        forall|id: FylesId| #[trigger]
            handling.answered(Answer::Id(Ok(id))) ==> {
                &&& handling.got(
                    Query::Db(DbCommand::CreateFilerequest(request)),
                    Reply::Db(Answer::Id(Ok(id))),
                )
                &&& exists|directory: FileNamespace| #[trigger]
                    handling.got(
                        Query::Host(HostCommand::CreateFilerequestResource(directory)),
                        Reply::Host(Ok(())),
                    )
                &&& !handling.asked(Query::Db(DbCommand::DeleteFilerequest(id)))
            },
        forall|id: FylesId, directory: FileNamespace| #[trigger]
            handling.got(
                Query::Db(DbCommand::CreateFilerequest(request)),
                Reply::Db(Answer::Id(Ok(id))),
            ) && #[trigger] handling.got(
                Query::Host(HostCommand::CreateFilerequestResource(directory)),
                Reply::Host(Ok(())),
            ) ==> handling.answered(Answer::Id(Ok(id))),
        forall|id: FylesId, directory: FileNamespace| #[trigger]
            handling.got(
                Query::Db(DbCommand::CreateFilerequest(request)),
                Reply::Db(Answer::Id(Ok(id))),
            ) && #[trigger] handling.asked(
                Query::Host(HostCommand::CreateFilerequestResource(directory)),
            ) ==> {
                &&& directory@.names.len() == 1
                &&& !directory@.is_file
                &&& exists|separator: char|
                    directory@.names[0]
                        == #[trigger] crate::filerequest_drive_handler::dir_name_for(
                        id@,
                        request.title@,
                        separator,
                    )
            },
        forall|id: FylesId, directory: FileNamespace, error: String| #[trigger]
            handling.got(
                Query::Db(DbCommand::CreateFilerequest(request)),
                Reply::Db(Answer::Id(Ok(id))),
            ) && #[trigger] handling.got(
                Query::Host(HostCommand::CreateFilerequestResource(directory)),
                Reply::Host(Err(error)),
            ) ==> handling.asked(Query::Db(DbCommand::DeleteFilerequest(id))),
        forall|id: FylesId| #[trigger]
            handling.asked(Query::Db(DbCommand::DeleteFilerequest(id))) ==> handling.got(
                Query::Db(DbCommand::CreateFilerequest(request)),
                Reply::Db(Answer::Id(Ok(id))),
            ),
        forall|error: DbError| #[trigger]
            handling.got(
                Query::Db(DbCommand::CreateFilerequest(request)),
                Reply::Db(Answer::Id(Err(error))),
            ) ==> handling.answered(Answer::Id(Err(FilerequestError::DatabaseError(error)))),
        forall|query: Query| #[trigger]
            handling.asked(query) ==> {
                ||| query == Query::Db(DbCommand::CreateFilerequest(request))
                ||| query matches Query::Host(HostCommand::CreateFilerequestResource(_))
                ||| query matches Query::Db(DbCommand::DeleteFilerequest(_))
            },
{
    crate::brain::flows::lemma_first_steps(handling);
    crate::brain::flows::lemma_short_handling(handling);
    if handling.steps.len() > 1 {
        if let (
            Next::Await(Query::Host(HostCommand::CreateFilerequestResource(directory)), _),
            Reply::Db(Answer::Id(Ok(id))),
            Next::Await(_, state),
        ) = (handling.steps[1].next, handling.replies[0], handling.steps[0].next) {
            let (before, after) = choose|
                before: crate::brain::state::EphemeralView,
                after: crate::brain::state::EphemeralView,
            | #[trigger]
                crate::brain::handle_action::resumed(
                    state,
                    handling.replies[0],
                    before,
                    after,
                    handling.steps[1],
                );
            assert(directory@.names[0] == crate::filerequest_drive_handler::dir_name_for(
                id@,
                request.title@,
                before.separator,
            ));
            if handling.steps.len() > 2 && handling.replies[1] == Reply::Host(Ok(())) {
                assert(handling.got(
                    Query::Host(HostCommand::CreateFilerequestResource(directory)),
                    Reply::Host(Ok(())),
                ));
            }
        }
    }
}

/// A client that deletes the file request of another is told that it was deleted exactly where the
/// store has deleted that one. Before that, the files for it were cancelled, by the id and the peer
/// that its owner knows it by.
#[verifier::rlimit(50)]
pub proof fn law_deleted_remote_requests_are_deleted(
    id: FylesId,
    handling: crate::api_server::laws::Handling,
)
    requires
        handling.is_of(ClientAction::DeleteRemoteFilerequest(id)),
        handling.is_over(),
    ensures
        handling.answered(Answer::Flag(Ok(true))) <==> handling.got(
            Query::Db(DbCommand::DeleteRemoteFilerequest(id)),
            Reply::Db(Answer::Unit(Ok(()))),
        ),
        !handling.answered(Answer::Flag(Ok(false))),
        forall|remote: RemoteFilerequest| #[trigger]
            handling.got(
                Query::Db(DbCommand::GetRemoteFilerequest(id)),
                Reply::Db(Answer::RemoteFilerequest(Ok(remote))),
            ) ==> handling.asked(
                Query::Network(
                    NetworkCommand::CancelFilesForRemoteFilerequest {
                        target_filerequest_id: remote.filerequest_id,
                        peer_id: remote.peer_id,
                    },
                ),
            ),
        handling.asked(Query::Db(DbCommand::DeleteRemoteFilerequest(id))) <==> exists|
            remote: RemoteFilerequest,
            known: bool,
        |
            {
                &&& #[trigger] handling.got(
                    Query::Db(DbCommand::GetRemoteFilerequest(id)),
                    Reply::Db(Answer::RemoteFilerequest(Ok(remote))),
                )
                &&& #[trigger] handling.got(
                    Query::Network(
                        NetworkCommand::CancelFilesForRemoteFilerequest {
                            target_filerequest_id: remote.filerequest_id,
                            peer_id: remote.peer_id,
                        },
                    ),
                    Reply::Network(NetworkReply::Cancelled(Ok(known))),
                )
            },
        forall|error: DbError| #[trigger]
            handling.got(
                Query::Db(DbCommand::DeleteRemoteFilerequest(id)),
                Reply::Db(Answer::Unit(Err(error))),
            ) ==> handling.answered(Answer::Flag(Err(FilerequestError::DatabaseError(error)))),
        forall|error: DbError| #[trigger]
            handling.got(
                Query::Db(DbCommand::GetRemoteFilerequest(id)),
                Reply::Db(Answer::RemoteFilerequest(Err(error))),
            ) ==> handling.answered(Answer::Flag(Err(FilerequestError::DatabaseError(error)))),
        forall|query: Query| #[trigger]
            handling.asked(query) ==> {
                ||| query == Query::Db(DbCommand::GetRemoteFilerequest(id))
                ||| query matches Query::Network(
                    NetworkCommand::CancelFilesForRemoteFilerequest { .. },
                )
                ||| query == Query::Db(DbCommand::DeleteRemoteFilerequest(id))
            },
{
    crate::brain::flows::lemma_first_steps(handling);
    crate::brain::flows::lemma_short_handling(handling);
    if handling.steps.len() > 2 {
        if let (
            Reply::Db(Answer::RemoteFilerequest(Ok(remote))),
            Reply::Network(NetworkReply::Cancelled(Ok(known))),
        ) = (handling.replies[0], handling.replies[1]) {
            assert(handling.got(
                Query::Db(DbCommand::GetRemoteFilerequest(id)),
                Reply::Db(Answer::RemoteFilerequest(Ok(remote))),
            ));
            assert(handling.got(
                Query::Network(
                    NetworkCommand::CancelFilesForRemoteFilerequest {
                        target_filerequest_id: remote.filerequest_id,
                        peer_id: remote.peer_id,
                    },
                ),
                Reply::Network(NetworkReply::Cancelled(Ok(known))),
            ));
        }
    }
}

/// Files that a client adds are handed to the network node one for one: each with the id that the
/// store gave it, under the path that was asked for in its place, for the peer and under the id that
/// the owner of the request knows it by.
#[verifier::rlimit(50)]
pub proof fn law_new_files_are_sent_one_for_one(
    files: CreatePendingFiles,
    remote: RemoteFilerequest,
    ids: Vec<FylesId>,
    handling: crate::api_server::laws::Handling,
)
    requires
        handling.is_of(ClientAction::CreatePendingFiles(files)),
        handling.is_over(),
        handling.got(
            Query::Db(DbCommand::GetRemoteFilerequest(files.target_filerequest_id)),
            Reply::Db(Answer::RemoteFilerequest(Ok(remote))),
        ),
        handling.got(
            Query::Db(DbCommand::CreatePendingFiles(files)),
            Reply::Db(Answer::Ids(Ok(ids))),
        ),
        ids@.len() == files.file_infos@.len(),
    ensures
        exists|sent: Vec<FileToSend>| #[trigger]
            handling.asked(Query::Network(NetworkCommand::SendFiles(sent))),
        forall|sent: Vec<FileToSend>| #[trigger]
            handling.asked(Query::Network(NetworkCommand::SendFiles(sent))) ==> {
                &&& sent@.len() == files.file_infos@.len()
                &&& forall|i: int|
                    0 <= i < sent@.len() ==> {
                        &&& (#[trigger] sent@[i]).id@ == ids@[i]@
                        &&& sent@[i].file_path@ == files.file_infos@[i].path@
                        &&& sent@[i].peer_id@ == remote.peer_id@
                        &&& sent@[i].contact_id@ == remote.contact_id@
                        &&& sent@[i].filerequest_id@ == remote.filerequest_id@
                        &&& sent@[i].retry_count == 0
                        &&& sent@[i].status is Pending
                    }
            },
        handling.answered(Answer::Ids(Ok(ids))),
{
    crate::brain::flows::lemma_first_steps(handling);
    crate::brain::flows::lemma_short_handling(handling);
    assert(handling.steps.len() > 2);
    if let Next::Await(Query::Network(NetworkCommand::SendFiles(sent)), _) =
        handling.steps[2].next {
        let views = crate::domain_models::views(sent@);
        assert(handling.asked(Query::Network(NetworkCommand::SendFiles(sent))));
        assert(views.len() == sent@.len());
        assert forall|i: int| 0 <= i < sent@.len() implies {
            &&& (#[trigger] sent@[i]).id@ == ids@[i]@
            &&& sent@[i].file_path@ == files.file_infos@[i].path@
            &&& sent@[i].peer_id@ == remote.peer_id@
            &&& sent@[i].contact_id@ == remote.contact_id@
            &&& sent@[i].filerequest_id@ == remote.filerequest_id@
            &&& sent@[i].retry_count == 0
            &&& sent@[i].status is Pending
        } by {
            assert(views[i] == sent@[i]@);
            assert(crate::domain_models::views(ids@)[i] == ids@[i]@);
        }
    }
}

/// Files are added only for a file request that the store knows, and exactly as they were asked for;
/// the client is told the ids that the store gave them, and only those.
#[verifier::rlimit(50)]
pub proof fn law_new_files_are_stored_as_asked(
    files: CreatePendingFiles,
    handling: crate::api_server::laws::Handling,
)
    requires
        handling.is_of(ClientAction::CreatePendingFiles(files)),
        handling.is_over(),
    ensures
        forall|ids: Vec<FylesId>|
            #![trigger handling.answered(Answer::Ids(Ok(ids)))]
            #![trigger handling.got(Query::Db(DbCommand::CreatePendingFiles(files)), Reply::Db(Answer::Ids(Ok(ids))))]
            handling.answered(Answer::Ids(Ok(ids))) <==> handling.got(
                Query::Db(DbCommand::CreatePendingFiles(files)),
                Reply::Db(Answer::Ids(Ok(ids))),
            ),
        handling.asked(Query::Db(DbCommand::CreatePendingFiles(files))) <==> exists|
            remote: RemoteFilerequest,
        | #[trigger]
            handling.got(
                Query::Db(DbCommand::GetRemoteFilerequest(files.target_filerequest_id)),
                Reply::Db(Answer::RemoteFilerequest(Ok(remote))),
            ),
        forall|error: DbError| #[trigger]
            handling.got(
                Query::Db(DbCommand::CreatePendingFiles(files)),
                Reply::Db(Answer::Ids(Err(error))),
            ) ==> handling.answered(Answer::Ids(Err(FilerequestError::DatabaseError(error)))),
        forall|error: DbError| #[trigger]
            handling.got(
                Query::Db(DbCommand::GetRemoteFilerequest(files.target_filerequest_id)),
                Reply::Db(Answer::RemoteFilerequest(Err(error))),
            ) ==> exists|message: String| #[trigger]
                handling.answered(Answer::Ids(Err(FilerequestError::InputError(message))))
                    && message@ == "No filerequest known with id "@ + files.target_filerequest_id@,
        forall|query: Query| #[trigger]
            handling.asked(query) ==> {
                ||| query == Query::Db(DbCommand::GetRemoteFilerequest(files.target_filerequest_id))
                ||| query == Query::Db(DbCommand::CreatePendingFiles(files))
                ||| query matches Query::Network(NetworkCommand::SendFiles(_))
            },
{
    crate::brain::flows::lemma_first_steps(handling);
    crate::brain::flows::lemma_short_handling(handling);
    if let Reply::Db(Answer::RemoteFilerequest(Ok(remote))) = handling.replies[0] {
        assert(handling.got(
            Query::Db(DbCommand::GetRemoteFilerequest(files.target_filerequest_id)),
            Reply::Db(Answer::RemoteFilerequest(Ok(remote))),
        ));
    } else if let Effect::Respond(
        Response::Answer(Answer::Ids(Err(FilerequestError::InputError(message)))),
    ) = handling.steps[1].effects@[0] {
        assert(handling.does_at(1, handling.steps[1].effects@[0]));
        assert(handling.does(handling.steps[1].effects@[0]));
        assert(handling.answered(Answer::Ids(Err(FilerequestError::InputError(message)))));
    }
}

/// A client that deletes a file that is to be sent is told that it was deleted only where the store
/// was asked to delete that file and did. A file that is not done with is deleted only after the
/// network node was asked to cancel it and did not fail; where it does not know the file, the store
/// is asked to delete it all the same. Nothing else is deleted.
#[verifier::rlimit(50)]
pub proof fn law_deleted_files_are_deleted(
    id: FylesId,
    handling: crate::api_server::laws::Handling,
)
    requires
        handling.is_of(ClientAction::DeletePendingFile(id)),
        handling.is_over(),
    ensures
        handling.answered(Answer::Unit(Ok(()))) <==> {
            &&& handling.got(
                Query::Db(DbCommand::DeletePendingFile(id)),
                Reply::Db(Answer::Unit(Ok(()))),
            )
            &&& !handling.got(
                Query::Network(NetworkCommand::CancelFile(id)),
                Reply::Network(NetworkReply::Cancelled(Ok(false))),
            )
        },
        forall|file: PendingFile| #[trigger]
            handling.got(
                Query::Db(DbCommand::GetPendingFile(id)),
                Reply::Db(Answer::PendingFile(Ok(file))),
            ) ==> {
                if file.status is Pending || file.status is InProgress {
                    &&& handling.asked(Query::Network(NetworkCommand::CancelFile(id)))
                    &&& handling.asked(Query::Db(DbCommand::DeletePendingFile(id))) <==> exists|
                        known: bool,
                    | #[trigger]
                        handling.got(
                            Query::Network(NetworkCommand::CancelFile(id)),
                            Reply::Network(NetworkReply::Cancelled(Ok(known))),
                        )
                } else {
                    &&& !handling.asked(Query::Network(NetworkCommand::CancelFile(id)))
                    &&& handling.asked(Query::Db(DbCommand::DeletePendingFile(id)))
                }
            },
        forall|error: DbError| #[trigger]
            handling.got(
                Query::Db(DbCommand::GetPendingFile(id)),
                Reply::Db(Answer::PendingFile(Err(error))),
            ) ==> handling.answered(Answer::Unit(Err(FilerequestError::DatabaseError(error)))),
        handling.answered(Answer::Unit(Ok(()))) || exists|error: DbError| #[trigger]
            handling.answered(Answer::Unit(Err(FilerequestError::DatabaseError(error)))),
        forall|query: Query| #[trigger]
            handling.asked(query) ==> {
                ||| query == Query::Db(DbCommand::GetPendingFile(id))
                ||| query == Query::Network(NetworkCommand::CancelFile(id))
                ||| query == Query::Db(DbCommand::DeletePendingFile(id))
            },
{
    crate::brain::flows::lemma_first_steps(handling);
    crate::brain::flows::lemma_short_handling(handling);
    let last = handling.steps.len() - 1;
    if let Effect::Respond(
        Response::Answer(Answer::Unit(Err(FilerequestError::DatabaseError(error)))),
    ) = handling.steps[last].effects@[0] {
        assert(handling.does(handling.steps[last].effects@[0]));
        assert(handling.answered(Answer::Unit(Err(FilerequestError::DatabaseError(error)))));
    }
    if handling.steps.len() > 2 {
        if let Reply::Network(NetworkReply::Cancelled(Ok(known))) = handling.replies[1] {
            assert(handling.got(
                Query::Network(NetworkCommand::CancelFile(id)),
                Reply::Network(NetworkReply::Cancelled(Ok(known))),
            ));
        }
    }
}

/// A client is told the identifier of the node as the network node derives it from the keys that
/// are stored.
#[verifier::rlimit(50)]
pub proof fn law_the_node_is_known_by_its_stored_keys(
    handling: crate::api_server::laws::Handling,
)
    requires
        handling.is_of(ClientAction::GetNodePeerId),
        handling.is_over(),
    ensures
        forall|peer_id: String| #[trigger]
            handling.answered(Answer::Text(Ok(peer_id))) ==> exists|info: NodeInfo|
                {
                    &&& #[trigger] handling.got(
                        Query::Db(DbCommand::GetNodeKeys),
                        Reply::Db(Answer::NodeInfo(Ok(info))),
                    )
                    &&& handling.got(
                        Query::Network(NetworkCommand::DisplayKeypair(info.node_key_pair)),
                        Reply::Network(NetworkReply::Shown(Ok(peer_id))),
                    )
                },
        forall|info: NodeInfo, peer_id: String| #[trigger]
            handling.got(
                Query::Network(NetworkCommand::DisplayKeypair(info.node_key_pair)),
                Reply::Network(NetworkReply::Shown(Ok(peer_id))),
            ) ==> handling.answered(Answer::Text(Ok(peer_id))),
        forall|error: DbError| #[trigger]
            handling.got(
                Query::Db(DbCommand::GetNodeKeys),
                Reply::Db(Answer::NodeInfo(Err(error))),
            ) ==> handling.answered(Answer::Text(Err(FilerequestError::DatabaseError(error)))),
        forall|query: Query| #[trigger]
            handling.asked(query) ==> {
                ||| query == Query::Db(DbCommand::GetNodeKeys)
                ||| query matches Query::Network(NetworkCommand::DisplayKeypair(_))
            },
{
    crate::brain::flows::lemma_first_steps(handling);
    crate::brain::flows::lemma_short_handling(handling);
    if let Reply::Db(Answer::NodeInfo(Ok(info))) = handling.replies[0] {
        assert(handling.got(
            Query::Db(DbCommand::GetNodeKeys),
            Reply::Db(Answer::NodeInfo(Ok(info))),
        ));
    }
}

/// A client that changes the identity of the node is told that it was changed exactly where the
/// store was asked for that identity and stored it; the network node is told the same identity.
#[verifier::rlimit(50)]
pub proof fn law_new_identities_are_stored_and_announced(
    identity: SelfContact,
    handling: crate::api_server::laws::Handling,
)
    requires
        handling.is_of(ClientAction::UpdateIdentity(identity)),
        handling.is_over(),
    ensures
        exists|stored: SelfContact, reply: DbReply, answer: Answer<FilerequestError>|
            {
                &&& stored@ == identity@
                &&& #[trigger] handling.got(
                    Query::Db(DbCommand::UpdateIdentity(stored)),
                    Reply::Db(reply),
                )
                &&& #[trigger] handling.answered(answer)
                &&& crate::brain::flows::tells(reply, answer)
            },
        handling.asked(
            Query::Network(
                NetworkCommand::UpdateIdentity { contact_id: identity.id, keys: identity.keys },
            ),
        ),
        forall|query: Query| #[trigger]
            handling.asked(query) ==> match query {
                Query::Db(DbCommand::UpdateIdentity(stored)) => stored@ == identity@,
                Query::Network(NetworkCommand::UpdateIdentity { contact_id, keys }) => contact_id
                    == identity.id && keys == identity.keys,
                _ => false,
            },
{
    crate::brain::flows::lemma_first_steps(handling);
    crate::brain::flows::lemma_short_handling(handling);
    if let (
        Next::Await(Query::Db(DbCommand::UpdateIdentity(stored)), _),
        Reply::Db(Answer::Unit(result)),
    ) = (handling.steps[0].next, handling.replies[0]) {
        assert(handling.got(
            Query::Db(DbCommand::UpdateIdentity(stored)),
            Reply::Db(Answer::Unit(result)),
        ));
        let answer: Answer<FilerequestError> = Answer::Unit(match result {
            Ok(_) => Ok(()),
            Err(error) => Err(FilerequestError::DatabaseError(error)),
        });
        assert(handling.steps[2].effects@[0] == Effect::Respond(Response::Answer(answer)));
        assert(handling.answered(answer));
    }
}

/// A client is told that a backup was made exactly where the host has opened a file for it and the
/// store has written itself there. The store is not restored on the way.
#[verifier::rlimit(50)]
pub proof fn law_backups_are_written(handling: crate::api_server::laws::Handling)
    requires
        handling.is_of(ClientAction::BackupData),
        handling.is_over(),
    ensures
        handling.answered(Answer::Unit(Ok(()))) <==> handling.got(
            Query::Db(DbCommand::BackupDatabase),
            Reply::Db(Answer::Unit(Ok(()))),
        ),
        handling.asked(Query::Db(DbCommand::BackupDatabase)) <==> handling.got(
            Query::Host(HostCommand::OpenBackupFile),
            Reply::Host(Ok(())),
        ),
        forall|source: String| #[trigger]
            handling.got(Query::Host(HostCommand::OpenBackupFile), Reply::Host(Err(source)))
                ==> handling.answered(Answer::Unit(Err(FilerequestError::HostError { source }))),
        forall|error: DbError| #[trigger]
            handling.got(
                Query::Db(DbCommand::BackupDatabase),
                Reply::Db(Answer::Unit(Err(error))),
            ) ==> handling.answered(Answer::Unit(Err(FilerequestError::DatabaseError(error)))),
        forall|query: Query| #[trigger]
            handling.asked(query) ==> {
                ||| query == Query::Host(HostCommand::OpenBackupFile)
                ||| query == Query::Db(DbCommand::BackupDatabase)
            },
{
    crate::brain::flows::lemma_first_steps(handling);
    crate::brain::flows::lemma_short_handling(handling);
}

/// Whether clients hear that the store was replaced by a backup.
pub open spec fn announces_restore(handling: crate::api_server::laws::Handling) -> bool {
    exists|message: ServerMessage|
        {
            &&& #[trigger] handling.does(Effect::Push(message))
            &&& message.message matches Some(Message::DatabaseRestoredFromBackup(_))
        }
}

/// A client is told that the store was restored, and all clients hear of it, exactly where the host
/// has opened the backup that was named and the store has restored itself from it. No backup is
/// written on the way.
#[verifier::rlimit(50)]
pub proof fn law_backups_are_restored(uri: Uri, handling: crate::api_server::laws::Handling)
    requires
        handling.is_of(ClientAction::RestoreData(uri)),
        handling.is_over(),
    ensures
        handling.answered(Answer::Unit(Ok(()))) <==> handling.got(
            Query::Db(DbCommand::RestoreDatabase),
            Reply::Db(Answer::Unit(Ok(()))),
        ),
        announces_restore(handling) <==> handling.got(
            Query::Db(DbCommand::RestoreDatabase),
            Reply::Db(Answer::Unit(Ok(()))),
        ),
        handling.asked(Query::Db(DbCommand::RestoreDatabase)) <==> handling.got(
            Query::Host(HostCommand::AccessFileForReading(uri)),
            Reply::Host(Ok(())),
        ),
        forall|source: String| #[trigger]
            handling.got(
                Query::Host(HostCommand::AccessFileForReading(uri)),
                Reply::Host(Err(source)),
            ) ==> handling.answered(Answer::Unit(Err(FilerequestError::HostError { source }))),
        forall|error: DbError| #[trigger]
            handling.got(
                Query::Db(DbCommand::RestoreDatabase),
                Reply::Db(Answer::Unit(Err(error))),
            ) ==> handling.answered(Answer::Unit(Err(FilerequestError::DatabaseError(error)))),
        forall|query: Query| #[trigger]
            handling.asked(query) ==> {
                ||| query == Query::Host(HostCommand::AccessFileForReading(uri))
                ||| query == Query::Db(DbCommand::RestoreDatabase)
            },
{
    crate::brain::flows::lemma_first_steps(handling);
    crate::brain::flows::lemma_short_handling(handling);
    if handling.steps.len() > 2 && handling.replies[1] == Reply::Db(Answer::Unit(Ok(()))) {
        if let Effect::Push(message) = handling.steps[2].effects@[1] {
            assert(handling.does(Effect::Push(message)));
        }
    }
}

/// A client that changes the settings is told that they were changed exactly where the network node
/// has accepted those settings and the store has stored the same.
#[verifier::rlimit(50)]
pub proof fn law_settings_are_stored_once_they_are_accepted(
    settings: Vec<u8>,
    handling: crate::api_server::laws::Handling,
)
    requires
        handling.is_of(ClientAction::UpdateSettings(settings)),
        handling.is_over(),
    ensures
        handling.answered(Answer::Unit(Ok(()))) <==> handling.got(
            Query::Db(DbCommand::StoreSettings(settings)),
            Reply::Db(Answer::Unit(Ok(()))),
        ),
        handling.asked(Query::Db(DbCommand::StoreSettings(settings))) <==> exists|
            applied: Vec<u8>,
        | #[trigger]
            handling.got(
                Query::Network(NetworkCommand::ApplySettings(applied)),
                Reply::Network(NetworkReply::Done(Ok(()))),
            ),
        forall|applied: Vec<u8>, error: P2pError| #[trigger]
            handling.got(
                Query::Network(NetworkCommand::ApplySettings(applied)),
                Reply::Network(NetworkReply::Done(Err(error))),
            ) ==> handling.answered(Answer::Unit(Err(FilerequestError::P2pNodeError(error)))),
        forall|error: DbError| #[trigger]
            handling.got(
                Query::Db(DbCommand::StoreSettings(settings)),
                Reply::Db(Answer::Unit(Err(error))),
            ) ==> handling.answered(Answer::Unit(Err(FilerequestError::DatabaseError(error)))),
        forall|query: Query| #[trigger]
            handling.asked(query) ==> match query {
                Query::Network(NetworkCommand::ApplySettings(applied)) => applied@ == settings@,
                Query::Db(DbCommand::StoreSettings(stored)) => stored == settings,
                _ => false,
            },
{
    crate::brain::flows::lemma_first_steps(handling);
    crate::brain::flows::lemma_short_handling(handling);
    if let (Next::Await(Query::Network(NetworkCommand::ApplySettings(applied)), _)) =
        handling.steps[0].next {
        if handling.replies[0] == Reply::Network(NetworkReply::Done(Ok(()))) {
            assert(handling.got(
                Query::Network(NetworkCommand::ApplySettings(applied)),
                Reply::Network(NetworkReply::Done(Ok(()))),
            ));
        }
    }
}

/// A challenge that a client was told elsewhere is used with the peer that it names, and nothing
/// else happens.
pub proof fn law_challenges_are_used_with_their_peer(
    invite: SelfContactInviteChallenge,
    share: ContactShareChallenge,
    peer_id: PeerIdWrapper,
    on_invite: crate::api_server::laws::Handling,
    on_share: crate::api_server::laws::Handling,
)
    requires
        on_invite.is_of(ClientAction::UseSelfContactInviteChallenge(invite, peer_id)),
        on_share.is_of(ClientAction::UseContactShareChallenge(share, peer_id)),
        on_invite.is_over(),
        on_share.is_over(),
    ensures
        forall|query: Query| #[trigger]
            on_invite.asked(query) <==> query == Query::Network(
                NetworkCommand::UseSelfContactInvite { invite_code: invite, peer_id },
            ),
        forall|query: Query| #[trigger]
            on_share.asked(query) <==> query == Query::Network(
                NetworkCommand::UseContactShareChallenge { share_code: share, peer_id },
            ),
        on_invite.responded(Response::Done),
        on_share.responded(Response::Done),
{
    lemma_used_invite(invite, peer_id, on_invite);
    lemma_used_share(share, peer_id, on_share);
}

#[verifier::rlimit(50)]
proof fn lemma_used_invite(
    invite: SelfContactInviteChallenge,
    peer_id: PeerIdWrapper,
    handling: crate::api_server::laws::Handling,
)
    requires
        handling.is_of(ClientAction::UseSelfContactInviteChallenge(invite, peer_id)),
        handling.is_over(),
    ensures
        forall|query: Query| #[trigger]
            handling.asked(query) <==> query == Query::Network(
                NetworkCommand::UseSelfContactInvite { invite_code: invite, peer_id },
            ),
        handling.responded(Response::Done),
{
    crate::brain::flows::lemma_first_steps(handling);
    crate::brain::flows::lemma_short_handling(handling);
}

#[verifier::rlimit(50)]
proof fn lemma_used_share(
    share: ContactShareChallenge,
    peer_id: PeerIdWrapper,
    handling: crate::api_server::laws::Handling,
)
    requires
        handling.is_of(ClientAction::UseContactShareChallenge(share, peer_id)),
        handling.is_over(),
    ensures
        forall|query: Query| #[trigger]
            handling.asked(query) <==> query == Query::Network(
                NetworkCommand::UseContactShareChallenge { share_code: share, peer_id },
            ),
        handling.responded(Response::Done),
{
    crate::brain::flows::lemma_first_steps(handling);
    crate::brain::flows::lemma_short_handling(handling);
}

/// Whether the store is asked for this once and nothing else, and the client is told its answer.
pub open spec fn hands_on(
    handling: crate::api_server::laws::Handling,
    command: DbCommand,
) -> bool {
    &&& handling.replies.len() == 1
    &&& forall|query: Query| #[trigger] handling.asked(query) <==> query == Query::Db(command)
    &&& exists|reply: DbReply, answer: Answer<FilerequestError>|
        {
            &&& #[trigger] handling.got(Query::Db(command), Reply::Db(reply))
            &&& #[trigger] handling.answered(answer)
            &&& crate::brain::flows::tells(reply, answer)
        }
}

/// What a client wants to read, or to change in the store alone, is asked of the store as it stands,
/// and the client is told what the store answers. Nothing else is asked of anybody.
#[verifier::rlimit(50)]
pub proof fn law_the_answer_of_the_store_is_handed_on(
    action: ClientAction,
    handling: crate::api_server::laws::Handling,
)
    requires
        handling.is_of(action),
        handling.is_over(),
    ensures
        match action {
            ClientAction::ReadFilerequest(id) => hands_on(handling, DbCommand::GetFilerequest(id)),
            ClientAction::ListFilerequests => hands_on(handling, DbCommand::GetFilerequests),
            ClientAction::DeleteFilerequest(id) => hands_on(
                handling,
                DbCommand::DeleteFilerequest(id),
            ),
            ClientAction::GetContactName(id) => hands_on(handling, DbCommand::GetContactName(id)),
            ClientAction::GetContactNames(ids) => hands_on(
                handling,
                DbCommand::GetContactNames(ids),
            ),
            ClientAction::GetContact(id) => hands_on(handling, DbCommand::GetContact(id)),
            ClientAction::ListContacts => hands_on(handling, DbCommand::GetContacts),
            ClientAction::UpdateContact(contact) => hands_on(
                handling,
                DbCommand::UpdateContact(contact),
            ),
            ClientAction::DeleteContact(id) => hands_on(handling, DbCommand::DeleteContact(id)),
            ClientAction::RegisterContact(contact) => hands_on(
                handling,
                DbCommand::RegisterContact(contact),
            ),
            ClientAction::GetFullSelfContact => hands_on(handling, DbCommand::GetSelfContact),
            ClientAction::GetSelfContactDisplay => hands_on(
                handling,
                DbCommand::GetSelfContactForDisplay,
            ),
            ClientAction::SharePublicSelfContact => hands_on(
                handling,
                DbCommand::GetSharablePublicSelfContact,
            ),
            ClientAction::UpdateSelfContactName(name) => hands_on(
                handling,
                DbCommand::UpdateSelfContactName(name),
            ),
            ClientAction::CreateRemoteFilerequest(request) => hands_on(
                handling,
                DbCommand::CreateRemoteFilerequest(request),
            ),
            ClientAction::GetRemoteFilerequest(id) => hands_on(
                handling,
                DbCommand::GetRemoteFilerequest(id),
            ),
            ClientAction::GetRemoteFilerequestsByContact(id) => hands_on(
                handling,
                DbCommand::GetRemoteFilerequestsByContact(id),
            ),
            ClientAction::GetAllRemoteFilerequests => hands_on(
                handling,
                DbCommand::GetAllRemoteFilerequests,
            ),
            ClientAction::UpdateRemoteFilerequest(id, name) => hands_on(
                handling,
                DbCommand::UpdateRemoteFilerequest { id, name },
            ),
            ClientAction::GetPendingFile(id) => hands_on(handling, DbCommand::GetPendingFile(id)),
            ClientAction::GetPendingFiles(id) => hands_on(handling, DbCommand::GetPendingFiles(id)),
            ClientAction::GetAllPendingFiles => hands_on(handling, DbCommand::GetAllPendingFiles),
            ClientAction::ListReceivedFilesForRequest(id) => hands_on(
                handling,
                DbCommand::ListReceivedFiles(id),
            ),
            ClientAction::DeleteReceivedFile(id) => hands_on(
                handling,
                DbCommand::DeleteReceivedFile(id),
            ),
            ClientAction::GetSettings => hands_on(handling, DbCommand::GetSettings),
            _ => true,
        },
{
    crate::brain::flows::lemma_first_steps(handling);
    crate::brain::flows::lemma_short_handling(handling);
    if let Next::Await(Query::Db(command), crate::brain::state::BrainState::Relay) =
        handling.steps[0].next {
        if let Reply::Db(reply) = handling.replies[0] {
            let answer = crate::brain::exchange::relayed(reply);
            assert(handling.steps[1].effects@[0] == Effect::Respond(Response::Answer(answer)));
            assert(handling.answered(answer));
            assert(crate::brain::flows::tells(reply, answer));
            assert(handling.got(Query::Db(command), Reply::Db(reply)));
            assert(hands_on(handling, command));
        }
    }
}

/// A client that asks how the node does is told what the network node tells of itself.
#[verifier::rlimit(50)]
pub proof fn law_the_status_is_that_of_the_network_node(
    handling: crate::api_server::laws::Handling,
)
    requires
        handling.is_of(ClientAction::GetNodeStatus),
        handling.is_over(),
    ensures
        forall|query: Query| #[trigger]
            handling.asked(query) <==> query == Query::Network(NetworkCommand::GetNodeInfo),
        forall|status: NodeStatusInfo|
            #![trigger handling.answered(Answer::NodeStatus(Ok(status)))]
            #![trigger handling.got(Query::Network(NetworkCommand::GetNodeInfo), Reply::Network(NetworkReply::Status(Ok(status))))]
            handling.answered(Answer::NodeStatus(Ok(status))) <==> handling.got(
                Query::Network(NetworkCommand::GetNodeInfo),
                Reply::Network(NetworkReply::Status(Ok(status))),
            ),
        forall|error: P2pError| #[trigger]
            handling.got(
                Query::Network(NetworkCommand::GetNodeInfo),
                Reply::Network(NetworkReply::Status(Err(error))),
            ) ==> handling.answered(Answer::NodeStatus(Err(FilerequestError::P2pNodeError(error)))),
{
    crate::brain::flows::lemma_first_steps(handling);
    crate::brain::flows::lemma_short_handling(handling);
}

/// Whether the step tells the client nothing where something is still waited for, and tells it one
/// thing where nothing is.
pub open spec fn answers_in_the_end(step: Step) -> bool {
    match step.next {
        Next::Await(_, _) => step.effects@.len() == 0,
        Next::Done => {
            &&& step.effects@.len() > 0
            &&& step.effects@[0] is Respond
            &&& forall|k: int|
                0 < k < step.effects@.len() ==> (#[trigger] step.effects@[k] matches Effect::Push(
                    message,
                ) && message.message matches Some(Message::DatabaseRestoredFromBackup(_)))
        },
    }
}

/// Every client is answered once, when all is done, and not before. Of what is done for it others
/// hear only where the store was restored. Only one who waits for the node may have to wait on.
pub proof fn law_clients_are_answered_once(
    request: ApiRequest,
    action: ClientAction,
    awaited: Awaited,
    handling: crate::api_server::laws::Handling,
    n: int,
)
    requires
        crate::api_server::service::dispatches(request, action, awaited),
        !(action is WaitForReady),
        handling.is_of(action),
        0 <= n < handling.steps.len(),
    ensures
        answers_in_the_end(handling.steps[n]),
    decreases n,
{
    if n > 0 {
        law_clients_are_answered_once(request, action, awaited, handling, n - 1);
        crate::api_server::laws::law_every_response_is_understood(
            request,
            action,
            awaited,
            handling,
            n - 1,
        );
        assert(handling.goes_on(n - 1));
    }
}

/// A client that asks the service to stop is told that it will, and nobody is asked for anything.
#[verifier::rlimit(50)]
pub proof fn law_shutdown_is_granted(handling: crate::api_server::laws::Handling)
    requires
        handling.is_of(ClientAction::Shutdown),
    ensures
        handling.answered(Answer::Flag(Ok(true))),
        forall|query: Query| !#[trigger] handling.asked(query),
{
    crate::brain::flows::lemma_first_steps(handling);
    crate::brain::flows::lemma_short_handling(handling);
}

/// The challenge that a client is given is one that the service knows from then on, for as long as
/// such challenges live. No other one becomes known by it, and challenges of the other kind stay as
/// they are.
pub proof fn law_given_challenges_are_known(
    before: crate::brain::state::EphemeralView,
    after_invite: crate::brain::state::EphemeralView,
    after_share: crate::brain::state::EphemeralView,
    on_invite: Step,
    on_share: Step,
)
    requires
        crate::brain::handle_action::client_is_served(
            ClientAction::RegisterSelfContactInviteChallenge,
            before,
            after_invite,
            on_invite,
        ),
        crate::brain::handle_action::client_is_served(
            ClientAction::RegisterContactShareChallenge,
            before,
            after_share,
            on_share,
        ),
    ensures
        on_invite.next is Done,
        on_share.next is Done,
        on_invite.effects@.len() == 1,
        on_share.effects@.len() == 1,
        on_invite.effects@[0] matches Effect::Respond(Response::SelfContactInviteChallenge(given))
            && after_invite.invites.contains_key(given@) && given@.len() == 32
            && after_invite.invites[given@] == before.invite_ttl.total_nanos() && (forall|
            known: Seq<u8>,
        | #[trigger]
            after_invite.invites.contains_key(known) ==> known == given@
                || before.invites.contains_key(known) && after_invite.invites[known]
                == before.invites[known]),
        on_share.effects@[0] matches Effect::Respond(Response::ContactShareChallenge(given))
            && after_share.shares.contains_key(given@) && given@.len() == 32
            && after_share.shares[given@] == before.share_ttl.total_nanos() && (forall|
            known: Seq<u8>,
        | #[trigger]
            after_share.shares.contains_key(known) ==> known == given@
                || before.shares.contains_key(known) && after_share.shares[known]
                == before.shares[known]),
        after_invite.shares == before.shares,
        after_share.invites == before.invites,
        after_invite.waiting == before.waiting,
        after_share.waiting == before.waiting,
{
    if let Effect::Respond(Response::SelfContactInviteChallenge(given)) = on_invite.effects@[0] {
        let all = before.invites.insert(given@, before.invite_ttl.total_nanos());
        assert(after_invite.invites.dom().contains(given@));
        assert(all.dom().contains(given@));
        assert(after_invite.invites[given@] == all[given@]);
        assert forall|known: Seq<u8>| #[trigger]
            after_invite.invites.contains_key(known) implies known == given@
            || before.invites.contains_key(known) && after_invite.invites[known]
            == before.invites[known] by {
            assert(after_invite.invites.dom().contains(known) ==> all.dom().contains(known));
        }
    }
    if let Effect::Respond(Response::ContactShareChallenge(given)) = on_share.effects@[0] {
        let all = before.shares.insert(given@, before.share_ttl.total_nanos());
        assert(after_share.shares.dom().contains(given@));
        assert(all.dom().contains(given@));
        assert(after_share.shares[given@] == all[given@]);
        assert forall|known: Seq<u8>| #[trigger]
            after_share.shares.contains_key(known) implies known == given@
            || before.shares.contains_key(known) && after_share.shares[known]
            == before.shares[known] by {
            assert(after_share.shares.dom().contains(known) ==> all.dom().contains(known));
        }
    }
}

/// A challenge that a client withdraws is not known any more, every other one stays, and the client
/// is told that it is done.
pub proof fn law_only_the_withdrawn_challenge_is_forgotten(
    invite: SelfContactInviteChallenge,
    share: ContactShareChallenge,
    before: crate::brain::state::EphemeralView,
    after_invite: crate::brain::state::EphemeralView,
    after_share: crate::brain::state::EphemeralView,
    on_invite: Step,
    on_share: Step,
)
    requires
        crate::brain::handle_action::client_is_served(
            ClientAction::UnregisterSelfContactInviteChallenge(invite),
            before,
            after_invite,
            on_invite,
        ),
        crate::brain::handle_action::client_is_served(
            ClientAction::UnregisterContactShareChallenge(share),
            before,
            after_share,
            on_share,
        ),
    ensures
        !after_invite.invites.contains_key(invite@),
        forall|other: Seq<u8>|
            other != invite@ ==> (#[trigger] after_invite.invites.contains_key(other)
                <==> before.invites.contains_key(other)),
        after_invite.shares == before.shares,
        !after_share.shares.contains_key(share@),
        forall|other: Seq<u8>|
            other != share@ ==> (#[trigger] after_share.shares.contains_key(other)
                <==> before.shares.contains_key(other)),
        after_share.invites == before.invites,
        on_invite.effects@ == seq![Effect::Respond(Response::Done)],
        on_share.effects@ == seq![Effect::Respond(Response::Done)],
{
}

/// Presenting an invite takes that one away and no other; presenting a challenge takes none away.
pub proof fn law_other_challenges_stay(
    invite: SelfContactInviteChallenge,
    share: ContactShareChallenge,
    before: crate::brain::state::EphemeralView,
    after_invite: crate::brain::state::EphemeralView,
    after_share: crate::brain::state::EphemeralView,
    on_invite: Step,
    on_share: Step,
)
    requires
        crate::brain::handle_action::node_is_served(
            NetworkNodeAction::ValidateSelfContactInviteChallenge(invite),
            before,
            after_invite,
            on_invite,
        ),
        crate::brain::handle_action::node_is_served(
            NetworkNodeAction::ValidateContactShareChallenge(share),
            before,
            after_share,
            on_share,
        ),
    ensures
        !after_invite.invites.contains_key(invite@),
        forall|other: Seq<u8>|
            other != invite@ ==> (#[trigger] after_invite.invites.contains_key(other)
                <==> before.invites.contains_key(other)),
        after_invite.shares == before.shares,
        after_share == before,
{
}

/// Those who want to wait are queued in the order in which they come, as long as there is room;
/// there is none for one more than may wait, who is turned away; and once the node has started
/// everybody is told at once whether it did.
pub proof fn law_clients_wait_in_order(
    ticket: u64,
    before: crate::brain::state::EphemeralView,
    after: crate::brain::state::EphemeralView,
    step: Step,
)
    requires
        crate::brain::handle_action::client_is_served(
            ClientAction::WaitForReady(ticket),
            before,
            after,
            step,
        ),
    ensures
        step.next is Done,
        after.invites == before.invites && after.shares == before.shares,
        match before.waiting {
            Some(waiting) => {
                &&& after.waiting matches Some(queue)
                &&& queue.room == waiting.room
                &&& if waiting.tickets.len() < waiting.room {
                    &&& queue.tickets == waiting.tickets.push(ticket)
                    &&& step.effects@.len() == 0
                } else {
                    &&& queue.tickets == waiting.tickets
                    &&& step.effects@ == seq![Effect::DropWaiter(ticket)]
                }
            },
            None => {
                &&& after.waiting is None
                &&& step.effects@ == seq![
                    Effect::Respond(Response::Ready(before.successfully_started)),
                ]
            },
        },
{
}

/// When the service starts it knows no challenge and nobody waits. An invite lives for a minute, the
/// challenge of a shared contact for two, and there is room for twenty-five to wait.
pub proof fn law_the_service_starts_with_nothing(
    separator: char,
    ephemeral: crate::brain::state::EphemeralBrainData,
)
    requires
        call_ensures(
            crate::brain::state::EphemeralBrainData::with_separator,
            (separator,),
            ephemeral,
        ),
    ensures
        !ephemeral@.successfully_started,
        ephemeral@.waiting matches Some(waiting) && waiting.tickets.len() == 0 && waiting.room == 25,
        forall|challenge: Seq<u8>| !#[trigger] ephemeral@.invites.contains_key(challenge),
        forall|challenge: Seq<u8>| !#[trigger] ephemeral@.shares.contains_key(challenge),
        ephemeral@.invite_ttl.total_nanos() == 60 * 1_000_000_000,
        ephemeral@.share_ttl.total_nanos() == 120 * 1_000_000_000,
        ephemeral@.separator == separator,
{
}

} // verus!
