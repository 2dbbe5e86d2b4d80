//! The steps of migrations that look at each row.
use vstd::prelude::*;

use crate::domain_models::FylesId;
use crate::sqlite::statement::Statement;
use crate::text::{byte_prefix, i64_to_string, str_eq};

verus! {

pub const SELECT_OLD_REQUESTS: &'static str =
    "SELECT id, peer_id, filerequest_id, name, created_at FROM remote_fr_temp";

pub const SELECT_PEER: &'static str = "SELECT id FROM peers WHERE peer_id = ?";

pub const INSERT_CONTACT: &'static str =
    "INSERT INTO contacts (id, name, created_at, updated_at)
     VALUES (?, ?, datetime('now'), datetime('now'))";

pub const INSERT_PEER: &'static str =
    "INSERT INTO peers (id, peer_id, contact_id, name, is_active, created_at, updated_at)
     VALUES (?, ?, ?, ?, true, datetime('now'), datetime('now'))";

pub const INSERT_REQUEST: &'static str =
    "INSERT INTO remote_filerequests (id, peer_id, filerequest_id, name, created_at)
     VALUES (?, ?, ?, ?, ?)";

pub const SELECT_REQUESTS_OF_PEERS: &'static str =
    "SELECT r.id, p.peer_id, r.filerequest_id, r.name, r.created_at
     FROM remote_fr_temp r
     JOIN peers p ON r.peer_id = p.id";

pub const SELECT_CONTACTS_OF_PEERS: &'static str = "SELECT peer_id, contact_id FROM peers";

pub const SELECT_FILES_OF_PEERS: &'static str =
    "SELECT id, peer_id, filerequest_id, file_name, file_path, size, received_at_ms
     FROM received_files";

pub const INSERT_FILE_OF_CONTACT: &'static str =
    "INSERT INTO received_files_new
     (id, contact_id, filerequest_id, file_name, file_path, size, received_at_ms, verified_sender)
     VALUES (?, ?, ?, ?, ?, ?, ?, 0)";

pub const SELECT_PEERS_OF_CONTACTS: &'static str =
    "SELECT contact_id, peer_id FROM peers GROUP BY contact_id";

pub const SELECT_FILES_OF_CONTACTS: &'static str =
    "SELECT id, contact_id, filerequest_id, file_name, file_path, size, received_at_ms
     FROM received_files";

pub const INSERT_FILE_OF_PEER: &'static str =
    "INSERT INTO received_files_new
     (id, peer_id, filerequest_id, file_name, file_path, size, received_at_ms)
     VALUES (?, ?, ?, ?, ?, ?, ?)";

/// How many bytes of an id in the network are shown.
pub const SHOWN_BYTES: usize = 8;

/// A remote file request as it was stored.
#[derive(Debug)]
pub struct OldRequest {
    pub id: String,
    pub peer_id: String,
    pub filerequest_id: String,
    pub name: String,
    pub created_at: String,
}

/// A received file as it was stored. `sender` is an id in the network or the id of a contact.
#[derive(Debug)]
pub struct OldFile {
    pub id: String,
    pub sender: String,
    pub filerequest_id: String,
    pub file_name: String,
    pub file_path: String,
    pub size: i64,
    pub received_at_ms: i64,
}

/// Whether `shown` is what is shown of the id.
pub open spec fn is_shown(id: Seq<char>, shown: Seq<char>) -> bool {
    shown.len() <= id.len() && shown == id.take(shown.len() as int) && crate::text::utf8_len(shown)
        == SHOWN_BYTES
}

/// The request with another peer.
pub open spec fn request_of(
    request: OldRequest,
    peer_id: Seq<char>,
) -> crate::sqlite::statement::StatementView {
    crate::sqlite::statement::StatementView::of(INSERT_REQUEST@).text(request.id@).text(
        peer_id,
    ).text(request.filerequest_id@).text(request.name@).text(request.created_at@)
}

fn insert_request(request: &OldRequest, peer_id: &str) -> (r: Statement)
    ensures
        r@ == request_of(*request, peer_id@),
{
    Statement::of(INSERT_REQUEST).text(request.id.as_str()).text(peer_id).text(
        request.filerequest_id.as_str(),
    ).text(request.name.as_str()).text(request.created_at.as_str())
}

/// The rows for a request whose peer gets a row of its own. A peer that has none yet is created
/// together with a contact, unless nothing can be shown of its id.
pub fn assign_peer(
    request: &OldRequest,
    known: Option<String>,
    contact_id: &FylesId,
    peer_id: &FylesId,
) -> (r: Option<Vec<Statement>>)
    ensures
        match known {
            Some(id) => r matches Some(statements) && crate::domain_models::views(statements@)
                == seq![request_of(*request, id@)],
            None => match r {
                Some(statements) => exists|shown: Seq<char>|
                    is_shown(request.peer_id@, shown) && #[trigger] new_peer(
                        *request,
                        shown,
                        contact_id@,
                        peer_id@,
                    ) == crate::domain_models::views(statements@),
                None => forall|shown: Seq<char>| !is_shown(request.peer_id@, shown),
            },
        },
{
    match known {
        Some(id) => Some(insert_request(request, id.as_str()).only()),
        None => match byte_prefix(request.peer_id.as_str(), SHOWN_BYTES) {
            Some(shown) => {
                let contact = Statement::of(INSERT_CONTACT).text(contact_id.0.as_str()).text(
                    "Auto-created for peer ".to_owned().concat(shown.as_str()).as_str(),
                );
                let peer = Statement::of(INSERT_PEER).text(peer_id.0.as_str()).text(
                    request.peer_id.as_str(),
                ).text(contact_id.0.as_str()).text(
                    "Auto-created peer ".to_owned().concat(shown.as_str()).as_str(),
                );
                let row = insert_request(request, peer_id.0.as_str());
                let statements = vec![contact, peer, row];
                proof {
                    assert(statements@ =~= seq![contact, peer, row]);
                    assert(crate::domain_models::views(statements@) =~= seq![
                        contact@,
                        peer@,
                        row@,
                    ]);
                    assert(is_shown(request.peer_id@, shown@));
                    assert(new_peer(*request, shown@, contact_id@, peer_id@)
                        == crate::domain_models::views(statements@));
                }
                Some(statements)
            },
            None => {
                proof {
                    assert forall|shown: Seq<char>| !is_shown(request.peer_id@, shown) by {
                        if is_shown(request.peer_id@, shown) {
                            assert(crate::text::utf8_len(
                                request.peer_id@.take(shown.len() as int),
                            ) == SHOWN_BYTES);
                        }
                    }
                }
                None
            },
        },
    }
}

/// A new contact with a new peer, and the request of that peer.
pub open spec fn new_peer(
    request: OldRequest,
    shown: Seq<char>,
    contact_id: Seq<char>,
    peer_id: Seq<char>,
) -> Seq<crate::sqlite::statement::StatementView> {
    seq![
        crate::sqlite::statement::StatementView::of(INSERT_CONTACT@).text(contact_id).text(
            "Auto-created for peer "@ + shown,
        ),
        crate::sqlite::statement::StatementView::of(INSERT_PEER@).text(peer_id).text(
            request.peer_id@,
        ).text(contact_id).text("Auto-created peer "@ + shown),
        request_of(request, peer_id),
    ]
}

/// The row for a request that names an id in the network again.
pub fn restore_peer(request: &OldRequest) -> (r: Statement)
    ensures
        r@ == request_of(*request, request.peer_id@),
{
    insert_request(request, request.peer_id.as_str())
}

/// What the last pair with the given key holds.
pub open spec fn last_of(pairs: Seq<(String, String)>, key: Seq<char>) -> Option<Seq<char>>
    decreases pairs.len(),
{
    if pairs.len() == 0 {
        None
    } else if pairs.last().0@ == key {
        Some(pairs.last().1@)
    } else {
        last_of(pairs.drop_last(), key)
    }
}

fn find_last(pairs: &Vec<(String, String)>, key: &str) -> (r: Option<String>)
    ensures
        crate::domain_models::opt_view(r) == last_of(pairs@, key@),
{
    let mut i: usize = pairs.len();
    assert(pairs@.take(i as int) =~= pairs@);
    while i > 0
        invariant
            i <= pairs@.len(),
            last_of(pairs@, key@) == last_of(pairs@.take(i as int), key@),
        decreases i,
    {
        assert(pairs@.take(i as int).drop_last() =~= pairs@.take(i - 1));
        i = i - 1;
        if str_eq(pairs[i].0.as_str(), key) {
            return Some(pairs[i].1.clone());
        }
    }
    None
}

/// The rows for a file that names the contact who sent it.
#[derive(Debug)]
pub struct AssignedFile {
    /// The row of a contact that is not known yet. The file is kept where it cannot be stored.
    pub contact: Option<Statement>,
    pub file: Statement,
}

pub open spec fn file_of(
    sql: Seq<char>,
    file: OldFile,
    sender: Seq<char>,
) -> crate::sqlite::statement::StatementView {
    crate::sqlite::statement::StatementView::of(sql).text(file.id@).text(sender).text(
        file.filerequest_id@,
    ).text(file.file_name@).text(file.file_path@).text(
        crate::text::decimal_int(file.size as int),
    ).text(crate::text::decimal_int(file.received_at_ms as int))
}

fn insert_file(sql: &str, file: &OldFile, sender: &str) -> (r: Statement)
    ensures
        r@ == file_of(sql@, *file, sender@),
{
    Statement::of(sql).text(file.id.as_str()).text(sender).text(file.filerequest_id.as_str()).text(
        file.file_name.as_str(),
    ).text(file.file_path.as_str()).text(i64_to_string(file.size).as_str()).text(
        i64_to_string(file.received_at_ms).as_str(),
    )
}

/// The rows for a file that names the contact who sent it. `peers` are ids in the network with the
/// contacts that they belong to. A sender who is not among them becomes a new contact, unless
/// nothing can be shown of its id.
pub fn assign_contact(file: &OldFile, peers: &Vec<(String, String)>, contact_id: &FylesId) -> (r:
    Option<AssignedFile>)
    ensures
        match last_of(peers@, file.sender@) {
            Some(known) => r matches Some(assigned) && assigned.contact is None && assigned.file@
                == file_of(INSERT_FILE_OF_CONTACT@, *file, known),
            None => match r {
                Some(assigned) => assigned.file@ == file_of(
                    INSERT_FILE_OF_CONTACT@,
                    *file,
                    contact_id@,
                ) && (assigned.contact matches Some(contact) && exists|shown: Seq<char>|
                    is_shown(file.sender@, shown) && contact@ == #[trigger] unknown_sender(
                        contact_id@,
                        shown,
                    )),
                None => forall|shown: Seq<char>| !is_shown(file.sender@, shown),
            },
        },
{
    match find_last(peers, file.sender.as_str()) {
        Some(known) => Some(
            AssignedFile {
                contact: None,
                file: insert_file(INSERT_FILE_OF_CONTACT, file, known.as_str()),
            },
        ),
        None => match byte_prefix(file.sender.as_str(), SHOWN_BYTES) {
            Some(shown) => {
                let contact = Statement::of(INSERT_CONTACT).text(contact_id.0.as_str()).text(
                    "Unknown sender ".to_owned().concat(shown.as_str()).as_str(),
                );
                proof {
                    assert(is_shown(file.sender@, shown@));
                    assert(contact@ == unknown_sender(contact_id@, shown@));
                }
                Some(
                    AssignedFile {
                        contact: Some(contact),
                        file: insert_file(INSERT_FILE_OF_CONTACT, file, contact_id.0.as_str()),
                    },
                )
            },
            None => {
                proof {
                    assert forall|shown: Seq<char>| !is_shown(file.sender@, shown) by {
                        if is_shown(file.sender@, shown) {
                            assert(crate::text::utf8_len(file.sender@.take(shown.len() as int))
                                == SHOWN_BYTES);
                        }
                    }
                }
                None
            },
        },
    }
}

pub open spec fn unknown_sender(
    contact_id: Seq<char>,
    shown: Seq<char>,
) -> crate::sqlite::statement::StatementView {
    crate::sqlite::statement::StatementView::of(INSERT_CONTACT@).text(contact_id).text(
        "Unknown sender "@ + shown,
    )
}

/// The row for a file that names an id in the network again. `contacts` are contacts with one of
/// their ids in the network.
pub fn restore_sender(file: &OldFile, contacts: &Vec<(String, String)>) -> (r: Statement)
    ensures
        r@ == file_of(
            INSERT_FILE_OF_PEER@,
            *file,
            match last_of(contacts@, file.sender@) {
                Some(known) => known,
                None => "unknown"@,
            },
        ),
{
    match find_last(contacts, file.sender.as_str()) {
        Some(known) => insert_file(INSERT_FILE_OF_PEER, file, known.as_str()),
        None => insert_file(INSERT_FILE_OF_PEER, file, "unknown"),
    }
}

} // verus!
