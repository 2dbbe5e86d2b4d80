//! Names of the files that hold transfers in progress.
use vstd::prelude::*;

use crate::domain_models::ContactId;
use crate::text::{ends_with, find_char, i64_to_string, parse_i64};

verus! {

/// The name of the partial file of a transfer.
pub open spec fn part_file_name(
    started_at_ms: int,
    transfer_id: Seq<char>,
    peer_id: Seq<char>,
    contact_id: Option<Seq<char>>,
) -> Seq<char> {
    let contact = match contact_id {
        Some(id) => id,
        None => "unknown-contact"@,
    };
    crate::text::decimal_int(started_at_ms) + "_"@ + contact + "_"@ + peer_id + "_"@ + transfer_id
        + ".part"@
}

/// The time that a partial file's name says its transfer began, in milliseconds since the epoch:
/// the number in front of the first underscore, in a name that ends in `.part`.
pub open spec fn part_file_started_at(name: Seq<char>) -> Option<int> {
    if !".part"@.is_suffix_of(name) {
        None
    } else {
        let first = match crate::text::first_index(name, '_') {
            Some(i) => name.take(i),
            None => name,
        };
        match crate::text::int_of_text(first) {
            Some(v) => if i64::MIN <= v <= i64::MAX {
                Some(v)
            } else {
                None
            },
            None => None,
        }
    }
}

/// Builds the deterministic `.part` file name for a received file.
///
/// The `started_at_ms` value is persisted, so that this function can reconstruct the exact same
/// name at any later point: continuation, completion, abort, cleanup.
pub fn get_part_file_name(
    started_at_ms: i64,
    transfer_id: &str,
    peer_id: &str,
    contact_id: &Option<ContactId>,
) -> (r: String)
    ensures
        r@ == part_file_name(
            started_at_ms as int,
            transfer_id@,
            peer_id@,
            match *contact_id {
                Some(id) => Some(id@),
                None => None,
            },
        ),
{
    let mut r = i64_to_string(started_at_ms);
    r.append("_");
    match contact_id {
        Some(id) => {
            r.append(id.0.as_str());
        },
        None => {
            r.append("unknown-contact");
        },
    }
    r.append("_");
    r.append(peer_id);
    r.append("_");
    r.append(transfer_id);
    r.append(".part");
    r
}

/// Reads the time at which a transfer began from the name of its partial file.
pub fn parse_part_file_started_at_ms(filename: &str) -> (r: Option<i64>)
    ensures
        r is Some <==> part_file_started_at(filename@) is Some,
        r matches Some(v) ==> part_file_started_at(filename@) == Some(v as int),
{
    if !ends_with(filename, ".part") {
        return None;
    }
    match find_char(filename, '_') {
        Some(i) => {
            let first = filename.substring_char(0, i);
            assert(filename@.subrange(0, i as int) =~= filename@.take(i as int));
            parse_i64(first)
        },
        None => parse_i64(filename),
    }
}

/// The name of a partial file tells when its transfer began.
pub proof fn law_part_file_name_keeps_start(
    started_at_ms: i64,
    transfer_id: Seq<char>,
    peer_id: Seq<char>,
    contact_id: Option<Seq<char>>,
)
    ensures
        part_file_started_at(
            part_file_name(started_at_ms as int, transfer_id, peer_id, contact_id),
        ) == Some(started_at_ms as int),
{
    reveal_strlit(".part");
    reveal_strlit("_");
    let name = part_file_name(started_at_ms as int, transfer_id, peer_id, contact_id);
    let number = crate::text::decimal_int(started_at_ms as int);
    let suffix = ".part"@;
    assert(name.subrange(name.len() - suffix.len(), name.len() as int) =~= suffix);
    crate::text::lemma_decimal_int_round_trip(started_at_ms as int);
    if started_at_ms < 0 {
        crate::text::lemma_decimal_round_trip((-started_at_ms) as nat);
        assert forall|j: int| 0 <= j < number.len() implies number[j] != '_' by {
            if j > 0 {
                assert(number[j] == crate::text::decimal((-started_at_ms) as nat)[j - 1]);
            }
        }
    } else {
        crate::text::lemma_decimal_round_trip(started_at_ms as nat);
    }
    assert forall|j: int| 0 <= j < number.len() implies name[j] != '_' by {
        assert(name[j] == number[j]);
    }
    assert(name[number.len() as int] == '_');
    crate::text::lemma_first_index(name, '_', number.len() as int);
    assert(name.take(number.len() as int) =~= number);
}

/// The partial files of different transfers have different names, where all else is the same; so do
/// those that began at different times.
pub proof fn law_partial_files_of_transfers_keep_apart(
    started_at_ms: i64,
    other_start: i64,
    transfer_id: Seq<char>,
    other: Seq<char>,
    peer_id: Seq<char>,
    contact_id: Option<Seq<char>>,
)
    ensures
        transfer_id != other ==> part_file_name(
            started_at_ms as int,
            transfer_id,
            peer_id,
            contact_id,
        ) != part_file_name(started_at_ms as int, other, peer_id, contact_id),
        started_at_ms != other_start ==> part_file_name(
            started_at_ms as int,
            transfer_id,
            peer_id,
            contact_id,
        ) != part_file_name(other_start as int, transfer_id, peer_id, contact_id),
{
    let contact = match contact_id {
        Some(id) => id,
        None => "unknown-contact"@,
    };
    let front = crate::text::decimal_int(started_at_ms as int) + "_"@ + contact + "_"@ + peer_id
        + "_"@;
    let end = ".part"@;
    let name = part_file_name(started_at_ms as int, transfer_id, peer_id, contact_id);
    let second = part_file_name(started_at_ms as int, other, peer_id, contact_id);
    assert(name =~= front + transfer_id + end);
    assert(second =~= front + other + end);
    if name == second {
        assert(transfer_id =~= name.subrange(front.len() as int, name.len() - end.len()));
        assert(other =~= second.subrange(front.len() as int, second.len() - end.len()));
    }
    law_part_file_name_keeps_start(started_at_ms, transfer_id, peer_id, contact_id);
    law_part_file_name_keeps_start(other_start, transfer_id, peer_id, contact_id);
}

/// The partial files of different peers have different names, and so do those of different known
/// contacts, where all else is the same.
pub proof fn law_partial_files_of_peers_keep_apart(
    started_at_ms: i64,
    transfer_id: Seq<char>,
    peer_id: Seq<char>,
    other_peer: Seq<char>,
    contact_id: Seq<char>,
    other_contact: Seq<char>,
)
    ensures
        peer_id != other_peer ==> part_file_name(
            started_at_ms as int,
            transfer_id,
            peer_id,
            Some(contact_id),
        ) != part_file_name(started_at_ms as int, transfer_id, other_peer, Some(contact_id)),
        contact_id != other_contact ==> part_file_name(
            started_at_ms as int,
            transfer_id,
            peer_id,
            Some(contact_id),
        ) != part_file_name(started_at_ms as int, transfer_id, peer_id, Some(other_contact)),
{
    let number = crate::text::decimal_int(started_at_ms as int) + "_"@;
    let name = part_file_name(started_at_ms as int, transfer_id, peer_id, Some(contact_id));
    let of_peer = part_file_name(started_at_ms as int, transfer_id, other_peer, Some(contact_id));
    let of_contact = part_file_name(started_at_ms as int, transfer_id, peer_id, Some(other_contact));
    let front = number + contact_id + "_"@;
    let end = "_"@ + transfer_id + ".part"@;
    assert(name =~= front + peer_id + end);
    assert(of_peer =~= front + other_peer + end);
    if name == of_peer {
        assert(peer_id =~= name.subrange(front.len() as int, name.len() - end.len()));
        assert(other_peer =~= of_peer.subrange(front.len() as int, of_peer.len() - end.len()));
    }
    let rest = "_"@ + peer_id + "_"@ + transfer_id + ".part"@;
    assert(name =~= number + contact_id + rest);
    assert(of_contact =~= number + other_contact + rest);
    if name == of_contact {
        assert(contact_id =~= name.subrange(number.len() as int, name.len() - rest.len()));
        assert(other_contact =~= of_contact.subrange(
            number.len() as int,
            of_contact.len() - rest.len(),
        ));
    }
}

} // verus!
