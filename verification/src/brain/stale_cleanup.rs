//! What has been left behind for too long.
use vstd::prelude::*;

use crate::domain_models::{FylesId, ReceivedFile};
use crate::io_controller::OutgoingFileInfo;
use crate::util::part_file::{get_part_file_name, parse_part_file_started_at_ms};

verus! {

/// Files (stale `.part` partials and orphaned outgoing copies) older than this are swept: 7 days,
/// in milliseconds.
pub const DEFAULT_STALE_THRESHOLD_MS: i64 = 604_800_000;

/// How often the storage is cleaned up: every 6 hours, in seconds.
pub const CLEANUP_INTERVAL_SECS: u64 = 21_600;

/// What began before this time is stale.
pub fn stale_threshold(now_ms: i64) -> (r: i64)
    requires
        now_ms >= i64::MIN + DEFAULT_STALE_THRESHOLD_MS,
    ensures
        r == now_ms - DEFAULT_STALE_THRESHOLD_MS,
{
    now_ms - DEFAULT_STALE_THRESHOLD_MS
}

/// A transfer to give up: its partial file goes, and it counts as failed with what was received.
#[derive(Debug)]
pub struct StaleTransfer {
    pub part_filename: String,
    pub transfer_id: FylesId,
    pub progress_bytes: u64,
}

pub ghost struct StaleTransferView {
    pub part_filename: Seq<char>,
    pub transfer_id: Seq<char>,
    pub progress_bytes: u64,
}

impl View for StaleTransfer {
    type V = StaleTransferView;

    open spec fn view(&self) -> StaleTransferView {
        StaleTransferView {
            part_filename: self.part_filename@,
            transfer_id: self.transfer_id@,
            progress_bytes: self.progress_bytes,
        }
    }
}

/// What to give up of a file; nothing of one without a transfer.
pub open spec fn given_up(file: crate::domain_models::ReceivedFileView) -> Option<
    StaleTransferView,
> {
    match file.transfer_id {
        Some(transfer_id) => Some(
            StaleTransferView {
                part_filename: crate::util::part_file::part_file_name(
                    file.started_at_ms as int,
                    transfer_id,
                    file.peer_id,
                    file.contact_id,
                ),
                transfer_id,
                progress_bytes: file.progress_bytes,
            },
        ),
        None => None,
    }
}

/// What to give up of the files, in order.
pub open spec fn all_given_up(files: Seq<crate::domain_models::ReceivedFileView>) -> Seq<
    StaleTransferView,
>
    decreases files.len(),
{
    if files.len() == 0 {
        Seq::empty()
    } else {
        let before = all_given_up(files.drop_last());
        match given_up(files.last()) {
            Some(transfer) => before.push(transfer),
            None => before,
        }
    }
}

/// What to give up of the stale files that the store knows.
pub fn structured_partial_cleanup(stale_files: &Vec<ReceivedFile>) -> (r: Vec<StaleTransfer>)
    ensures
        crate::domain_models::views(r@) == all_given_up(crate::domain_models::views(stale_files@)),
{
    let ghost files = crate::domain_models::views(stale_files@);
    let mut transfers: Vec<StaleTransfer> = Vec::new();
    let mut i: usize = 0;
    assert(crate::domain_models::views(transfers@) =~= all_given_up(files.take(0)));
    while i < stale_files.len()
        invariant
            i <= stale_files@.len(),
            files == crate::domain_models::views(stale_files@),
            crate::domain_models::views(transfers@) == all_given_up(files.take(i as int)),
        decreases stale_files@.len() - i,
    {
        let ghost before = transfers@;
        let file = &stale_files[i];
        assert(files.take(i + 1).drop_last() =~= files.take(i as int));
        assert(files.take(i + 1).last() == file@);
        if let Some(transfer_id) = &file.transfer_id {
            let transfer = StaleTransfer {
                part_filename: get_part_file_name(
                    file.started_at_ms,
                    transfer_id.0.as_str(),
                    file.peer_id.as_str(),
                    &file.contact_id,
                ),
                transfer_id: transfer_id.clone(),
                progress_bytes: file.progress_bytes,
            };
            transfers.push(transfer);
            assert(crate::domain_models::views(transfers@) =~= crate::domain_models::views(
                before,
            ).push(transfer@));
        }
        i = i + 1;
    }
    assert(files.take(i as int) =~= files);
    transfers
}

/// Whether a partial file began before the threshold. One whose name does not tell is kept.
pub open spec fn is_stale_partial(name: Seq<char>, threshold: i64) -> bool {
    crate::util::part_file::part_file_started_at(name) matches Some(started_at) && started_at
        < threshold
}

/// The names of stale partial files, in order.
pub open spec fn stale_partials(names: Seq<Seq<char>>, threshold: i64) -> Seq<Seq<char>>
    decreases names.len(),
{
    if names.len() == 0 {
        Seq::empty()
    } else {
        let before = stale_partials(names.drop_last(), threshold);
        if is_stale_partial(names.last(), threshold) {
            before.push(names.last())
        } else {
            before
        }
    }
}

/// The partial files to remove, whether the store knows of them or not.
pub fn sweep_partial_cleanup(partial_files: &Vec<String>, threshold: i64) -> (r: Vec<String>)
    ensures
        crate::domain_models::views(r@) == stale_partials(
            crate::domain_models::views(partial_files@),
            threshold,
        ),
{
    let ghost names = crate::domain_models::views(partial_files@);
    let mut stale: Vec<String> = Vec::new();
    let mut i: usize = 0;
    assert(crate::domain_models::views(stale@) =~= stale_partials(names.take(0), threshold));
    while i < partial_files.len()
        invariant
            i <= partial_files@.len(),
            names == crate::domain_models::views(partial_files@),
            crate::domain_models::views(stale@) == stale_partials(names.take(i as int), threshold),
        decreases partial_files@.len() - i,
    {
        let ghost before = stale@;
        let file = &partial_files[i];
        assert(names.take(i + 1).drop_last() =~= names.take(i as int));
        assert(names.take(i + 1).last() == file@);
        if let Some(started_at) = parse_part_file_started_at_ms(file.as_str()) {
            if started_at < threshold {
                stale.push(file.clone());
                assert(crate::domain_models::views(stale@) =~= crate::domain_models::views(
                    before,
                ).push(file@));
            }
        }
        i = i + 1;
    }
    assert(names.take(i as int) =~= names);
    stale
}

/// The paths of the files that were changed last before the threshold, in order.
pub open spec fn stale_outgoing(files: Seq<OutgoingFileInfo>, threshold: i64) -> Seq<Seq<char>>
    decreases files.len(),
{
    if files.len() == 0 {
        Seq::empty()
    } else {
        let before = stale_outgoing(files.drop_last(), threshold);
        if files.last().modified_ms < threshold {
            before.push(files.last().path@)
        } else {
            before
        }
    }
}

/// The copies of files to send that are to be removed.
pub fn sweep_outgoing_files_cleanup(temp_files: &Vec<OutgoingFileInfo>, threshold: i64) -> (r: Vec<
    String,
>)
    ensures
        crate::domain_models::views(r@) == stale_outgoing(temp_files@, threshold),
{
    let mut stale: Vec<String> = Vec::new();
    let mut i: usize = 0;
    assert(crate::domain_models::views(stale@) =~= stale_outgoing(temp_files@.take(0), threshold));
    while i < temp_files.len()
        invariant
            i <= temp_files@.len(),
            crate::domain_models::views(stale@) == stale_outgoing(
                temp_files@.take(i as int),
                threshold,
            ),
        decreases temp_files@.len() - i,
    {
        let ghost before = stale@;
        let file = &temp_files[i];
        assert(temp_files@.take(i + 1).drop_last() =~= temp_files@.take(i as int));
        assert(temp_files@.take(i + 1).last() == *file);
        if file.modified_ms < threshold {
            stale.push(file.path.clone());
            assert(crate::domain_models::views(stale@) =~= crate::domain_models::views(before).push(
                file.path@,
            ));
        }
        i = i + 1;
    }
    assert(temp_files@.take(i as int) =~= temp_files@);
    stale
}

/// The partial file of every transfer that is given up because it is stale would be swept as well.
pub proof fn law_given_up_transfers_have_stale_partials(
    file: crate::domain_models::ReceivedFileView,
    threshold: i64,
)
    requires
        file.started_at_ms < threshold,
        file.transfer_id is Some,
    ensures
        given_up(file) matches Some(transfer) && is_stale_partial(
            transfer.part_filename,
            threshold,
        ),
{
    crate::util::part_file::law_part_file_name_keeps_start(
        file.started_at_ms,
        file.transfer_id->0,
        file.peer_id,
        file.contact_id,
    );
}

/// A partial file of a transfer that began at the threshold or later is never swept.
pub proof fn law_recent_partials_are_kept(
    names: Seq<Seq<char>>,
    threshold: i64,
    file: crate::domain_models::ReceivedFileView,
)
    requires
        file.started_at_ms >= threshold,
    ensures
        given_up(file) matches Some(transfer) ==> !stale_partials(names, threshold).contains(
            transfer.part_filename,
        ),
    decreases names.len(),
{
    if let Some(transfer) = given_up(file) {
        crate::util::part_file::law_part_file_name_keeps_start(
            file.started_at_ms,
            file.transfer_id->0,
            file.peer_id,
            file.contact_id,
        );
        assert(!is_stale_partial(transfer.part_filename, threshold));
        if names.len() > 0 {
            law_recent_partials_are_kept(names.drop_last(), threshold, file);
            let before = stale_partials(names.drop_last(), threshold);
            let swept = stale_partials(names, threshold);
            if swept.contains(transfer.part_filename) {
                let k = swept.index_of(transfer.part_filename);
                if k < before.len() {
                    assert(before[k] == swept[k]);
                    assert(before.contains(transfer.part_filename));
                }
            }
        }
    }
}

/// A partial file is swept exactly where it is there, its name tells when its transfer began, and
/// that was before the threshold.
pub proof fn law_exactly_stale_partials_are_swept(
    names: Seq<Seq<char>>,
    threshold: i64,
    name: Seq<char>,
)
    ensures
        stale_partials(names, threshold).contains(name) <==> {
            &&& names.contains(name)
            &&& crate::util::part_file::part_file_started_at(name) matches Some(started_at)
            &&& started_at < threshold
        },
    decreases names.len(),
{
    if names.len() > 0 {
        let fewer = names.drop_last();
        let before = stale_partials(fewer, threshold);
        let swept = stale_partials(names, threshold);
        law_exactly_stale_partials_are_swept(fewer, threshold, name);
        assert(names.contains(name) <==> fewer.contains(name) || names.last() == name) by {
            if fewer.contains(name) {
                let i = choose|i: int| 0 <= i < fewer.len() && fewer[i] == name;
                assert(names[i] == name);
            }
            if names.contains(name) && names.last() != name {
                let i = choose|i: int| 0 <= i < names.len() && names[i] == name;
                assert(fewer[i] == name);
            }
        }
        if is_stale_partial(names.last(), threshold) {
            assert(swept.contains(name) <==> before.contains(name) || names.last() == name) by {
                if before.contains(name) {
                    let i = choose|i: int| 0 <= i < before.len() && before[i] == name;
                    assert(swept[i] == name);
                }
                assert(swept[before.len() as int] == names.last());
                if swept.contains(name) && names.last() != name {
                    let i = choose|i: int| 0 <= i < swept.len() && swept[i] == name;
                    assert(before[i] == name);
                }
            }
        }
    }
}

/// A copy of a file to send is swept exactly where it was changed last before the threshold.
pub proof fn law_exactly_stale_copies_are_swept(
    files: Seq<OutgoingFileInfo>,
    threshold: i64,
    path: Seq<char>,
)
    ensures
        stale_outgoing(files, threshold).contains(path) <==> exists|i: int|
            0 <= i < files.len() && (#[trigger] files[i]).path@ == path && files[i].modified_ms
                < threshold,
    decreases files.len(),
{
    let swept = stale_outgoing(files, threshold);
    if files.len() > 0 {
        let fewer = files.drop_last();
        let before = stale_outgoing(fewer, threshold);
        law_exactly_stale_copies_are_swept(fewer, threshold, path);
        if before.contains(path) {
            let i = choose|i: int|
                0 <= i < fewer.len() && (#[trigger] fewer[i]).path@ == path && fewer[i].modified_ms
                    < threshold;
            assert(files[i] == fewer[i]);
            let k = choose|k: int| 0 <= k < before.len() && before[k] == path;
            assert(swept[k] == path);
        }
        if swept.contains(path) && !before.contains(path) {
            let k = choose|k: int| 0 <= k < swept.len() && swept[k] == path;
            if k < before.len() {
                assert(before[k] == path);
            }
            assert(files[files.len() - 1].path@ == path);
        }
        if exists|i: int|
            0 <= i < files.len() && (#[trigger] files[i]).path@ == path && files[i].modified_ms
                < threshold {
            let i = choose|i: int|
                0 <= i < files.len() && (#[trigger] files[i]).path@ == path && files[i].modified_ms
                    < threshold;
            if i < fewer.len() {
                assert(fewer[i] == files[i]);
            } else {
                assert(swept[before.len() as int] == path);
            }
        }
    }
}

/// Every stale file with a transfer is given up, and only those are: under the transfer that it
/// belongs to, with what was received of it, and with the partial file that was written for it.
pub proof fn law_exactly_stale_transfers_are_given_up(
    files: Seq<crate::domain_models::ReceivedFileView>,
    transfer: StaleTransferView,
)
    ensures
        all_given_up(files).contains(transfer) <==> exists|i: int|
            {
                &&& 0 <= i < files.len()
                &&& (#[trigger] files[i]).transfer_id == Some(transfer.transfer_id)
                &&& files[i].progress_bytes == transfer.progress_bytes
                &&& transfer.part_filename == crate::util::part_file::part_file_name(
                    files[i].started_at_ms as int,
                    transfer.transfer_id,
                    files[i].peer_id,
                    files[i].contact_id,
                )
            },
    decreases files.len(),
{
    let all = all_given_up(files);
    if files.len() > 0 {
        let fewer = files.drop_last();
        let before = all_given_up(fewer);
        law_exactly_stale_transfers_are_given_up(fewer, transfer);
        if before.contains(transfer) {
            let k = choose|k: int| 0 <= k < before.len() && before[k] == transfer;
            assert(all[k] == transfer);
            let i = choose|i: int|
                {
                    &&& 0 <= i < fewer.len()
                    &&& (#[trigger] fewer[i]).transfer_id == Some(transfer.transfer_id)
                    &&& fewer[i].progress_bytes == transfer.progress_bytes
                    &&& transfer.part_filename == crate::util::part_file::part_file_name(
                        fewer[i].started_at_ms as int,
                        transfer.transfer_id,
                        fewer[i].peer_id,
                        fewer[i].contact_id,
                    )
                };
            assert(files[i] == fewer[i]);
        }
        if all.contains(transfer) && !before.contains(transfer) {
            let k = choose|k: int| 0 <= k < all.len() && all[k] == transfer;
            if k < before.len() {
                assert(before[k] == transfer);
            }
            assert(files[files.len() - 1].transfer_id == Some(transfer.transfer_id));
        }
        if !before.contains(transfer) {
            assert forall|i: int|
                0 <= i < fewer.len() implies (#[trigger] files[i]) == fewer[i] by {}
            if given_up(files.last()) == Some(transfer) {
                assert(all[before.len() as int] == transfer);
            }
        }
    }
}

/// What began, or was changed last, seven days before or later is not stale.
pub proof fn law_a_week_is_waited(now_ms: i64, threshold: i64)
    requires
        call_ensures(stale_threshold, (now_ms,), threshold),
    ensures
        threshold == now_ms - 7 * 24 * 60 * 60 * 1000,
{
}

} // verus!
