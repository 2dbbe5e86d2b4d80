//! What is read from the database is what was written to it.
use vstd::prelude::*;

verus! {

/// The access and the activity of a file request are read from the columns and the audience that
/// they are written as.
pub proof fn law_stored_filerequest_reads_back(
    access: crate::domain_models::AccessView,
    is_active: bool,
)
    ensures
        crate::sqlite::rows::access_of(
            crate::sqlite::plan::access_type(access),
            crate::sqlite::plan::audience(access),
        ) == access,
        (crate::sqlite::plan::activity(is_active) == "active"@) == is_active,
{
    reveal_strlit("public");
    reveal_strlit("audience");
    reveal_strlit("active");
    reveal_strlit("paused");
    assert("public"@.len() != "audience"@.len());
    assert("active"@[0] != "paused"@[0]);
}

/// The keys of one's own contact are read from the columns that they are written to.
pub proof fn law_stored_keys_read_back(keys: crate::crypto::KeysView)
    requires
        keys.private.dilithium.len() == crate::crypto::DILITHIUM_SECRET_KEY_LENGTH,
        keys.public.dilithium.len() == crate::crypto::DILITHIUM_PUBLIC_KEY_LENGTH,
        keys.private.ed25519.len() == crate::crypto::ED25519_KEY_LENGTH,
        keys.public.ed25519.len() == crate::crypto::ED25519_KEY_LENGTH,
        crate::crypto::is_ed25519_point(keys.public.ed25519),
    ensures
        crate::sqlite::rows::read_keys(
            keys.private.dilithium,
            keys.public.dilithium,
            keys.private.ed25519,
            keys.public.ed25519,
        ) matches Ok(read) && read == keys,
        crate::sqlite::rows::read_public_keys(
            keys.public.dilithium,
            keys.public.ed25519,
        ) matches Ok(read) && read == keys.public,
{
    assert(keys.private.dilithium.take(crate::crypto::DILITHIUM_SECRET_KEY_LENGTH as int)
        =~= keys.private.dilithium);
    assert(keys.public.dilithium.take(crate::crypto::DILITHIUM_PUBLIC_KEY_LENGTH as int)
        =~= keys.public.dilithium);
}

/// The sizes of a received file are read from the signed columns that they are written to.
pub proof fn law_stored_sizes_read_back(size: u64)
    ensures
        (size as i64) as u64 == size,
{
    assert((size as i64) as u64 == size) by (bit_vector);
}

/// The status of a file to send is read from the columns that it is written to, which hold no
/// negative numbers, unless it must not be stored or a size does not fit into a signed column.
pub proof fn law_stored_send_status_reads_back(
    status: crate::domain_models::SendStatusView,
    tag: Seq<char>,
)
    requires
        status.tag() matches Ok(t) && t == tag,
        status.transfer_data() matches Some(data) ==> data.progress_bytes <= i64::MAX
            && data.file_size_bytes <= i64::MAX,
    ensures
        status.transfer_data() matches Some(data) ==> 0 <= data.progress_bytes as i64 && 0
            <= data.file_size_bytes as i64,
        crate::domain_models::SendStatusView::from_columns(
            tag,
            match status.transfer_data() {
                Some(data) => Some((data.progress_bytes as i64) as u64),
                None => None,
            },
            match status.transfer_data() {
                Some(data) => Some((data.file_size_bytes as i64) as u64),
                None => None,
            },
            match status.transfer_data() {
                Some(data) => Some(data.transfer_id),
                None => None,
            },
        ) matches Ok(read) && read == status,
{
    crate::domain_models::law_send_status_round_trip(status);
    if let Some(data) = status.transfer_data() {
        law_stored_sizes_read_back(data.progress_bytes);
        law_stored_sizes_read_back(data.file_size_bytes);
    }
}

} // verus!
