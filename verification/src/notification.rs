//! What the user is told by way of the desktop.
use vstd::prelude::*;

verus! {

#[derive(Debug)]
pub enum Notification {
    FileReceived {
        contact_name: Option<String>,
        filerequest_name: String,
        file_name: String,
        file_size: u64,
    },
}

} // verus!
