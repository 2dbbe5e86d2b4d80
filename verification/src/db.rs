//! What the store is asked for and what it answers.
use vstd::prelude::*;

use crate::crypto::{copy_bytes, ContactKeys};
use crate::domain_models::ContactId;

verus! {

pub type DatabaseResult<T> = Result<T, DbError>;

#[derive(Clone, Copy, Debug, PartialEq, Eq, Structural)]
pub enum OperationType {
    CreateTable,
    Create,
    Read,
    Update,
    Delete,
    Init,
}

impl OperationType {
    pub open spec fn text(self) -> Seq<char> {
        match self {
            OperationType::CreateTable => "CreateTable"@,
            OperationType::Create => "Create"@,
            OperationType::Read => "Read"@,
            OperationType::Update => "Update"@,
            OperationType::Delete => "Delete"@,
            OperationType::Init => "Init"@,
        }
    }

    pub fn as_text(&self) -> (r: &'static str)
        ensures
            r@ == self.text(),
    {
        match self {
            OperationType::CreateTable => "CreateTable",
            OperationType::Create => "Create",
            OperationType::Read => "Read",
            OperationType::Update => "Update",
            OperationType::Delete => "Delete",
            OperationType::Init => "Init",
        }
    }
}

/// What was being done to the database.
#[derive(Debug)]
pub struct DbOperationInfo {
    table_name: String,
    operation_type: OperationType,
    description: String,
}

pub ghost struct DbOperationInfoView {
    pub table_name: Seq<char>,
    pub operation_type: OperationType,
    pub description: Seq<char>,
}

impl DbOperationInfoView {
    pub open spec fn text(self) -> Seq<char> {
        self.operation_type.text() + " operation on table "@ + self.table_name + ": "@
            + self.description
    }
}

impl View for DbOperationInfo {
    type V = DbOperationInfoView;

    closed spec fn view(&self) -> DbOperationInfoView {
        DbOperationInfoView {
            table_name: self.table_name@,
            operation_type: self.operation_type,
            description: self.description@,
        }
    }
}

impl Clone for DbOperationInfo {
    fn clone(&self) -> (r: Self)
        ensures
            r == *self,
    {
        DbOperationInfo {
            table_name: self.table_name.clone(),
            operation_type: self.operation_type,
            description: self.description.clone(),
        }
    }
}

impl DbOperationInfo {
    pub fn new(table_name: &str, operation_type: OperationType, description: String) -> (r: Self)
        ensures
            r@ == (DbOperationInfoView {
                table_name: table_name@,
                operation_type,
                description: description@,
            }),
    {
        DbOperationInfo { table_name: table_name.to_owned(), operation_type, description }
    }

    /// The error that says that the operation failed for the given reason.
    pub fn with_error(self, error: String) -> (r: DbError)
        ensures
            r@ == (DbErrorView::Operation { info: self@, source: error@ }),
    {
        DbError::Operation { info: self, source: error }
    }

    pub fn to_text(&self) -> (r: String)
        ensures
            r@ == self@.text(),
    {
        self.operation_type.as_text().to_owned().concat(" operation on table ").concat(
            self.table_name.as_str(),
        ).concat(": ").concat(self.description.as_str())
    }
}

/// Why the store could not do what it was asked for.
#[derive(Debug)]
pub enum DbError {
    DataNotYetInitialized,
    Operation { info: DbOperationInfo, source: String },
    Database { source: String },
    Communication { source: String },
    Validation { message: String },
    DataConversion { message: String },
    NotFound { message: String },
    Io { source: String },
    Generic { message: String },
}

pub ghost enum DbErrorView {
    DataNotYetInitialized,
    Operation { info: DbOperationInfoView, source: Seq<char> },
    Database { source: Seq<char> },
    Communication { source: Seq<char> },
    Validation { message: Seq<char> },
    DataConversion { message: Seq<char> },
    NotFound { message: Seq<char> },
    Io { source: Seq<char> },
    Generic { message: Seq<char> },
}

impl View for DbError {
    type V = DbErrorView;

    open spec fn view(&self) -> DbErrorView {
        match *self {
            DbError::DataNotYetInitialized => DbErrorView::DataNotYetInitialized,
            DbError::Operation { info, source } => DbErrorView::Operation {
                info: info@,
                source: source@,
            },
            DbError::Database { source } => DbErrorView::Database { source: source@ },
            DbError::Communication { source } => DbErrorView::Communication { source: source@ },
            DbError::Validation { message } => DbErrorView::Validation { message: message@ },
            DbError::DataConversion { message } => DbErrorView::DataConversion {
                message: message@,
            },
            DbError::NotFound { message } => DbErrorView::NotFound { message: message@ },
            DbError::Io { source } => DbErrorView::Io { source: source@ },
            DbError::Generic { message } => DbErrorView::Generic { message: message@ },
        }
    }
}

impl DbErrorView {
    pub open spec fn text(self) -> Seq<char> {
        match self {
            DbErrorView::DataNotYetInitialized =>
                "The type of data queried was not yet initialized"@,
            DbErrorView::Operation { info, source } => "Database operation error: "@ + info.text()
                + " - "@ + source,
            DbErrorView::Database { source } => "Database error: "@ + source,
            DbErrorView::Communication { .. } => "Database communication error"@,
            DbErrorView::Validation { message } => "Validation error: "@ + message,
            DbErrorView::DataConversion { message } => "Data conversion error: "@ + message,
            DbErrorView::NotFound { message } => "Record not found: "@ + message,
            DbErrorView::Io { source } => "I/O error: "@ + source,
            DbErrorView::Generic { message } => "Error: "@ + message,
        }
    }

    /// The error for an operation on a table that found no record.
    pub open spec fn missing(
        table_name: Seq<char>,
        operation_type: OperationType,
        description: Seq<char>,
        source: Seq<char>,
    ) -> DbErrorView {
        DbErrorView::Operation {
            info: DbOperationInfoView { table_name, operation_type, description },
            source,
        }
    }
}

impl DbError {
    pub fn to_text(&self) -> (r: String)
        ensures
            r@ == self@.text(),
    {
        match self {
            DbError::DataNotYetInitialized =>
                "The type of data queried was not yet initialized".to_owned(),
            DbError::Operation { info, source } => "Database operation error: ".to_owned().concat(
                info.to_text().as_str(),
            ).concat(" - ").concat(source.as_str()),
            DbError::Database { source } => "Database error: ".to_owned().concat(source.as_str()),
            DbError::Communication { .. } => "Database communication error".to_owned(),
            DbError::Validation { message } => "Validation error: ".to_owned().concat(
                message.as_str(),
            ),
            DbError::DataConversion { message } => "Data conversion error: ".to_owned().concat(
                message.as_str(),
            ),
            DbError::NotFound { message } => "Record not found: ".to_owned().concat(
                message.as_str(),
            ),
            DbError::Io { source } => "I/O error: ".to_owned().concat(source.as_str()),
            DbError::Generic { message } => "Error: ".to_owned().concat(message.as_str()),
        }
    }
}

/// The error for an operation on a table that found no record.
pub fn missing(
    table_name: &str,
    operation_type: OperationType,
    description: &str,
    source: &str,
) -> (r:
    DbError)
    ensures
        r@ == DbErrorView::missing(table_name@, operation_type, description@, source@),
{
    DbOperationInfo::new(table_name, operation_type, description.to_owned()).with_error(
        source.to_owned(),
    )
}

/// The node's key pair in the network and its own contact.
#[derive(Debug, PartialEq)]
pub struct NodeInfo {
    pub node_key_pair: Vec<u8>,
    pub self_contact_id: ContactId,
    pub self_contact_keys: ContactKeys,
}

pub ghost struct NodeInfoView {
    pub node_key_pair: Seq<u8>,
    pub self_contact_id: Seq<char>,
    pub self_contact_keys: crate::crypto::KeysView,
}

impl View for NodeInfo {
    type V = NodeInfoView;

    open spec fn view(&self) -> NodeInfoView {
        NodeInfoView {
            node_key_pair: self.node_key_pair@,
            self_contact_id: self.self_contact_id@,
            self_contact_keys: self.self_contact_keys@,
        }
    }
}

impl Clone for NodeInfo {
    fn clone(&self) -> (r: Self)
        ensures
            r@ == self@,
    {
        NodeInfo {
            node_key_pair: copy_bytes(&self.node_key_pair),
            self_contact_id: self.self_contact_id.clone(),
            self_contact_keys: self.self_contact_keys.clone(),
        }
    }
}

impl NodeInfo {
    /// The given key pair with a new contact of its own.
    pub fn generate_random_bytes(node_key_pair: Vec<u8>) -> (r: Self)
        ensures
            r@.node_key_pair == node_key_pair@,
            crate::domain_models::is_uuid(r@.self_contact_id),
            crate::domain_models::can_be_new_uuid(r@.self_contact_id),
            crate::crypto::are_new_keys(r@.self_contact_keys),
    {
        NodeInfo {
            node_key_pair,
            self_contact_id: ContactId::new(),
            self_contact_keys: ContactKeys::new(),
        }
    }
}

} // verus!
