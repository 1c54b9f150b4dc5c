//! The errors of the store.

use vstd::prelude::*;

verus! {

/// Why a value could not pass between its typed form and its stored document.
#[derive(Clone, Copy, Debug, PartialEq, Eq, Structural)]
pub enum CodecFault {
    /// A decimal of the value is out of bounds, so it has no text form.
    DecimalOutOfRange,
    /// The document is not an object.
    NotAnObject,
    /// The object does not hold exactly one member, the variant.
    NotOneVariant,
    /// The discriminator names none of the known variants.
    UnknownVariant,
    /// The payload, or one of its fields, is not of the kind that the variant asks for.
    InvalidPayload,
    /// The payload lacks a field that the variant asks for.
    MissingField,
    /// The payload holds a member that the variant does not have.
    UnexpectedField,
    /// A text of the payload is not a decimal.
    InvalidDecimal,
}

/// What made a transaction fail.
#[derive(Debug, PartialEq, Eq)]
pub enum TransactionCause {
    /// The unit of work rejected the operation, with the error it gave.
    Work(Box<StoreError>),
    /// The storage refused to open the transaction.
    Begin(String),
    /// The storage refused to commit.
    Commit(String),
    /// The storage could not roll the transaction back.
    Rollback(String),
}

/// An error of the store.
#[derive(Debug, PartialEq, Eq)]
pub enum StoreError {
    /// The pool could not be built.
    InitializationError,
    /// The pool could not supply a connection.
    DatabaseConnectionError,
    /// A transaction failed and was unwound.
    TransactionStoreError(TransactionCause),
    /// A value could not be encoded to, or decoded from, its stored document.
    SerdeError(String, CodecFault),
}

impl StoreError {
    /// The error is a codec error with the given message and fault.
    pub open spec fn is_serde_error(&self, message: Seq<char>, fault: CodecFault) -> bool {
        self matches StoreError::SerdeError(m, f) && m@ == message && *f == fault
    }

    /// What the store was attempting when the error arose, in words for a
    /// reader; a transaction error has none of its own, its cause speaks.
    pub open spec fn attachment_text(&self) -> Option<Seq<char>> {
        match self {
            StoreError::InitializationError => Some(
                "Failed to create PostgreSQL connection pool"@,
            ),
            StoreError::DatabaseConnectionError => Some(
                "Failed to get a connection from the pool"@,
            ),
            StoreError::TransactionStoreError(_) => None,
            StoreError::SerdeError(message, _) => Some(message@),
        }
    }

    /// What the store was attempting when the error arose, to attach to a
    /// report of the error.
    pub fn attachment(&self) -> (r: Option<String>)
        ensures
            match self.attachment_text() {
                Some(text) => r matches Some(attached) && attached@ == text,
                None => r is None,
            },
    {
        match self {
            StoreError::InitializationError => Some(
                "Failed to create PostgreSQL connection pool".to_owned(),
            ),
            StoreError::DatabaseConnectionError => Some(
                "Failed to get a connection from the pool".to_owned(),
            ),
            StoreError::TransactionStoreError(_) => None,
            StoreError::SerdeError(message, _) => Some(message.clone()),
        }
    }
}

} // verus!
