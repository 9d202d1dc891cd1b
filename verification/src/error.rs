//! What can go wrong with an alert operation.

use vstd::prelude::*;

verus! {

/// The reason an operation on an alert or on the store was refused. A refused
/// operation changes nothing.
#[derive(Debug, Clone, Copy, PartialEq, Eq, Structural)]
pub enum AlertError {
    /// No alert has the given id.
    NoSuchAlert,
    /// No field of the alert has the given id or name.
    NoSuchField,
    /// An alert with this id is already stored.
    AlreadyExists,
    /// A field update named neither a field id nor a field name.
    NoFieldGiven,
    /// The id drawn or given for a new field is held by a field of the alert.
    FieldIdTaken,
    /// A field kind other than `text` and `counter`.
    InvalidKind,
    /// A field update that is not exactly one of increment, decrement, set and
    /// replace, or that does not suit the kind of the field.
    InvalidUpdate,
    /// Text given for a counter that is not a numeral of an `i32`.
    InvalidNumber,
    /// A counter would leave the range of an `i32`.
    OutOfRange,
    /// A stored document that is not the JSON form of an alert.
    Unreadable,
}

/// The broad classes that callers turn into responses.
#[derive(Debug, Clone, Copy, PartialEq, Eq, Structural)]
pub enum ErrorClass {
    NotFound,
    AlreadyExists,
    Validation,
    Persistence,
}

impl AlertError {
    pub open spec fn class_spec(self) -> ErrorClass {
        match self {
            AlertError::NoSuchAlert | AlertError::NoSuchField => ErrorClass::NotFound,
            AlertError::AlreadyExists | AlertError::FieldIdTaken => ErrorClass::AlreadyExists,
            AlertError::Unreadable => ErrorClass::Persistence,
            _ => ErrorClass::Validation,
        }
    }

    /// The class this error belongs to.
    pub fn class(&self) -> (class: ErrorClass)
        ensures
            class == self.class_spec(),
    {
        match self {
            AlertError::NoSuchAlert | AlertError::NoSuchField => ErrorClass::NotFound,
            AlertError::AlreadyExists | AlertError::FieldIdTaken => ErrorClass::AlreadyExists,
            AlertError::Unreadable => ErrorClass::Persistence,
            _ => ErrorClass::Validation,
        }
    }

    pub open spec fn message_spec(self) -> Seq<char> {
        match self {
            AlertError::NoSuchAlert => "no such alert"@,
            AlertError::NoSuchField => "no such field"@,
            AlertError::AlreadyExists => "alert already exists"@,
            AlertError::FieldIdTaken => "field id already in use"@,
            AlertError::NoFieldGiven => "no field name or id provided"@,
            AlertError::InvalidKind => "invalid kind"@,
            AlertError::InvalidUpdate => "invalid update requested"@,
            AlertError::InvalidNumber => "not a whole number that a counter can hold"@,
            AlertError::OutOfRange => "counter out of range"@,
            AlertError::Unreadable => "could not read alert"@,
        }
    }

    /// A short description for the person who made the request.
    pub fn message(&self) -> (text: String)
        ensures
            text@ == self.message_spec(),
    {
        let text = match self {
            AlertError::NoSuchAlert => "no such alert",
            AlertError::NoSuchField => "no such field",
            AlertError::AlreadyExists => "alert already exists",
            AlertError::FieldIdTaken => "field id already in use",
            AlertError::NoFieldGiven => "no field name or id provided",
            AlertError::InvalidKind => "invalid kind",
            AlertError::InvalidUpdate => "invalid update requested",
            AlertError::InvalidNumber => "not a whole number that a counter can hold",
            AlertError::OutOfRange => "counter out of range",
            AlertError::Unreadable => "could not read alert",
        };
        text.to_owned()
    }
}

} // verus!
