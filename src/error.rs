//! The closed set of failures, their response status codes and messages.
use vstd::prelude::*;

verus! {

/// Why an item was rejected; the first rule that fails decides.
#[derive(Clone, Copy, Debug, PartialEq, Eq, Structural)]
pub enum ValidationError {
    EmptyName,
    NameTooLong,
    InvalidNameChars,
    DescriptionTooLong,
    InvalidDescriptionChars,
    InvalidClassification,
}

pub open spec fn validation_text(e: ValidationError) -> Seq<char> {
    match e {
        ValidationError::EmptyName => "Item name cannot be empty"@,
        ValidationError::NameTooLong => "Item name too long (max 100 characters)"@,
        ValidationError::InvalidNameChars => "Item name contains invalid characters"@,
        ValidationError::DescriptionTooLong => "Description too long (max 1000 characters)"@,
        ValidationError::InvalidDescriptionChars => "Description contains invalid characters"@,
        ValidationError::InvalidClassification => "Invalid classification level"@,
    }
}

impl ValidationError {
    /// The human-readable reason.
    pub fn message(&self) -> (r: String)
        ensures
            r@ == validation_text(*self),
    {
        match self {
            ValidationError::EmptyName => String::from_str("Item name cannot be empty"),
            ValidationError::NameTooLong => String::from_str(
                "Item name too long (max 100 characters)",
            ),
            ValidationError::InvalidNameChars => String::from_str(
                "Item name contains invalid characters",
            ),
            ValidationError::DescriptionTooLong => String::from_str(
                "Description too long (max 1000 characters)",
            ),
            ValidationError::InvalidDescriptionChars => String::from_str(
                "Description contains invalid characters",
            ),
            ValidationError::InvalidClassification => String::from_str(
                "Invalid classification level",
            ),
        }
    }
}

/// A failure of request handling or event consumption, with its context.
#[derive(Debug)]
pub enum AppError {
    /// The backing store failed.
    DynamoDb(String),
    /// The queue failed.
    Sqs(String),
    /// A body or an event could not be read.
    Serialization(String),
    /// The item breaks a rule.
    Validation(ValidationError),
    /// The item does not exist.
    NotFound(String),
    /// Anything else.
    Internal(String),
}

pub enum AppErrorView {
    DynamoDb(Seq<char>),
    Sqs(Seq<char>),
    Serialization(Seq<char>),
    Validation(ValidationError),
    NotFound(Seq<char>),
    Internal(Seq<char>),
}

impl View for AppError {
    type V = AppErrorView;

    open spec fn view(&self) -> AppErrorView {
        match self {
            AppError::DynamoDb(m) => AppErrorView::DynamoDb(m@),
            AppError::Sqs(m) => AppErrorView::Sqs(m@),
            AppError::Serialization(m) => AppErrorView::Serialization(m@),
            AppError::Validation(v) => AppErrorView::Validation(*v),
            AppError::NotFound(m) => AppErrorView::NotFound(m@),
            AppError::Internal(m) => AppErrorView::Internal(m@),
        }
    }
}

/// Client faults are 4xx: a missing item 404, a rejected or unreadable body 400; all else 500.
pub open spec fn status_of(e: AppErrorView) -> u16 {
    match e {
        AppErrorView::NotFound(_) => 404,
        AppErrorView::Validation(_) => 400,
        AppErrorView::Serialization(_) => 400,
        _ => 500,
    }
}

pub open spec fn message_of(e: AppErrorView) -> Seq<char> {
    match e {
        AppErrorView::DynamoDb(m) => m,
        AppErrorView::Sqs(m) => m,
        AppErrorView::Serialization(m) => m,
        AppErrorView::Validation(v) => validation_text(v),
        AppErrorView::NotFound(m) => m,
        AppErrorView::Internal(m) => m,
    }
}

pub open spec fn not_found_text(id: Seq<char>) -> Seq<char> {
    "Item with ID "@ + id + " not found"@
}

impl AppError {
    /// The error for an id that names no item.
    pub fn item_not_found(id: &str) -> (r: AppError)
        ensures
            r@ == AppErrorView::NotFound(not_found_text(id@)),
    {
        let mut m = String::from_str("Item with ID ");
        m.append(id);
        m.append(" not found");
        AppError::NotFound(m)
    }

    /// The response status code of this error.
    pub fn status_code(&self) -> (r: u16)
        ensures
            r == status_of(self@),
    {
        match self {
            AppError::NotFound(_) => 404,
            AppError::Validation(_) => 400,
            AppError::Serialization(_) => 400,
            _ => 500,
        }
    }

    /// The text shown to the caller in the error body.
    pub fn message(&self) -> (r: String)
        ensures
            r@ == message_of(self@),
    {
        match self {
            AppError::DynamoDb(m) => m.clone(),
            AppError::Sqs(m) => m.clone(),
            AppError::Serialization(m) => m.clone(),
            AppError::Validation(v) => v.message(),
            AppError::NotFound(m) => m.clone(),
            AppError::Internal(m) => m.clone(),
        }
    }
}

} // verus!
