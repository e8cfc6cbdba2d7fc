//! The error taxonomy and its mapping to response status codes.
use vstd::prelude::*;

verus! {

#[verifier::external_type_specification]
#[verifier::external_body]
pub struct ExJsonError(serde_json::Error);

/// Every way a request can fail.
#[derive(Debug)]
pub enum AppError {
    /// The backing store failed; the text is its report.
    DynamoDb(String),
    /// A request body did not parse.
    Serialization(serde_json::Error),
    /// A delete request body names no `id`.
    MissingId,
    /// No record, or no route, matches the request.
    NotFound,
    /// The request method is not one the service serves.
    MethodNotAllowed,
    /// Any other failure.
    Generic(String),
}

/// The status code that reports an error.
pub open spec fn status_of(e: AppError) -> u16 {
    match e {
        AppError::NotFound => 404,
        AppError::MethodNotAllowed => 405,
        AppError::Serialization(_) | AppError::MissingId => 400,
        AppError::DynamoDb(_) | AppError::Generic(_) => 500,
    }
}

pub open spec fn serialization_prefix() -> Seq<char> {
    "Serialization error: "@
}

/// The message shown to a client for an error other than a parse failure.
/// Store and internal failures all read the same, without detail.
pub open spec fn public_text(e: AppError) -> Seq<char> {
    match e {
        AppError::NotFound => "Not Found"@,
        AppError::MethodNotAllowed => "Method Not Allowed"@,
        AppError::MissingId => "Missing ID in request"@,
        _ => "Internal Server Error"@,
    }
}

/// `t` is a message that may be shown to a client for `e`: a parse failure
/// is reported with the parser's own words after a fixed prefix.
pub open spec fn reports(e: AppError, t: Seq<char>) -> bool {
    match e {
        AppError::Serialization(_) => serialization_prefix().len() <= t.len() && t.take(
            serialization_prefix().len() as int,
        ) == serialization_prefix(),
        _ => t == public_text(e),
    }
}

/// Relies on the `Display` impl of `serde_json::Error`, which describes the
/// parse failure in words.
#[verifier::external_body]
fn describe_json_error(e: &serde_json::Error) -> String {
    e.to_string()
}

impl AppError {
    /// The status code of this error.
    pub fn status_code(&self) -> (r: u16)
        ensures
            r == status_of(*self),
    {
        match self {
            AppError::NotFound => 404,
            AppError::MethodNotAllowed => 405,
            AppError::Serialization(_) => 400,
            AppError::MissingId => 400,
            AppError::DynamoDb(_) => 500,
            AppError::Generic(_) => 500,
        }
    }

    /// The message shown to a client for this error.
    pub fn public_message(&self) -> (r: String)
        ensures
            reports(*self, r@),
    {
        match self {
            AppError::NotFound => "Not Found".to_string(),
            AppError::MethodNotAllowed => "Method Not Allowed".to_string(),
            AppError::MissingId => "Missing ID in request".to_string(),
            AppError::Serialization(e) => {
                let mut t = "Serialization error: ".to_string();
                let d = describe_json_error(e);
                let ghost before = t@;
                t.append(d.as_str());
                assert(t@.take(serialization_prefix().len() as int) =~= before);
                t
            },
            AppError::DynamoDb(_) => "Internal Server Error".to_string(),
            AppError::Generic(_) => "Internal Server Error".to_string(),
        }
    }

    /// A description of this error, with the detail it carries.
    pub fn message(&self) -> (r: String)
        ensures
            match *self {
                AppError::DynamoDb(s) => r@ == "DynamoDB error: "@ + s@,
                AppError::Generic(s) => r@ == "Generic error: "@ + s@,
                AppError::Serialization(_) => reports(*self, r@),
                _ => r@ == public_text(*self),
            },
    {
        match self {
            AppError::DynamoDb(s) => {
                let mut t = "DynamoDB error: ".to_string();
                t.append(s.as_str());
                t
            },
            AppError::Generic(s) => {
                let mut t = "Generic error: ".to_string();
                t.append(s.as_str());
                t
            },
            _ => self.public_message(),
        }
    }
}

} // verus!
