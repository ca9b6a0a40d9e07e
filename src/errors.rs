use vstd::prelude::*;

verus! {

/// The categories a failed request falls into; each has one HTTP status.
#[derive(Clone, Copy, Debug, PartialEq, Eq, Structural)]
pub enum ErrorKind {
    BadRequest,
    Unauthorized,
    Conflict,
    NotFound,
    InternalError,
}

/// The outside system whose failure ended a request.
#[derive(Clone, Copy, Debug, PartialEq, Eq, Structural)]
pub enum Backend {
    Database,
    Cache,
    Signing,
    Hashing,
    PasswordCheck,
    Storage,
    VectorIndex,
    Search,
}

/// A failed call to the database, the cache, the object store or the vector index.
#[derive(Clone, Copy, Debug, PartialEq, Eq, Structural)]
pub struct BackendFailure;

/// Why a request failed, as reported to the client.
#[derive(Clone, Copy, Debug, PartialEq, Eq, Structural)]
pub enum ApiError {
    InvalidUserId,
    MalformedUpload,
    NoFileUploaded,
    UserExists,
    InvalidCredentials,
    InvalidRefreshToken,
    InvalidToken,
    UserNotFound,
    FileNotFound,
    MemoNotFound,
    MessageNotFound,
    Downstream(Backend),
}

/// The body of every error response: a single message.
#[derive(Debug)]
pub struct ErrorResponse {
    pub error: String,
}

pub open spec fn status_of(kind: ErrorKind) -> u16 {
    match kind {
        ErrorKind::BadRequest => 400,
        ErrorKind::Unauthorized => 401,
        ErrorKind::Conflict => 409,
        ErrorKind::NotFound => 404,
        ErrorKind::InternalError => 500,
    }
}

pub open spec fn backend_message(b: Backend) -> Seq<char> {
    match b {
        Backend::Database => "Database error"@,
        Backend::Cache => "Redis error"@,
        Backend::Signing => "JWT error"@,
        Backend::Hashing => "Hash error"@,
        Backend::PasswordCheck => "Verify error"@,
        Backend::Storage => "Storage error"@,
        Backend::VectorIndex => "Vector DB error"@,
        Backend::Search => "Search error"@,
    }
}

impl ApiError {
    pub open spec fn spec_kind(self) -> ErrorKind {
        match self {
            ApiError::InvalidUserId | ApiError::MalformedUpload | ApiError::NoFileUploaded => {
                ErrorKind::BadRequest
            },
            ApiError::UserExists => ErrorKind::Conflict,
            ApiError::InvalidCredentials
            | ApiError::InvalidRefreshToken
            | ApiError::InvalidToken
            | ApiError::UserNotFound => ErrorKind::Unauthorized,
            ApiError::FileNotFound | ApiError::MemoNotFound | ApiError::MessageNotFound => ErrorKind::NotFound,
            ApiError::Downstream(_) => ErrorKind::InternalError,
        }
    }

    pub open spec fn spec_message(self) -> Seq<char> {
        match self {
            ApiError::InvalidUserId => "Invalid user ID"@,
            ApiError::MalformedUpload => "Invalid multipart data"@,
            ApiError::NoFileUploaded => "No file uploaded"@,
            ApiError::UserExists => "User already exists"@,
            ApiError::InvalidCredentials => "Invalid credentials"@,
            ApiError::InvalidRefreshToken => "Invalid refresh token"@,
            ApiError::InvalidToken => "Invalid token"@,
            ApiError::UserNotFound => "User not found"@,
            ApiError::FileNotFound => "File not found"@,
            ApiError::MemoNotFound => "Memo not found"@,
            ApiError::MessageNotFound => "Message not found"@,
            ApiError::Downstream(b) => backend_message(b),
        }
    }

    /// The category of this failure.
    pub fn kind(&self) -> (k: ErrorKind)
        ensures
            k == self.spec_kind(),
    {
        match self {
            ApiError::InvalidUserId | ApiError::MalformedUpload | ApiError::NoFileUploaded => {
                ErrorKind::BadRequest
            },
            ApiError::UserExists => ErrorKind::Conflict,
            ApiError::InvalidCredentials
            | ApiError::InvalidRefreshToken
            | ApiError::InvalidToken
            | ApiError::UserNotFound => ErrorKind::Unauthorized,
            ApiError::FileNotFound | ApiError::MemoNotFound | ApiError::MessageNotFound => ErrorKind::NotFound,
            ApiError::Downstream(_) => ErrorKind::InternalError,
        }
    }

    /// The HTTP status of the response that reports this failure.
    pub fn status(&self) -> (s: u16)
        ensures
            s == status_of(self.spec_kind()),
    {
        match self.kind() {
            ErrorKind::BadRequest => 400,
            ErrorKind::Unauthorized => 401,
            ErrorKind::Conflict => 409,
            ErrorKind::NotFound => 404,
            ErrorKind::InternalError => 500,
        }
    }

    /// The message shown to the client.
    pub fn message(&self) -> (m: &'static str)
        ensures
            m@ == self.spec_message(),
    {
        match self {
            ApiError::InvalidUserId => "Invalid user ID",
            ApiError::MalformedUpload => "Invalid multipart data",
            ApiError::NoFileUploaded => "No file uploaded",
            ApiError::UserExists => "User already exists",
            ApiError::InvalidCredentials => "Invalid credentials",
            ApiError::InvalidRefreshToken => "Invalid refresh token",
            ApiError::InvalidToken => "Invalid token",
            ApiError::UserNotFound => "User not found",
            ApiError::FileNotFound => "File not found",
            ApiError::MemoNotFound => "Memo not found",
            ApiError::MessageNotFound => "Message not found",
            ApiError::Downstream(b) => match b {
                Backend::Database => "Database error",
                Backend::Cache => "Redis error",
                Backend::Signing => "JWT error",
                Backend::Hashing => "Hash error",
                Backend::PasswordCheck => "Verify error",
                Backend::Storage => "Storage error",
                Backend::VectorIndex => "Vector DB error",
                Backend::Search => "Search error",
            },
        }
    }

    /// The JSON body that reports this failure.
    pub fn to_response(&self) -> (r: ErrorResponse)
        ensures
            r.error@ == self.spec_message(),
    {
        ErrorResponse { error: String::from_str(self.message()) }
    }
}

} // verus!
