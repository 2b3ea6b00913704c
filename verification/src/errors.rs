//! The closed error taxonomy and its mapper.
//!
//! Every failure in the gateway is classified into one of six kinds,
//! and each kind collapses to exactly one externally visible outcome
//! class: a client error or a server error. The mapper is a pure
//! function from an error to an outcome class and a diagnostic message;
//! no component may let an unclassified error cross its boundary.

use vstd::prelude::*;
use vstd::string::*;

verus! {

/// The closed set of failure kinds crossing component boundaries.
#[derive(Clone, Copy, Debug, PartialEq, Eq, Structural)]
pub enum ErrorKind {
    /// A descriptor or key failed validation.
    InvalidInput,
    /// URL template inputs were malformed.
    BuildUrl,
    /// A role could not be assumed or a token could not be obtained.
    CredentialError,
    /// A network failure reaching the remote service or external source.
    TransportError,
    /// The remote service rejected or failed the operation.
    RemoteStorageError,
    /// A local file create, write, or read failed.
    LocalIOError,
}

/// The two-valued, externally visible severity of a failure.
#[derive(Clone, Copy, Debug, PartialEq, Eq, Structural)]
pub enum OutcomeClass {
    ClientError,
    ServerError,
}

/// The outcome class owed to each error kind: input and URL problems
/// are the caller's, everything else is the gateway's.
pub open spec fn classify_kind(k: ErrorKind) -> OutcomeClass {
    match k {
        ErrorKind::InvalidInput => OutcomeClass::ClientError,
        ErrorKind::BuildUrl => OutcomeClass::ClientError,
        ErrorKind::CredentialError => OutcomeClass::ServerError,
        ErrorKind::TransportError => OutcomeClass::ServerError,
        ErrorKind::RemoteStorageError => OutcomeClass::ServerError,
        ErrorKind::LocalIOError => OutcomeClass::ServerError,
    }
}

/// The HTTP status that reports an outcome class.
pub open spec fn status_of(c: OutcomeClass) -> int {
    match c {
        OutcomeClass::ClientError => 400,
        OutcomeClass::ServerError => 500,
    }
}

/// Classifies an error kind into its outcome class.
pub fn classify(k: ErrorKind) -> (c: OutcomeClass)
    ensures
        c == classify_kind(k),
{
    match k {
        ErrorKind::InvalidInput => OutcomeClass::ClientError,
        ErrorKind::BuildUrl => OutcomeClass::ClientError,
        ErrorKind::CredentialError => OutcomeClass::ServerError,
        ErrorKind::TransportError => OutcomeClass::ServerError,
        ErrorKind::RemoteStorageError => OutcomeClass::ServerError,
        ErrorKind::LocalIOError => OutcomeClass::ServerError,
    }
}

/// The status code that reports an outcome class.
pub fn status_code(c: OutcomeClass) -> (s: u16)
    ensures
        s == status_of(c),
{
    match c {
        OutcomeClass::ClientError => 400,
        OutcomeClass::ServerError => 500,
    }
}

/// A credential-acquisition failure is always a server error: the
/// caller did nothing wrong, and retrying without a new session cannot
/// help.
pub proof fn lemma_credential_failure_is_server_error()
    ensures
        classify_kind(ErrorKind::CredentialError) == OutcomeClass::ServerError,
        status_of(classify_kind(ErrorKind::CredentialError)) == 500,
{
}

/// A malformed descriptor or key is always the caller's fault: both
/// input-validation failures and URL-construction failures are client
/// errors, reported with a client-error status.
pub proof fn lemma_malformed_input_is_client_error()
    ensures
        classify_kind(ErrorKind::InvalidInput) == OutcomeClass::ClientError,
        classify_kind(ErrorKind::BuildUrl) == OutcomeClass::ClientError,
        status_of(classify_kind(ErrorKind::InvalidInput)) == 400,
        status_of(classify_kind(ErrorKind::BuildUrl)) == 400,
{
}

/// Diagnostic text describing a failure of the remote storage service.
/// It carries the remote-provided code and message when available, and
/// fixed sentinel text when the remote service omits them, so callers
/// never receive an absent error body.
#[derive(Debug, Clone)]
pub struct S3Error(String);

impl View for S3Error {
    type V = Seq<char>;

    closed spec fn view(&self) -> Seq<char> {
        self.0@
    }
}

/// The diagnostic text that reports a remote failure: the remote code
/// and message joined by a separator, with a sentinel for whichever the
/// remote service omitted.
pub open spec fn remote_detail(code: Option<Seq<char>>, message: Option<Seq<char>>) -> Seq<char> {
    (match code {
        Some(c) => c,
        None => "unknown code"@,
    }) + ": "@ + (match message {
        Some(m) => m,
        None => "missing reason"@,
    })
}

impl S3Error {
    /// Wraps diagnostic text as a remote-storage error description.
    pub fn new(value: String) -> (r: S3Error)
        ensures
            r@ == value@,
    {
        S3Error(value)
    }

    /// Prefixes the description with a context message.
    pub fn add_message(self, message: String) -> (r: S3Error)
        ensures
            r@ == message@ + ": "@ + self@,
    {
        let joined = message.concat(": ").concat(self.0.as_str());
        S3Error(joined)
    }

    /// Builds the description from what the remote service provided,
    /// substituting sentinel text for an omitted code or message.
    pub fn from_remote(code: Option<String>, message: Option<String>) -> (r: S3Error)
        ensures
            r@ == remote_detail(code.deep_view(), message.deep_view()),
    {
        let code_text = match code {
            Some(c) => c,
            None => String::from_str("unknown code"),
        };
        let message_text = match message {
            Some(m) => m,
            None => String::from_str("missing reason"),
        };
        S3Error(code_text.concat(": ").concat(message_text.as_str()))
    }

    /// The diagnostic text itself.
    pub fn detail(&self) -> (d: &str)
        ensures
            d@ == self@,
    {
        self.0.as_str()
    }
}

/// The sole error currency crossing component boundaries: a kind from
/// the closed taxonomy and diagnostic text never used for control
/// decisions.
#[derive(Debug, Clone)]
pub struct StorageError {
    pub kind: ErrorKind,
    pub detail: String,
}

impl StorageError {
    /// Wraps a kind and diagnostic text.
    pub fn new(kind: ErrorKind, detail: String) -> (r: StorageError)
        ensures
            r.kind == kind,
            r.detail@ == detail@,
    {
        StorageError { kind, detail }
    }

    /// The caller-facing report of this error.
    pub fn to_err_resp(&self) -> (r: ErrResp)
        ensures
            r.status == status_of(classify_kind(self.kind)),
            r.body.message@ == self.detail@,
    {
        let status = status_code(classify(self.kind));
        ErrResp { status, body: ErrRespBody { message: self.detail.clone() } }
    }
}

/// The mapper of the taxonomy: a pure function from an error to its
/// outcome class and its diagnostic message. It performs no work beyond
/// constructing the pair.
pub fn map_error(e: &StorageError) -> (r: (OutcomeClass, String))
    ensures
        r.0 == classify_kind(e.kind),
        r.1@ == e.detail@,
{
    (classify(e.kind), e.detail.clone())
}

/// The body of a caller-facing error report.
#[derive(Debug, Clone)]
pub struct ErrRespBody {
    pub message: String,
}

/// A caller-facing error report: a status code determined by the
/// outcome class, and a diagnostic body.
#[derive(Debug, Clone)]
pub struct ErrResp {
    pub status: u16,
    pub body: ErrRespBody,
}

/// A failure of the upload operation.
#[derive(Debug)]
pub enum PutObjectError {
    /// The remote service rejected or failed the put.
    Put(S3Error),
}

impl PutObjectError {
    /// The taxonomy kind of this failure.
    pub open spec fn kind(self) -> ErrorKind {
        match self {
            PutObjectError::Put(_) => ErrorKind::RemoteStorageError,
        }
    }

    /// The diagnostic message reported for this failure.
    pub open spec fn response_message(self) -> Seq<char> {
        match self {
            PutObjectError::Put(e) => e@,
        }
    }

    /// The body of the caller-facing report.
    pub fn to_resp_body(&self) -> (b: ErrRespBody)
        ensures
            b.message@ == self.response_message(),
    {
        match self {
            PutObjectError::Put(e) => ErrRespBody { message: e.0.clone() },
        }
    }

    /// The caller-facing report: upload failures are server errors.
    pub fn to_err_resp(&self) -> (r: ErrResp)
        ensures
            r.status == status_of(classify_kind(self.kind())),
            r.body.message@ == self.response_message(),
    {
        let body = self.to_resp_body();
        let status = status_code(classify(ErrorKind::RemoteStorageError));
        ErrResp { status, body }
    }
}

/// A failure of the download operation.
#[derive(Debug)]
pub enum GetObjectError {
    /// The remote service rejected or failed the get.
    Get(S3Error),
    /// A chunk read from the remote stream failed mid-transfer.
    Read(S3Error),
    /// The local destination file could not be created.
    CreateFile(String),
    /// A chunk could not be written to the local destination file.
    WriteFile(String),
}

impl GetObjectError {
    /// The taxonomy kind of this failure.
    pub open spec fn kind(self) -> ErrorKind {
        match self {
            GetObjectError::Get(_) => ErrorKind::RemoteStorageError,
            GetObjectError::Read(_) => ErrorKind::TransportError,
            GetObjectError::CreateFile(_) => ErrorKind::LocalIOError,
            GetObjectError::WriteFile(_) => ErrorKind::LocalIOError,
        }
    }

    /// The diagnostic message reported for this failure. Local file
    /// errors are reported with fixed text, never with a raw error
    /// object.
    pub open spec fn response_message(self) -> Seq<char> {
        match self {
            GetObjectError::Get(e) => e@,
            GetObjectError::Read(e) => e@,
            GetObjectError::CreateFile(_) => "create file"@,
            GetObjectError::WriteFile(_) => "write file"@,
        }
    }

    /// The body of the caller-facing report.
    pub fn to_resp_body(&self) -> (b: ErrRespBody)
        ensures
            b.message@ == self.response_message(),
    {
        match self {
            GetObjectError::Get(e) => ErrRespBody { message: e.0.clone() },
            GetObjectError::Read(e) => ErrRespBody { message: e.0.clone() },
            GetObjectError::CreateFile(_) => ErrRespBody { message: String::from_str("create file") },
            GetObjectError::WriteFile(_) => ErrRespBody { message: String::from_str("write file") },
        }
    }

    /// The caller-facing report: download failures are server errors.
    pub fn to_err_resp(&self) -> (r: ErrResp)
        ensures
            r.status == status_of(classify_kind(self.kind())),
            r.body.message@ == self.response_message(),
    {
        let body = self.to_resp_body();
        ErrResp { status: 500, body }
    }
}

/// A failure of the listing operation.
#[derive(Debug)]
pub enum ListObjectsError {
    /// The remote service rejected or failed the listing.
    List(S3Error),
}

impl ListObjectsError {
    /// The taxonomy kind of this failure.
    pub open spec fn kind(self) -> ErrorKind {
        match self {
            ListObjectsError::List(_) => ErrorKind::RemoteStorageError,
        }
    }

    /// The diagnostic message reported for this failure.
    pub open spec fn response_message(self) -> Seq<char> {
        match self {
            ListObjectsError::List(e) => e@,
        }
    }

    /// The body of the caller-facing report.
    pub fn to_resp_body(&self) -> (b: ErrRespBody)
        ensures
            b.message@ == self.response_message(),
    {
        match self {
            ListObjectsError::List(e) => ErrRespBody { message: e.0.clone() },
        }
    }

    /// The caller-facing report: listing failures are server errors.
    pub fn to_err_resp(&self) -> (r: ErrResp)
        ensures
            r.status == status_of(classify_kind(self.kind())),
            r.body.message@ == self.response_message(),
    {
        let body = self.to_resp_body();
        let status = status_code(classify(ErrorKind::RemoteStorageError));
        ErrResp { status, body }
    }
}

/// A failure of the content-fetch operation.
#[derive(Debug)]
pub enum FetchImageError {
    /// The descriptor failed validation.
    InvalidInput(String),
    /// The descriptor produced no valid URL.
    BuildUrl(String),
    /// The request could not reach the external source.
    Request(String),
    /// The response body could not be read to the end.
    ReadBody(String),
    /// The local destination file could not be created.
    CreateFile(String),
    /// The fetched bytes could not be written to the local file.
    Write(String),
}

impl FetchImageError {
    /// The taxonomy kind of this failure.
    pub open spec fn kind(self) -> ErrorKind {
        match self {
            FetchImageError::InvalidInput(_) => ErrorKind::InvalidInput,
            FetchImageError::BuildUrl(_) => ErrorKind::BuildUrl,
            FetchImageError::Request(_) => ErrorKind::TransportError,
            FetchImageError::ReadBody(_) => ErrorKind::TransportError,
            FetchImageError::CreateFile(_) => ErrorKind::LocalIOError,
            FetchImageError::Write(_) => ErrorKind::LocalIOError,
        }
    }

    /// The diagnostic message reported for this failure: fixed text per
    /// variant, never a raw error object.
    pub open spec fn response_message(self) -> Seq<char> {
        match self {
            FetchImageError::InvalidInput(_) => "invalid input"@,
            FetchImageError::BuildUrl(_) => "build url"@,
            FetchImageError::Request(_) => "request"@,
            FetchImageError::ReadBody(_) => "read body"@,
            FetchImageError::CreateFile(_) => "create file"@,
            FetchImageError::Write(_) => "write buffer"@,
        }
    }

    /// The body of the caller-facing report.
    pub fn to_resp_body(&self) -> (b: ErrRespBody)
        ensures
            b.message@ == self.response_message(),
    {
        match self {
            FetchImageError::InvalidInput(_) => ErrRespBody { message: String::from_str("invalid input") },
            FetchImageError::BuildUrl(_) => ErrRespBody { message: String::from_str("build url") },
            FetchImageError::Request(_) => ErrRespBody { message: String::from_str("request") },
            FetchImageError::ReadBody(_) => ErrRespBody { message: String::from_str("read body") },
            FetchImageError::CreateFile(_) => ErrRespBody { message: String::from_str("create file") },
            FetchImageError::Write(_) => ErrRespBody { message: String::from_str("write buffer") },
        }
    }

    /// The caller-facing report: descriptor problems are client errors,
    /// transport and local file problems are server errors.
    pub fn to_err_resp(&self) -> (r: ErrResp)
        ensures
            r.status == status_of(classify_kind(self.kind())),
            r.body.message@ == self.response_message(),
    {
        let body = self.to_resp_body();
        let status = match self {
            FetchImageError::InvalidInput(_) => status_code(classify(ErrorKind::InvalidInput)),
            FetchImageError::BuildUrl(_) => status_code(classify(ErrorKind::BuildUrl)),
            FetchImageError::Request(_) => status_code(classify(ErrorKind::TransportError)),
            FetchImageError::ReadBody(_) => status_code(classify(ErrorKind::TransportError)),
            FetchImageError::CreateFile(_) => status_code(classify(ErrorKind::LocalIOError)),
            FetchImageError::Write(_) => status_code(classify(ErrorKind::LocalIOError)),
        };
        ErrResp { status, body }
    }
}

} // verus!
