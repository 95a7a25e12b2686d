//! The three calls of the upload protocol: what each sends, and how each reply
//! is read. The network round trips themselves are made by the caller, which
//! hands back the status code and the decoded body.

use vstd::prelude::*;

verus! {

/// The status with which the service rejects the credential.
pub const STATUS_FORBIDDEN: u16 = 403;

/// The status with which the service rejects a malformed request.
pub const STATUS_BAD_REQUEST: u16 = 400;

/// One file to upload: its path, its base name and its length in bytes.
pub struct UploadTarget {
    pub path: String,
    pub file_name: String,
    pub content_length: u64,
}

impl UploadTarget {
    pub fn new(path: String, file_name: String, content_length: u64) -> (r: UploadTarget)
        ensures
            r.path == path,
            r.file_name == file_name,
            r.content_length == content_length,
    {
        UploadTarget { path, file_name, content_length }
    }

    /// A copy of the target.
    pub fn duplicate(&self) -> (r: UploadTarget)
        ensures
            r == *self,
    {
        UploadTarget {
            path: self.path.clone(),
            file_name: self.file_name.clone(),
            content_length: self.content_length,
        }
    }
}

/// Body of the call that opens an upload session.
pub struct NewUploadRequest {
    pub file_name: String,
    pub content_length: u64,
}

/// The session that the service opens: its id and the one-time write destination.
pub struct NewUploadResponse {
    pub id: String,
    pub url: String,
}

impl NewUploadResponse {
    /// A copy of the session.
    pub fn duplicate(&self) -> (r: NewUploadResponse)
        ensures
            r == *self,
    {
        NewUploadResponse { id: self.id.clone(), url: self.url.clone() }
    }
}

/// Body of the reply with which the service rejects a malformed request.
pub struct NewUploadError {
    pub status: String,
    pub reason: String,
}

/// Body of the call that completes an upload.
pub struct FinalizeUploadRequest {
    pub id: String,
    pub tags: String,
    pub source: String,
    pub description: String,
    pub original_upload_date: Option<String>,
}

/// Reply to the completing call: the upload's id and its public address.
pub struct FinalizeUploadResponse {
    pub id: String,
    pub url: String,
}

/// Why one call of the protocol failed.
pub enum ProtocolError {
    /// The service rejected the credential.
    Auth,
    /// The service rejected the request, for the reason it gave.
    Validation { reason: String },
    /// The call did not complete, or its reply could not be read.
    Transport { detail: String },
}

pub open spec fn auth_reason() -> Seq<char> {
    "Invalid API key"@
}

pub open spec fn malformed_reply_detail() -> Seq<char> {
    "malformed response body"@
}

pub open spec fn failed_write_detail() -> Seq<char> {
    "transfer rejected by the destination"@
}

impl ProtocolError {
    /// The human-readable reason of an error.
    pub open spec fn reason_spec(&self) -> Seq<char> {
        match self {
            ProtocolError::Auth => auth_reason(),
            ProtocolError::Validation { reason } => reason@,
            ProtocolError::Transport { detail } => detail@,
        }
    }

    pub fn reason(&self) -> (r: String)
        ensures
            r@ == self.reason_spec(),
    {
        match self {
            ProtocolError::Auth => String::from_str("Invalid API key"),
            ProtocolError::Validation { reason } => reason.clone(),
            ProtocolError::Transport { detail } => detail.clone(),
        }
    }

    /// A copy of the error.
    pub fn duplicate(&self) -> (r: ProtocolError)
        ensures
            r == *self,
    {
        match self {
            ProtocolError::Auth => ProtocolError::Auth,
            ProtocolError::Validation { reason } => ProtocolError::Validation { reason: reason.clone() },
            ProtocolError::Transport { detail } => ProtocolError::Transport { detail: detail.clone() },
        }
    }

    /// A transport fault with the given description.
    pub fn transport(detail: String) -> (r: ProtocolError)
        ensures
            r == (ProtocolError::Transport { detail }),
    {
        ProtocolError::Transport { detail }
    }
}

pub open spec fn uploads_path() -> Seq<char> {
    "/api/v1/uploads"@
}

pub open spec fn finalize_path() -> Seq<char> {
    "/api/v1/uploads/finalize"@
}

pub open spec fn bearer_prefix() -> Seq<char> {
    "Bearer "@
}

/// Address of the call that opens a session.
pub fn initiate_endpoint(host: &str) -> (r: String)
    ensures
        r@ == host@ + uploads_path(),
{
    let mut r = host.to_owned();
    r.append("/api/v1/uploads");
    r
}

/// Address of the call that completes an upload.
pub fn finalize_endpoint(host: &str) -> (r: String)
    ensures
        r@ == host@ + finalize_path(),
{
    let mut r = host.to_owned();
    r.append("/api/v1/uploads/finalize");
    r
}

/// Value of the authorization header that carries the credential.
pub fn bearer_header(api_token: &str) -> (r: String)
    ensures
        r@ == bearer_prefix() + api_token@,
{
    String::from_str("Bearer ").concat(api_token)
}

impl NewUploadRequest {
    /// The request that names a target and its length.
    pub fn for_target(target: &UploadTarget) -> (r: NewUploadRequest)
        ensures
            r.file_name == target.file_name,
            r.content_length == target.content_length,
    {
        NewUploadRequest { file_name: target.file_name.clone(), content_length: target.content_length }
    }
}

impl FinalizeUploadRequest {
    /// The record that completes session `id` with the caller's tags and no
    /// descriptive metadata.
    pub fn new(id: String, tags: String) -> (r: FinalizeUploadRequest)
        ensures
            r.id == id,
            r.tags == tags,
            r.source@ == Seq::<char>::empty(),
            r.description@ == Seq::<char>::empty(),
            r.original_upload_date.is_none(),
    {
        FinalizeUploadRequest {
            id,
            tags,
            source: String::new(),
            description: String::new(),
            original_upload_date: None,
        }
    }
}

/// Reads the reply to the opening call.
pub fn interpret_initiate(
    status: u16,
    error_body: Option<NewUploadError>,
    session_body: Option<NewUploadResponse>,
) -> (r: Result<NewUploadResponse, ProtocolError>)
    ensures
        status == STATUS_FORBIDDEN ==> r == Err::<NewUploadResponse, ProtocolError>(
            ProtocolError::Auth,
        ),
        status == STATUS_BAD_REQUEST ==> match error_body {
            Some(e) => r == Err::<NewUploadResponse, ProtocolError>(
                ProtocolError::Validation { reason: e.reason },
            ),
            None => r is Err && r->Err_0 is Transport && r->Err_0.reason_spec()
                == malformed_reply_detail(),
        },
        status != STATUS_FORBIDDEN && status != STATUS_BAD_REQUEST ==> match session_body {
            Some(s) => r == Ok::<NewUploadResponse, ProtocolError>(s),
            None => r is Err && r->Err_0 is Transport && r->Err_0.reason_spec()
                == malformed_reply_detail(),
        },
{
    if status == STATUS_FORBIDDEN {
        Err(ProtocolError::Auth)
    } else if status == STATUS_BAD_REQUEST {
        match error_body {
            Some(e) => Err(ProtocolError::Validation { reason: e.reason }),
            None => Err(ProtocolError::Transport { detail: String::from_str("malformed response body") }),
        }
    } else {
        match session_body {
            Some(s) => Ok(s),
            None => Err(ProtocolError::Transport { detail: String::from_str("malformed response body") }),
        }
    }
}

/// Whether a status reports success.
pub open spec fn is_success_status(status: u16) -> bool {
    200 <= status <= 299
}

/// Reads the reply to the write of the file's bytes: any status but a success is a fault.
pub fn interpret_transfer(status: u16) -> (r: Result<(), ProtocolError>)
    ensures
        is_success_status(status) <==> r is Ok,
        !is_success_status(status) ==> r->Err_0 is Transport && r->Err_0.reason_spec()
            == failed_write_detail(),
{
    if 200 <= status && status <= 299 {
        Ok(())
    } else {
        Err(ProtocolError::Transport { detail: String::from_str("transfer rejected by the destination") })
    }
}

/// Reads the reply to the completing call, with its body read as a completion
/// (`None` where the body is not of that shape).
pub fn interpret_finalize(status: u16, body: Option<FinalizeUploadResponse>) -> (r: Result<
    FinalizeUploadResponse,
    ProtocolError,
>)
    ensures
        status == STATUS_FORBIDDEN ==> r == Err::<FinalizeUploadResponse, ProtocolError>(
            ProtocolError::Auth,
        ),
        status != STATUS_FORBIDDEN ==> match body {
            Some(b) => r == Ok::<FinalizeUploadResponse, ProtocolError>(b),
            None => r is Err && r->Err_0 is Transport && r->Err_0.reason_spec()
                == malformed_reply_detail(),
        },
{
    if status == STATUS_FORBIDDEN {
        Err(ProtocolError::Auth)
    } else {
        match body {
            Some(b) => Ok(b),
            None => Err(ProtocolError::Transport { detail: String::from_str("malformed response body") }),
        }
    }
}

} // verus!
