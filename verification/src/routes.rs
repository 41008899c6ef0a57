//! The HTTP surface's payloads and decisions: for each route, the response
//! types, their status codes and bodies byte for byte, and the verified
//! decision between them.
//!
//! The unverified adapter parses requests and writes responses; everything in
//! between — ownership checks, link conversion, error classification — is
//! decided here. Every error body has the shape
//! `{"type":"<kind>","msg":"<short description>"}`, and the not-found
//! response is one fixed byte string: a lookup with a wrong chat id renders
//! bit-identically to a lookup of an id that never existed.
use crate::codec::{json_str_array, json_string, push_json_str_array, push_json_string,
    push_str_bytes};
use crate::registry::{ApiState, GetFileError, GsLogToLocustConverterError, ListFilesError};
use crate::task::Status;
use crate::utils::{spec_convert, GoogleConvertLinkError, UrlParts};
use crate::wire::{error_body, spec_error_body, spec_status_json, status_json};
use vstd::prelude::*;
use vstd::string::StringSliceAdditionalSpecFns;
use vstd::utf8::encode_utf8;

verus! {

/// The request is understood, the answer is in the body.
pub const HTTP_OK: u16 = 200;

/// The job was created.
pub const HTTP_CREATED: u16 = 201;

/// The request is malformed: a missing chat id or key, a bad query, a bad
/// URL.
pub const HTTP_BAD_REQUEST: u16 = 400;

/// The presented api key does not match the configured token.
pub const HTTP_UNAUTHORIZED: u16 = 401;

/// The entity does not exist for this chat: an absent id and a wrong chat id
/// answer alike.
pub const HTTP_NOT_FOUND: u16 = 404;

/// An unexpected I/O or library failure.
pub const HTTP_INTERNAL_SERVER_ERROR: u16 = 500;

/// The service-level errors of the thin HTTP adapter. A wrong chat id is
/// deliberately not distinguishable: it surfaces as `NotFound`, the same as
/// an absent id, to defeat id enumeration.
#[derive(Debug, Clone, Copy, PartialEq, Eq, Structural)]
pub enum ApiError {
    /// The client did not supply a chat id.
    ChatIdMissing,
    /// The client did not supply an api key.
    ApiKeyMissing,
    /// The supplied api key does not match the token.
    ApiKeyInvalid,
    /// The query string did not parse.
    QueryInvalid,
    /// The entity does not exist for this chat.
    NotFound,
    /// An unexpected I/O or library failure.
    InternalServerError,
}

impl ApiError {
    /// The HTTP status code of this error.
    pub open spec fn spec_status_code(self) -> u16 {
        match self {
            ApiError::ChatIdMissing => HTTP_BAD_REQUEST,
            ApiError::ApiKeyMissing => HTTP_BAD_REQUEST,
            ApiError::ApiKeyInvalid => HTTP_UNAUTHORIZED,
            ApiError::QueryInvalid => HTTP_BAD_REQUEST,
            ApiError::NotFound => HTTP_NOT_FOUND,
            ApiError::InternalServerError => HTTP_INTERNAL_SERVER_ERROR,
        }
    }

    /// The error's body: its kind tag and short message.
    pub open spec fn spec_body(self) -> Seq<u8> {
        match self {
            ApiError::ChatIdMissing => spec_error_body(
                "ChatIdMissing".spec_bytes(),
                "Chat id missing".spec_bytes(),
            ),
            ApiError::ApiKeyMissing => spec_error_body(
                "ApiKeyMissing".spec_bytes(),
                "Api key missing".spec_bytes(),
            ),
            ApiError::ApiKeyInvalid => spec_error_body(
                "ApiKeyInvalid".spec_bytes(),
                "Api key invalid".spec_bytes(),
            ),
            ApiError::QueryInvalid => spec_error_body(
                "QueryInvalid".spec_bytes(),
                "Query invalid".spec_bytes(),
            ),
            ApiError::NotFound => spec_error_body(
                "NotFound".spec_bytes(),
                "Not found".spec_bytes(),
            ),
            ApiError::InternalServerError => spec_error_body(
                "InternalServerError".spec_bytes(),
                "Internal server error. See server logs".spec_bytes(),
            ),
        }
    }

    /// Render this error as a response: its status code and its body.
    pub fn into_response(&self) -> (r: (u16, Vec<u8>))
        ensures
            r.0 == self.spec_status_code(),
            r.1@ == self.spec_body(),
    {
        match self {
            ApiError::ChatIdMissing => (
                HTTP_BAD_REQUEST,
                error_body("ChatIdMissing", "Chat id missing"),
            ),
            ApiError::ApiKeyMissing => (
                HTTP_BAD_REQUEST,
                error_body("ApiKeyMissing", "Api key missing"),
            ),
            ApiError::ApiKeyInvalid => (
                HTTP_UNAUTHORIZED,
                error_body("ApiKeyInvalid", "Api key invalid"),
            ),
            ApiError::QueryInvalid => (
                HTTP_BAD_REQUEST,
                error_body("QueryInvalid", "Query invalid"),
            ),
            ApiError::NotFound => (HTTP_NOT_FOUND, error_body("NotFound", "Not found")),
            ApiError::InternalServerError => (
                HTTP_INTERNAL_SERVER_ERROR,
                error_body("InternalServerError", "Internal server error. See server logs"),
            ),
        }
    }
}

/// A chat id taken from the query string; the adapter answers
/// `ApiError::ChatIdMissing` when there is none.
pub struct ChatId(pub String);

/// A parsed query; the adapter answers `ApiError::QueryInvalid` when the
/// query string does not parse as `T`.
pub struct Query<T>(pub T);

/// The body `{"id":"<id>"}` shared by the responses that return a job or
/// chat id.
pub open spec fn spec_id_body(id: Seq<char>) -> Seq<u8> {
    "{\"id\":".spec_bytes() + json_string(encode_utf8(id)) + "}".spec_bytes()
}

/// Build the shared `{"id":"<id>"}` body.
fn id_body(id: &str) -> (r: Vec<u8>)
    ensures
        r@ == spec_id_body(id@),
{
    let mut out: Vec<u8> = Vec::new();
    push_str_bytes(&mut out, "{\"id\":");
    push_json_string(&mut out, id);
    push_str_bytes(&mut out, "}");
    proof {
        assert(out@ =~= spec_id_body(id@));
    }
    out
}

/// The one not-found body of the task routes: a bare variant name. Every
/// not-found path of a route returns these exact bytes.
pub open spec fn spec_not_found_body() -> Seq<u8> {
    "\"NotFound\"".spec_bytes()
}

/// The server-error body of the file routes.
pub open spec fn spec_server_error_body() -> Seq<u8> {
    "\"ServerError\"".spec_bytes()
}

/// The chat id generated for a session.
#[derive(Debug, PartialEq, Eq)]
pub struct RequestChatIdResponse {
    /// Chat id generated for this session.
    pub id: String,
}

impl RequestChatIdResponse {
    /// Status and body: the id, with the ok status.
    pub fn into_response(&self) -> (r: (u16, Vec<u8>))
        ensures
            r.0 == HTTP_OK,
            r.1@ == spec_id_body(self.id@),
    {
        (HTTP_OK, id_body(self.id.as_str()))
    }
}

/// The task was scheduled for cancellation.
#[derive(Debug, PartialEq, Eq)]
pub struct CancelOkResponse {
    /// Task id that was scheduled for cancellation.
    pub id: String,
}

/// The task to cancel was not found for this chat id.
#[derive(Debug, Clone, Copy, PartialEq, Eq, Structural)]
pub enum CancelErrorResponse {
    NotFound,
}

impl CancelOkResponse {
    /// Status and body: the id, with the ok status.
    pub fn into_response(&self) -> (r: (u16, Vec<u8>))
        ensures
            r.0 == HTTP_OK,
            r.1@ == spec_id_body(self.id@),
    {
        (HTTP_OK, id_body(self.id.as_str()))
    }
}

impl CancelErrorResponse {
    /// Status and body: the fixed not-found bytes, whatever made the lookup
    /// fail.
    pub fn into_response(&self) -> (r: (u16, Vec<u8>))
        ensures
            r.0 == HTTP_NOT_FOUND,
            r.1@ == spec_not_found_body(),
    {
        let mut out: Vec<u8> = Vec::new();
        push_str_bytes(&mut out, "\"NotFound\"");
        proof {
            assert(out@ =~= spec_not_found_body());
        }
        (HTTP_NOT_FOUND, out)
    }
}

/// The status of a task.
#[derive(Debug, PartialEq, Eq)]
pub struct StatusOkResponse {
    /// Status of the task that was asked about.
    pub status: Status,
}

/// The task asked about was not found for this chat id.
#[derive(Debug, Clone, Copy, PartialEq, Eq, Structural)]
pub enum StatusErrorResponse {
    NotFound,
}

impl StatusOkResponse {
    /// Status and body: the status payload, with the ok status.
    pub fn into_response(&self) -> (r: (u16, Vec<u8>))
        ensures
            r.0 == HTTP_OK,
            r.1@ == "{\"status\":".spec_bytes() + spec_status_json(self.status) + "}".spec_bytes(),
    {
        let mut out: Vec<u8> = Vec::new();
        push_str_bytes(&mut out, "{\"status\":");
        let mut body = status_json(&self.status);
        out.append(&mut body);
        push_str_bytes(&mut out, "}");
        proof {
            assert(out@ =~= "{\"status\":".spec_bytes() + spec_status_json(self.status)
                + "}".spec_bytes());
        }
        (HTTP_OK, out)
    }
}

impl StatusErrorResponse {
    /// Status and body: the fixed not-found bytes, whatever made the lookup
    /// fail.
    pub fn into_response(&self) -> (r: (u16, Vec<u8>))
        ensures
            r.0 == HTTP_NOT_FOUND,
            r.1@ == spec_not_found_body(),
    {
        let mut out: Vec<u8> = Vec::new();
        push_str_bytes(&mut out, "\"NotFound\"");
        proof {
            assert(out@ =~= spec_not_found_body());
        }
        (HTTP_NOT_FOUND, out)
    }
}

/// Ask for the status of a task: the registry lookup decides, and a missing
/// id and a wrong chat id fail the same way.
pub fn status(state: &ApiState, id: &str, chat_id: &str) -> (r: Result<
    StatusOkResponse,
    StatusErrorResponse,
>)
    requires
        state.wf(),
    ensures
        match state.spec_lookup_status(id.spec_bytes(), chat_id@) {
            Some(st) => r matches Ok(ok) && ok.status == st,
            None => r == Err::<StatusOkResponse, StatusErrorResponse>(
                StatusErrorResponse::NotFound,
            ),
        },
{
    match state.task_status(id, chat_id) {
        Some(st) => Ok(StatusOkResponse { status: st }),
        None => Err(StatusErrorResponse::NotFound),
    }
}

/// Schedule a task for cancellation: the registry decides, and a missing id
/// and a wrong chat id fail the same way.
pub fn cancel(state: &mut ApiState, id: &str, chat_id: &str) -> (r: Result<
    CancelOkResponse,
    CancelErrorResponse,
>)
    requires
        old(state).wf(),
    ensures
        final(state).wf(),
        match r {
            Ok(ok) => ok.id@ == id@ && (crate::codec::parse_dec_u32(id.spec_bytes())
                matches Some(n) && old(state).owned(n, chat_id@)),
            Err(e) => e == CancelErrorResponse::NotFound && !(crate::codec::parse_dec_u32(
                id.spec_bytes(),
            ) matches Some(n) && old(state).owned(n, chat_id@)),
        },
{
    match state.cancel_task(id, chat_id) {
        Some(the_id) => Ok(CancelOkResponse { id: the_id.to_owned() }),
        None => Err(CancelErrorResponse::NotFound),
    }
}

/// A wrong chat id renders bit-identically to an absent id: under either
/// failure, the status route answers the same fixed `(404, "NotFound")`
/// response, so the two cannot be told apart on the wire.
pub proof fn lemma_not_found_responses_bit_identical(
    s: ApiState,
    id: Seq<u8>,
    chat: Seq<char>,
    absent: Seq<u8>,
)
    requires
        match crate::codec::parse_dec_u32(id) {
            Some(n) => !s.owned(n, chat),
            None => true,
        },
        match crate::codec::parse_dec_u32(absent) {
            Some(n) => !s.has_id(n),
            None => true,
        },
    ensures
        s.spec_lookup_status(id, chat) == s.spec_lookup_status(absent, chat),
        s.spec_lookup_status(id, chat) is None,
{
    crate::registry::lemma_wrong_chat_indistinguishable(s, id, chat, absent);
}

/// Request a chat id: a fresh random session handle in hyphenated uuid form,
/// the only authorisation boundary between clients.
pub fn request_chat_id(state: &ApiState) -> (r: RequestChatIdResponse)
    ensures
        crate::registry::is_hyphenated_uuid(r.id@),
{
    RequestChatIdResponse { id: state.generate_random_chat_id() }
}

/// Schedule a converter run: rejected with the fixed not-found response when
/// the project directory does not exist, otherwise a process job whose id
/// comes back in the created response.
pub fn gs_log_to_locust_converter(
    state: &mut ApiState,
    chat_id: String,
    project_exists: bool,
    now: u64,
) -> (r: Result<GsLogToLocustConverterOkResponse, GsLogToLocustConverterErrorResponse>)
    ensures
        !project_exists ==> r == Err::<
            GsLogToLocustConverterOkResponse,
            GsLogToLocustConverterErrorResponse,
        >(GsLogToLocustConverterErrorResponse::NotFound) && *final(state) == *old(state),
        project_exists ==> (r matches Ok(ok) && crate::registry::spec_submitted(
            *old(state),
            *final(state),
            chat_id@,
            crate::registry::JobKind::Process,
            now,
            old(state).next_id(),
        ) && encode_utf8(ok.id@) == crate::codec::dec_digits(old(state).next_id() as nat)),
        old(state).wf() && old(state).next_id() < u32::MAX ==> final(state).wf(),
{
    match state.run_gs_log_to_locust_converter_task(chat_id, project_exists, now) {
        Ok(id) => Ok(GsLogToLocustConverterOkResponse { id }),
        Err(e) => Err(GsLogToLocustConverterErrorResponse::from(e)),
    }
}

/// List a project's log files, from the filesystem outcomes the adapter
/// passes in.
pub fn list_log_files(
    state: &ApiState,
    project_exists: bool,
    read_dir_result: Option<Vec<String>>,
) -> (r: Result<ListLogfilesOkResponse, ListLogfilesErrorResponse>)
    ensures
        !project_exists ==> (r matches Err(e) && e == ListLogfilesErrorResponse::NotFound),
        project_exists ==> match read_dir_result {
            Some(files) => r matches Ok(ok) && ok.files == files,
            None => r matches Err(e) && e == ListLogfilesErrorResponse::ServerError,
        },
{
    match state.list_files(project_exists, read_dir_result) {
        Ok(files) => Ok(ListLogfilesOkResponse { files }),
        Err(e) => Err(ListLogfilesErrorResponse::from(e)),
    }
}

/// Return a log file's text, from the filesystem outcomes the adapter passes
/// in.
pub fn get_log_file_text(
    state: &ApiState,
    project_exists: bool,
    file_exists: bool,
    read_result: Option<String>,
) -> (r: Result<String, GetLogFileErrorResponse>)
    ensures
        !project_exists || !file_exists ==> (r matches Err(e) && e
            == GetLogFileErrorResponse::NotFound),
        project_exists && file_exists ==> match read_result {
            Some(text) => r matches Ok(t) && t == text,
            None => r matches Err(e) && e == GetLogFileErrorResponse::ServerError,
        },
{
    match state.get_file(project_exists, file_exists, read_result) {
        Ok(text) => Ok(text),
        Err(e) => Err(GetLogFileErrorResponse::from(e)),
    }
}

/// The query of the download route.
#[derive(Debug, PartialEq, Eq)]
pub struct DownloadZipFileQuery {
    /// Name of the project.
    pub project_name: String,
    /// Google Drive share link for the zip file.
    pub google_drive_share_link: String,
}

/// The download task was scheduled.
#[derive(Debug, PartialEq, Eq)]
pub struct DownloadZipFileOkResponse {
    /// Task id that was scheduled for running.
    pub id: String,
}

/// Why the download task could not be scheduled.
#[derive(Debug, Clone, Copy, PartialEq, Eq, Structural)]
pub enum DownloadZipFileErrorResponse {
    /// The share link does not parse as a URL.
    InvalidUrl,
    /// The share link parses but breaks a conversion rule.
    Convert(GoogleConvertLinkError),
    /// Creating the project directory failed.
    ServerError(ApiError),
}

impl DownloadZipFileOkResponse {
    /// Status and body: the id, with the created status.
    pub fn into_response(&self) -> (r: (u16, Vec<u8>))
        ensures
            r.0 == HTTP_CREATED,
            r.1@ == spec_id_body(self.id@),
    {
        (HTTP_CREATED, id_body(self.id.as_str()))
    }
}

/// The wire name of a conversion error.
pub open spec fn spec_convert_error_json(e: GoogleConvertLinkError) -> Seq<u8> {
    match e {
        GoogleConvertLinkError::InvalidScheme => "\"InvalidScheme\"".spec_bytes(),
        GoogleConvertLinkError::InvalidHost => "\"InvalidHost\"".spec_bytes(),
        GoogleConvertLinkError::NoHost => "\"NoHost\"".spec_bytes(),
        GoogleConvertLinkError::NoIdInPath => "\"NoIdInPath\"".spec_bytes(),
        GoogleConvertLinkError::NoSegments => "\"NoSegments\"".spec_bytes(),
    }
}

impl DownloadZipFileErrorResponse {
    /// The body of this error: a tagged object for the route's own errors,
    /// the service error body otherwise.
    pub open spec fn spec_body(self) -> Seq<u8> {
        match self {
            DownloadZipFileErrorResponse::InvalidUrl => "{\"error\":\"InvalidUrl\"}".spec_bytes(),
            DownloadZipFileErrorResponse::Convert(e) => "{\"error\":\"Convert\",\"content\":".spec_bytes()
                + spec_convert_error_json(e) + "}".spec_bytes(),
            DownloadZipFileErrorResponse::ServerError(e) => e.spec_body(),
        }
    }

    /// Status and body: bad request for the route's own errors, the service
    /// error's own status otherwise.
    pub fn into_response(&self) -> (r: (u16, Vec<u8>))
        ensures
            r.1@ == self.spec_body(),
            r.0 == (match *self {
                DownloadZipFileErrorResponse::InvalidUrl => HTTP_BAD_REQUEST,
                DownloadZipFileErrorResponse::Convert(_) => HTTP_BAD_REQUEST,
                DownloadZipFileErrorResponse::ServerError(e) => e.spec_status_code(),
            }),
    {
        match self {
            DownloadZipFileErrorResponse::InvalidUrl => {
                let mut out: Vec<u8> = Vec::new();
                push_str_bytes(&mut out, "{\"error\":\"InvalidUrl\"}");
                proof {
                    assert(out@ =~= self.spec_body());
                }
                (HTTP_BAD_REQUEST, out)
            },
            DownloadZipFileErrorResponse::Convert(e) => {
                let mut out: Vec<u8> = Vec::new();
                push_str_bytes(&mut out, "{\"error\":\"Convert\",\"content\":");
                match e {
                    GoogleConvertLinkError::InvalidScheme => push_str_bytes(
                        &mut out,
                        "\"InvalidScheme\"",
                    ),
                    GoogleConvertLinkError::InvalidHost => push_str_bytes(
                        &mut out,
                        "\"InvalidHost\"",
                    ),
                    GoogleConvertLinkError::NoHost => push_str_bytes(&mut out, "\"NoHost\""),
                    GoogleConvertLinkError::NoIdInPath => push_str_bytes(
                        &mut out,
                        "\"NoIdInPath\"",
                    ),
                    GoogleConvertLinkError::NoSegments => push_str_bytes(
                        &mut out,
                        "\"NoSegments\"",
                    ),
                }
                push_str_bytes(&mut out, "}");
                proof {
                    assert(out@ =~= self.spec_body());
                }
                (HTTP_BAD_REQUEST, out)
            },
            DownloadZipFileErrorResponse::ServerError(e) => e.into_response(),
        }
    }
}

/// The conversion step of the download route: parse the share link and
/// convert it. An unparseable link is `InvalidUrl`; a link that breaks a
/// conversion rule carries that rule's error; otherwise the direct-download
/// URL comes back as bytes, ready for the fetch.
pub fn download_zip_file_prepare(google_drive_share_link: &str) -> (r: Result<
    Vec<u8>,
    DownloadZipFileErrorResponse,
>)
    ensures
        match crate::utils::parsed_url_of(google_drive_share_link@) {
            None => r == Err::<Vec<u8>, DownloadZipFileErrorResponse>(
                DownloadZipFileErrorResponse::InvalidUrl,
            ),
            Some(p) => match spec_convert(p) {
                Ok(bytes) => r matches Ok(v) && v@ == bytes,
                Err(e) => r == Err::<Vec<u8>, DownloadZipFileErrorResponse>(
                    DownloadZipFileErrorResponse::Convert(e),
                ),
            },
        },
{
    let parts: UrlParts = match crate::utils::parse_share_url(google_drive_share_link) {
        Some(parts) => parts,
        None => {
            return Err(DownloadZipFileErrorResponse::InvalidUrl);
        },
    };
    match crate::utils::convert_google_share_or_view_url_to_download_url(&parts) {
        Ok(url) => Ok(url),
        Err(e) => Err(DownloadZipFileErrorResponse::Convert(e)),
    }
}

/// The query of the converter route.
#[derive(Debug, PartialEq, Eq)]
pub struct GsLogToLocustConverterQuery {
    /// Name of the project.
    pub project_name: String,
}

/// The converter task was scheduled.
#[derive(Debug, PartialEq, Eq)]
pub struct GsLogToLocustConverterOkResponse {
    /// Task id that was scheduled for running.
    pub id: String,
}

/// The project to convert was not found.
#[derive(Debug, Clone, Copy, PartialEq, Eq, Structural)]
pub enum GsLogToLocustConverterErrorResponse {
    NotFound,
}

impl GsLogToLocustConverterOkResponse {
    /// Status and body: the id, with the created status.
    pub fn into_response(&self) -> (r: (u16, Vec<u8>))
        ensures
            r.0 == HTTP_CREATED,
            r.1@ == spec_id_body(self.id@),
    {
        (HTTP_CREATED, id_body(self.id.as_str()))
    }
}

impl GsLogToLocustConverterErrorResponse {
    /// The route's error for the registry's refusal.
    pub fn from(err: GsLogToLocustConverterError) -> (r: Self)
        ensures
            r == GsLogToLocustConverterErrorResponse::NotFound,
    {
        match err {
            GsLogToLocustConverterError::NotFound => GsLogToLocustConverterErrorResponse::NotFound,
        }
    }

    /// Status and body: the fixed not-found bytes.
    pub fn into_response(&self) -> (r: (u16, Vec<u8>))
        ensures
            r.0 == HTTP_NOT_FOUND,
            r.1@ == spec_not_found_body(),
    {
        let mut out: Vec<u8> = Vec::new();
        push_str_bytes(&mut out, "\"NotFound\"");
        proof {
            assert(out@ =~= spec_not_found_body());
        }
        (HTTP_NOT_FOUND, out)
    }
}

/// The query of the file-listing route.
#[derive(Debug, PartialEq, Eq)]
pub struct ListFilesQuery {
    /// Name of the project.
    pub project_name: String,
}

/// The names of a project's log files.
#[derive(Debug, PartialEq, Eq)]
pub struct ListLogfilesOkResponse {
    /// List of names of available log files.
    pub files: Vec<String>,
}

/// Why the files could not be listed.
#[derive(Debug, Clone, Copy, PartialEq, Eq, Structural)]
pub enum ListLogfilesErrorResponse {
    NotFound,
    ServerError,
}

impl ListLogfilesOkResponse {
    /// Status and body: `{"files":[...]}` with the ok status.
    pub fn into_response(&self) -> (r: (u16, Vec<u8>))
        ensures
            r.0 == HTTP_OK,
            r.1@ == "{\"files\":".spec_bytes() + json_str_array(
                self.files@.map(|i: int, s: String| s@),
            ) + "}".spec_bytes(),
    {
        let mut out: Vec<u8> = Vec::new();
        push_str_bytes(&mut out, "{\"files\":");
        push_json_str_array(&mut out, &self.files);
        push_str_bytes(&mut out, "}");
        proof {
            assert(out@ =~= "{\"files\":".spec_bytes() + json_str_array(
                self.files@.map(|i: int, s: String| s@),
            ) + "}".spec_bytes());
        }
        (HTTP_OK, out)
    }
}

impl ListLogfilesErrorResponse {
    /// The route's error for each way the listing fails.
    pub fn from(err: ListFilesError) -> (r: Self)
        ensures
            r == (match err {
                ListFilesError::NotFound => ListLogfilesErrorResponse::NotFound,
                ListFilesError::IoError => ListLogfilesErrorResponse::ServerError,
            }),
    {
        match err {
            ListFilesError::NotFound => ListLogfilesErrorResponse::NotFound,
            ListFilesError::IoError => ListLogfilesErrorResponse::ServerError,
        }
    }

    /// Status and body: not-found or the server-error bytes.
    pub fn into_response(&self) -> (r: (u16, Vec<u8>))
        ensures
            r.0 == (match *self {
                ListLogfilesErrorResponse::NotFound => HTTP_NOT_FOUND,
                ListLogfilesErrorResponse::ServerError => HTTP_INTERNAL_SERVER_ERROR,
            }),
            r.1@ == (match *self {
                ListLogfilesErrorResponse::NotFound => spec_not_found_body(),
                ListLogfilesErrorResponse::ServerError => spec_server_error_body(),
            }),
    {
        match self {
            ListLogfilesErrorResponse::NotFound => {
                let mut out: Vec<u8> = Vec::new();
                push_str_bytes(&mut out, "\"NotFound\"");
                proof {
                    assert(out@ =~= spec_not_found_body());
                }
                (HTTP_NOT_FOUND, out)
            },
            ListLogfilesErrorResponse::ServerError => {
                let mut out: Vec<u8> = Vec::new();
                push_str_bytes(&mut out, "\"ServerError\"");
                proof {
                    assert(out@ =~= spec_server_error_body());
                }
                (HTTP_INTERNAL_SERVER_ERROR, out)
            },
        }
    }
}

/// The query of the file-text route.
#[derive(Debug, PartialEq, Eq)]
pub struct GetLogFileQuery {
    /// Name of the project.
    pub project_name: String,
    /// Name of the log file to download.
    pub file_name: String,
}

/// Why the file's text could not be returned.
#[derive(Debug, Clone, Copy, PartialEq, Eq, Structural)]
pub enum GetLogFileErrorResponse {
    NotFound,
    ServerError,
}

impl GetLogFileErrorResponse {
    /// The route's error for each way the read fails.
    pub fn from(err: GetFileError) -> (r: Self)
        ensures
            r == (match err {
                GetFileError::NotFound => GetLogFileErrorResponse::NotFound,
                GetFileError::IoError => GetLogFileErrorResponse::ServerError,
            }),
    {
        match err {
            GetFileError::NotFound => GetLogFileErrorResponse::NotFound,
            GetFileError::IoError => GetLogFileErrorResponse::ServerError,
        }
    }

    /// Status and body: not-found or the server-error bytes.
    pub fn into_response(&self) -> (r: (u16, Vec<u8>))
        ensures
            r.0 == (match *self {
                GetLogFileErrorResponse::NotFound => HTTP_NOT_FOUND,
                GetLogFileErrorResponse::ServerError => HTTP_INTERNAL_SERVER_ERROR,
            }),
            r.1@ == (match *self {
                GetLogFileErrorResponse::NotFound => spec_not_found_body(),
                GetLogFileErrorResponse::ServerError => spec_server_error_body(),
            }),
    {
        match self {
            GetLogFileErrorResponse::NotFound => {
                let mut out: Vec<u8> = Vec::new();
                push_str_bytes(&mut out, "\"NotFound\"");
                proof {
                    assert(out@ =~= spec_not_found_body());
                }
                (HTTP_NOT_FOUND, out)
            },
            GetLogFileErrorResponse::ServerError => {
                let mut out: Vec<u8> = Vec::new();
                push_str_bytes(&mut out, "\"ServerError\"");
                proof {
                    assert(out@ =~= spec_server_error_body());
                }
                (HTTP_INTERNAL_SERVER_ERROR, out)
            },
        }
    }
}

} // verus!
