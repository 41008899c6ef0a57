use job_hub::registry::{ApiState, JobKind};
use job_hub::routes::{
    cancel, download_zip_file_prepare, get_log_file_text, gs_log_to_locust_converter,
    list_log_files, request_chat_id, status, ApiError, CancelErrorResponse,
    DownloadZipFileErrorResponse, GetLogFileErrorResponse, GsLogToLocustConverterErrorResponse,
    ListLogfilesErrorResponse, ListLogfilesOkResponse, StatusErrorResponse, StatusOkResponse,
    HTTP_BAD_REQUEST, HTTP_CREATED, HTTP_INTERNAL_SERVER_ERROR, HTTP_NOT_FOUND, HTTP_OK,
    HTTP_UNAUTHORIZED,
};
use job_hub::task::{ProcessStatus, Status};
use job_hub::utils::GoogleConvertLinkError;

fn fresh() -> ApiState {
    ApiState::new("token".to_string(), "projects".to_string())
}

#[test]
fn happy_path_process_job_responses() {
    let mut state = fresh();
    state.submit("C1".to_string(), JobKind::Process, 0);
    state.record_status(0, Status::Process(ProcessStatus::Running), 1);
    state.record_status(
        0,
        Status::Process(ProcessStatus::Exited {
            exit_status: job_hub::task::ExitedStatus::Success,
        }),
        2,
    );
    let ok = status(&state, "0", "C1").unwrap();
    let (code, body) = ok.into_response();
    assert_eq!(code, HTTP_OK);
    assert_eq!(
        String::from_utf8(body).unwrap(),
        "{\"status\":{\"type\":\"Process\",\"content\":{\"status\":\"Exited\",\"content\":{\"exit_status\":\"Success\"}}}}"
    );
    // Cancelling an owned job answers its id, idempotently.
    let first = cancel(&mut state, "0", "C1").unwrap();
    let again = cancel(&mut state, "0", "C1").unwrap();
    assert_eq!(first.id, "0");
    assert_eq!(again.id, "0");
    let (code, body) = first.into_response();
    assert_eq!(code, HTTP_OK);
    assert_eq!(String::from_utf8(body).unwrap(), "{\"id\":\"0\"}");
    // Another chat sees nothing.
    assert_eq!(status(&state, "0", "C2"), Err(StatusErrorResponse::NotFound));
}

#[test]
fn wrong_chat_and_absent_id_render_bit_identically() {
    let mut state = fresh();
    state.submit("C1".to_string(), JobKind::Process, 0);
    let wrong_chat = status(&state, "0", "C2").unwrap_err().into_response();
    let absent_id = status(&state, "999", "C2").unwrap_err().into_response();
    assert_eq!(wrong_chat, absent_id);
    assert_eq!(wrong_chat.0, HTTP_NOT_FOUND);
    assert_eq!(String::from_utf8(wrong_chat.1).unwrap(), "\"NotFound\"");
    let cancel_wrong = cancel(&mut state, "0", "C2").unwrap_err().into_response();
    let cancel_absent = cancel(&mut state, "999", "C2").unwrap_err().into_response();
    assert_eq!(cancel_wrong, cancel_absent);
}

#[test]
fn api_error_responses() {
    assert_eq!(
        ApiError::ChatIdMissing.into_response(),
        (
            HTTP_BAD_REQUEST,
            b"{\"type\":\"ChatIdMissing\",\"msg\":\"Chat id missing\"}".to_vec()
        )
    );
    assert_eq!(ApiError::ApiKeyMissing.into_response().0, HTTP_BAD_REQUEST);
    assert_eq!(ApiError::ApiKeyInvalid.into_response().0, HTTP_UNAUTHORIZED);
    assert_eq!(ApiError::QueryInvalid.into_response().0, HTTP_BAD_REQUEST);
    assert_eq!(ApiError::NotFound.into_response().0, HTTP_NOT_FOUND);
    assert_eq!(
        ApiError::InternalServerError.into_response(),
        (
            HTTP_INTERNAL_SERVER_ERROR,
            b"{\"type\":\"InternalServerError\",\"msg\":\"Internal server error. See server logs\"}"
                .to_vec()
        )
    );
}

#[test]
fn download_prepare_classifies_links() {
    assert_eq!(
        download_zip_file_prepare("https://drive.google.com/file/d/ABC123/view?usp=sharing"),
        Ok(b"https://drive.google.com/uc?export=download&id=ABC123".to_vec())
    );
    assert_eq!(
        download_zip_file_prepare("::not a url::"),
        Err(DownloadZipFileErrorResponse::InvalidUrl)
    );
    assert_eq!(
        download_zip_file_prepare("http://drive.google.com/file/d/ABC/view"),
        Err(DownloadZipFileErrorResponse::Convert(
            GoogleConvertLinkError::InvalidScheme
        ))
    );
    let (code, body) = DownloadZipFileErrorResponse::Convert(GoogleConvertLinkError::InvalidHost)
        .into_response();
    assert_eq!(code, HTTP_BAD_REQUEST);
    assert_eq!(
        String::from_utf8(body).unwrap(),
        "{\"error\":\"Convert\",\"content\":\"InvalidHost\"}"
    );
    let (code, body) = DownloadZipFileErrorResponse::InvalidUrl.into_response();
    assert_eq!(code, HTTP_BAD_REQUEST);
    assert_eq!(String::from_utf8(body).unwrap(), "{\"error\":\"InvalidUrl\"}");
}

#[test]
fn converter_route_answers() {
    let mut state = fresh();
    let missing = gs_log_to_locust_converter(&mut state, "C1".to_string(), false, 0);
    assert_eq!(missing, Err(GsLogToLocustConverterErrorResponse::NotFound));
    let ok = gs_log_to_locust_converter(&mut state, "C1".to_string(), true, 0).unwrap();
    let (code, body) = ok.into_response();
    assert_eq!(code, HTTP_CREATED);
    assert_eq!(String::from_utf8(body).unwrap(), "{\"id\":\"0\"}");
    let (code, body) = GsLogToLocustConverterErrorResponse::NotFound.into_response();
    assert_eq!((code, String::from_utf8(body).unwrap().as_str()), (HTTP_NOT_FOUND, "\"NotFound\""));
}

#[test]
fn file_routes_classify_outcomes() {
    let state = fresh();
    assert_eq!(
        list_log_files(&state, false, None),
        Err(ListLogfilesErrorResponse::NotFound)
    );
    assert_eq!(
        list_log_files(&state, true, None),
        Err(ListLogfilesErrorResponse::ServerError)
    );
    let ok = list_log_files(
        &state,
        true,
        Some(vec!["file_1.log".to_string(), "file_2.log".to_string()]),
    )
    .unwrap();
    let (code, body) = ok.into_response();
    assert_eq!(code, HTTP_OK);
    assert_eq!(
        String::from_utf8(body).unwrap(),
        "{\"files\":[\"file_1.log\",\"file_2.log\"]}"
    );
    let empty = ListLogfilesOkResponse { files: vec![] };
    assert_eq!(
        String::from_utf8(empty.into_response().1).unwrap(),
        "{\"files\":[]}"
    );
    assert_eq!(
        get_log_file_text(&state, true, false, None),
        Err(GetLogFileErrorResponse::NotFound)
    );
    assert_eq!(
        get_log_file_text(&state, true, true, Some("line\n".to_string())),
        Ok("line\n".to_string())
    );
    let (code, _) = GetLogFileErrorResponse::ServerError.into_response();
    assert_eq!(code, HTTP_INTERNAL_SERVER_ERROR);
}

#[test]
fn chat_id_route_hands_out_uuids() {
    let state = fresh();
    let a = request_chat_id(&state);
    assert_eq!(a.id.chars().count(), 36);
    let (code, body) = a.into_response();
    assert_eq!(code, HTTP_OK);
    assert!(String::from_utf8(body).unwrap().starts_with("{\"id\":\""));
    // A chat id from this route owns the jobs created with it (round trip).
    let mut state = fresh();
    let chat = request_chat_id(&state).id.clone();
    state.submit(chat.clone(), JobKind::Process, 0);
    assert!(status(&state, "0", &chat).is_ok());
    let other = request_chat_id(&state).id;
    assert_eq!(status(&state, "0", &other), Err(StatusErrorResponse::NotFound));
}
