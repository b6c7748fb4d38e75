use api_gateway::ai_support::{
    map_face_job, map_liveness_job, map_status, normalize_target, to_proto_image, AiSupportClient,
    RpcStatus, INVALID_ARGUMENT,
};
use api_gateway::backoffice::{
    extract_error_message, is_success, message_of, send_json, ApplicantSubmissionRequest,
    BackofficeClient, JsonBody, JsonField, JsonMember, RestBody, RestMethod, RestPayload,
    RestResponse, UpdateSessionPatch,
};
use api_gateway::entities::{
    BinaryImage, Similarity, StartFaceMatchJobPayload, StartLivenessJobPayload,
};
use api_gateway::error::AppError;
use api_gateway::media::{
    normalize, DownloadResponse, MediaClient, MediaPayload, MediaResponse, MediaUploadResponse,
};
use api_gateway::pb::{
    FaceMatchJobHandle, LivenessJobHandle, PerformKtpOcrResponse, StartFaceMatchResponse,
    StartLivenessResponse,
};

fn field(name: &str, value: JsonMember) -> JsonField {
    JsonField { name: name.to_string(), value }
}

fn text(value: &str) -> JsonMember {
    JsonMember::Text(value.to_string())
}

fn failure(status: u16, body: &str) -> Result<RestResponse<u32>, String> {
    Ok(RestResponse { status, payload: RestPayload::Failure(body.as_bytes().to_vec()) })
}

#[test]
fn backoffice_base_url_is_normalized() {
    assert_eq!(BackofficeClient::new("http://bo:8081///").unwrap().base_url(), "http://bo:8081");
    assert_eq!(BackofficeClient::new("https://bo/").unwrap().base_url(), "https://bo");
    assert_eq!(BackofficeClient::new("bo:8081/").unwrap().base_url(), "http://bo:8081");
    assert_eq!(BackofficeClient::new("").unwrap().base_url(), "http://");
}

#[test]
fn session_store_calls_have_the_documented_routes() {
    let client = BackofficeClient::new("http://bo").unwrap();
    let create = client.create_ekyc_session(Some("u1".to_string()));
    assert_eq!(create.method, RestMethod::Post);
    assert_eq!(create.url, "http://bo/api/ekyc/sessions");
    match create.body {
        RestBody::CreateSession(body) => assert_eq!(body.user_id, Some("u1".to_string())),
        other => panic!("unexpected body {:?}", other),
    }
    let mut patch = UpdateSessionPatch::empty();
    patch.status = Some("".to_string());
    let update = client.update_ekyc_session("s 1", patch);
    assert_eq!(update.method, RestMethod::Patch);
    assert_eq!(update.url, "http://bo/api/ekyc/sessions/s 1/artifacts");
    match update.body {
        RestBody::Patch(body) => {
            assert_eq!(body.status, Some("".to_string()));
            assert_eq!(body.id_card_url, None);
        }
        other => panic!("unexpected body {:?}", other),
    }
    let get = client.get_ekyc_session("s1");
    assert_eq!(get.method, RestMethod::Get);
    assert_eq!(get.url, "http://bo/api/ekyc/sessions/s1");
    assert!(matches!(get.body, RestBody::Empty));
    let applicant = ApplicantSubmissionRequest {
        full_name: "Budi".to_string(),
        nik: "".to_string(),
        birth_date: "".to_string(),
        address: "".to_string(),
        phone: "0812".to_string(),
        email: "".to_string(),
        pin: "123456".to_string(),
    };
    let submit = client.submit_applicant("s1", applicant);
    assert_eq!(submit.method, RestMethod::Post);
    assert_eq!(submit.url, "http://bo/api/ekyc/sessions/s1/applicant");
    match submit.body {
        RestBody::Applicant(body) => assert_eq!(body.phone, "0812"),
        other => panic!("unexpected body {:?}", other),
    }
}

#[test]
fn success_range_is_200_to_299() {
    assert!(!is_success(199));
    assert!(is_success(200));
    assert!(is_success(204));
    assert!(is_success(299));
    assert!(!is_success(300));
    assert!(!is_success(404));
}

#[test]
fn error_message_prefers_message_over_error() {
    let body = JsonBody::Object(vec![
        field("error", text("from error")),
        field("message", text("from message")),
    ]);
    assert_eq!(message_of(&body), "from message");
    let only_error = JsonBody::Object(vec![field("error", text("from error"))]);
    assert_eq!(message_of(&only_error), "from error");
}

#[test]
fn error_message_is_read_from_the_bytes_of_the_body() {
    let body = br#"{"error": "from error", "message": "from message", "code": 7}"#;
    assert_eq!(extract_error_message(body), "from message");
    assert_eq!(extract_error_message(br#"{"error":"only error"}"#), "only error");
    let escaped = "{\"message\":\"a \\\"quoted\\\" \u{e9}\"}";
    assert_eq!(extract_error_message(escaped.as_bytes()), "a \"quoted\" \u{e9}");
    assert_eq!(extract_error_message(br#"{"message":null,"error":"hidden"}"#), "backoffice error");
    assert_eq!(extract_error_message(br#"{"message":{"text":"nested"}}"#), "backoffice error");
    assert_eq!(extract_error_message(br#"["message"]"#), "backoffice error");
    assert_eq!(extract_error_message(br#""message""#), "backoffice error");
    assert_eq!(extract_error_message(b"<html>502</html>"), "backoffice error");
    assert_eq!(extract_error_message(b""), "backoffice error");
    assert_eq!(extract_error_message(br#"{"message":"a","message":"b"}"#), "b");
}

#[test]
fn error_message_falls_back() {
    assert_eq!(message_of(&JsonBody::Other), "backoffice error");
    assert_eq!(message_of(&JsonBody::Object(Vec::new())), "backoffice error");
    let not_text = JsonBody::Object(vec![
        field("message", JsonMember::Other),
        field("error", text("hidden by message")),
    ]);
    assert_eq!(message_of(&not_text), "backoffice error");
    let other_names = JsonBody::Object(vec![field("Message", text("wrong case"))]);
    assert_eq!(message_of(&other_names), "backoffice error");
}

#[test]
fn status_400_is_a_bad_request_with_the_downstream_message() {
    match send_json(failure(400, r#"{"message":"phone taken"}"#)) {
        Err(AppError::BadRequest(m)) => assert_eq!(m, "phone taken"),
        other => panic!("unexpected result {:?}", other),
    }
}

#[test]
fn status_404_is_not_found() {
    match send_json(failure(404, "not json")) {
        Err(AppError::NotFound(m)) => assert_eq!(m, "backoffice error"),
        other => panic!("unexpected result {:?}", other),
    }
}

#[test]
fn other_failure_status_is_internal() {
    match send_json(failure(500, r#"{"error":"boom"}"#)) {
        Err(AppError::Internal(m)) => assert_eq!(m, "boom"),
        other => panic!("unexpected result {:?}", other),
    }
    match send_json(failure(302, "")) {
        Err(AppError::Internal(m)) => assert_eq!(m, "backoffice error"),
        other => panic!("unexpected result {:?}", other),
    }
}

#[test]
fn transport_failure_is_internal() {
    let outcome: Result<RestResponse<u32>, String> = Err("connection reset".to_string());
    match send_json(outcome) {
        Err(AppError::Internal(m)) => assert_eq!(m, "connection reset"),
        other => panic!("unexpected result {:?}", other),
    }
}

#[test]
fn success_answer_gives_the_decoded_value() {
    let ok = Ok(RestResponse { status: 201, payload: RestPayload::Decoded(7u32) });
    assert!(matches!(send_json(ok), Ok(7)));
    let undecodable: Result<RestResponse<u32>, String> = Ok(RestResponse {
        status: 200,
        payload: RestPayload::Undecodable("missing field `id`".to_string()),
    });
    match send_json(undecodable) {
        Err(AppError::Internal(m)) => assert_eq!(m, "missing field `id`"),
        other => panic!("unexpected result {:?}", other),
    }
}

#[test]
fn media_base_url_and_upload_call() {
    assert_eq!(normalize("http://media:8090//"), "http://media:8090");
    assert_eq!(normalize("http://media:8090"), "http://media:8090");
    let client = MediaClient::new("http://media:8090/").unwrap();
    assert_eq!(client.base_url(), "http://media:8090");
    let call = client.upload("file", vec![1, 2, 3], Some("a.jpg".into()), None);
    assert_eq!(call.url, "http://media:8090/media");
    assert_eq!(call.field_name, "file");
    assert_eq!(call.bytes, vec![1, 2, 3]);
    assert_eq!(call.filename, Some("a.jpg".to_string()));
    assert_eq!(call.mime, None);
    assert_eq!(client.download_bytes("http://elsewhere/x").url, "http://elsewhere/x");
}

#[test]
fn media_answers_are_read() {
    let stored = MediaUploadResponse { url: "http://media/1".to_string() };
    let ok = Ok(MediaResponse { status: 200, payload: MediaPayload::Decoded(stored) });
    assert_eq!(MediaClient::send_json(ok).unwrap().url, "http://media/1");
    let said = Ok(MediaResponse {
        status: 413,
        payload: MediaPayload::Failure(Some("too large".to_string())),
    });
    match MediaClient::send_json(said) {
        Err(AppError::Internal(m)) => assert_eq!(m, "too large"),
        other => panic!("unexpected result {:?}", other),
    }
    let silent = Ok(MediaResponse { status: 500, payload: MediaPayload::Failure(None) });
    match MediaClient::send_json(silent) {
        Err(AppError::Internal(m)) => assert_eq!(m, "media service error"),
        other => panic!("unexpected result {:?}", other),
    }
    match MediaClient::send_json(Err("dns".to_string())) {
        Err(AppError::Internal(m)) => assert_eq!(m, "dns"),
        other => panic!("unexpected result {:?}", other),
    }
}

#[test]
fn media_download_is_read() {
    let ok = Ok(DownloadResponse { status: 200, body: b"img".to_vec() });
    assert_eq!(MediaClient::read_download(ok).unwrap(), b"img".to_vec());
    let missing = Ok(DownloadResponse { status: 404, body: b"not found".to_vec() });
    match MediaClient::read_download(missing) {
        Err(AppError::Internal(m)) => assert_eq!(m, "media service error"),
        other => panic!("unexpected result {:?}", other),
    }
    match MediaClient::read_download(Err("timeout".to_string())) {
        Err(AppError::Internal(m)) => assert_eq!(m, "timeout"),
        other => panic!("unexpected result {:?}", other),
    }
}

#[test]
fn ai_target_gets_a_scheme() {
    assert_eq!(normalize_target("127.0.0.1:50052").unwrap(), "http://127.0.0.1:50052");
    assert_eq!(normalize_target("http://ai:50052/").unwrap(), "http://ai:50052/");
    assert_eq!(normalize_target("https://ai").unwrap(), "https://ai");
    assert_eq!(normalize_target("HTTP://ai").unwrap(), "http://HTTP://ai");
    assert_eq!(AiSupportClient::new("ai:1").unwrap().target(), "http://ai:1");
}

fn status(code: i32, message: &str) -> RpcStatus {
    RpcStatus {
        code,
        message: message.to_string(),
        rendered: format!("status: {}, message: {:?}", code, message),
    }
}

#[test]
fn invalid_argument_is_a_bad_request_with_the_message_verbatim() {
    match map_status(status(INVALID_ARGUMENT, "threshold out of range")) {
        AppError::BadRequest(m) => assert_eq!(m, "threshold out of range"),
        other => panic!("unexpected error {:?}", other),
    }
}

#[test]
fn other_rpc_status_is_internal() {
    match map_status(status(14, "unavailable")) {
        AppError::Internal(m) => {
            assert_eq!(m, "ai support gRPC error: status: 14, message: \"unavailable\"")
        }
        other => panic!("unexpected error {:?}", other),
    }
}

fn image(bytes: &[u8], mime: Option<&str>) -> BinaryImage {
    BinaryImage { content: bytes.to_vec(), mime_type: mime.map(|m| m.to_string()) }
}

#[test]
fn image_goes_on_the_wire_unchanged() {
    let with_mime = to_proto_image(image(b"\x00\xff", Some("image/png")));
    assert_eq!(with_mime.content, vec![0u8, 255u8]);
    assert_eq!(with_mime.mime_type, "image/png");
    let without = to_proto_image(image(b"x", None));
    assert_eq!(without.mime_type, "");
}

#[test]
fn face_match_request_passes_the_threshold_through() {
    let client = AiSupportClient::new("ai:1").unwrap();
    let request = client.start_face_match_job(StartFaceMatchJobPayload {
        session_id: "s1".to_string(),
        ktp_image: image(b"card", None),
        selfie_image: image(b"selfie", Some("image/jpeg")),
        face_match_threshold: Similarity { bits: 0x4000_0000_0000_0000 },
    });
    assert_eq!(request.session_id, "s1");
    assert_eq!(request.ktp_image.unwrap().content, b"card".to_vec());
    let selfie = request.selfie_image.unwrap();
    assert_eq!(selfie.content, b"selfie".to_vec());
    assert_eq!(selfie.mime_type, "image/jpeg");
    assert_eq!(request.face_match_threshold.bits, 0x4000_0000_0000_0000);
}

#[test]
fn liveness_request_keeps_every_frame_in_order() {
    let client = AiSupportClient::new("ai:1").unwrap();
    let request = client.start_liveness_job(StartLivenessJobPayload {
        session_id: "s1".to_string(),
        liveness_frames: vec![image(b"a", None), image(b"b", Some("image/png")), image(b"c", None)],
        gestures: vec!["blink".to_string(), "smile".to_string()],
    });
    assert_eq!(request.session_id, "s1");
    assert_eq!(request.liveness_frames.len(), 3);
    assert_eq!(request.liveness_frames[0].content, b"a".to_vec());
    assert_eq!(request.liveness_frames[1].content, b"b".to_vec());
    assert_eq!(request.liveness_frames[1].mime_type, "image/png");
    assert_eq!(request.liveness_frames[2].content, b"c".to_vec());
    assert_eq!(request.gestures, vec!["blink".to_string(), "smile".to_string()]);
    let empty = client.start_liveness_job(StartLivenessJobPayload {
        session_id: "s2".to_string(),
        liveness_frames: Vec::new(),
        gestures: Vec::new(),
    });
    assert!(empty.liveness_frames.is_empty());
}

#[test]
fn ocr_request_and_answer() {
    let client = AiSupportClient::new("ai:1").unwrap();
    let request = client.perform_ocr(image(b"card", Some("image/jpeg")), None);
    assert_eq!(request.locale, "");
    assert_eq!(request.image.unwrap().content, b"card".to_vec());
    let with_locale = client.perform_ocr(image(b"card", None), Some("id-ID".to_string()));
    assert_eq!(with_locale.locale, "id-ID");
    let data = AiSupportClient::ocr_performed(Ok(PerformKtpOcrResponse { result: None })).unwrap();
    assert_eq!(data.nik, None);
    match AiSupportClient::ocr_performed(Err(status(INVALID_ARGUMENT, "no image"))) {
        Err(AppError::BadRequest(m)) => assert_eq!(m, "no image"),
        other => panic!("unexpected result {:?}", other),
    }
}

#[test]
fn job_answers_are_read() {
    let job = FaceMatchJobHandle { job_id: "j1".to_string(), queue: "face".to_string() };
    assert_eq!(map_face_job(job).job_id, "j1");
    let job = LivenessJobHandle { job_id: "j2".to_string(), queue: "live".to_string() };
    assert_eq!(map_liveness_job(job).queue, "live");
    let started = AiSupportClient::face_match_job_started(Ok(StartFaceMatchResponse {
        job: Some(FaceMatchJobHandle { job_id: "j3".to_string(), queue: "face".to_string() }),
    }))
    .unwrap();
    assert_eq!(started.job_id, "j3");
    assert_eq!(started.queue, "face");
    let empty =
        AiSupportClient::liveness_job_started(Ok(StartLivenessResponse { job: None })).unwrap();
    assert_eq!(empty.job_id, "");
    assert_eq!(empty.queue, "");
    match AiSupportClient::liveness_job_started(Err(status(4, "deadline"))) {
        Err(AppError::Internal(_)) => {}
        other => panic!("unexpected result {:?}", other),
    }
}
