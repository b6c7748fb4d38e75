use api_gateway::backoffice::{BackofficeClient, EkycSessionDto, RestBody};
use api_gateway::entities::{AsyncJobHandle, BinaryImage, Similarity};
use api_gateway::error::AppError;
use api_gateway::handlers::respond;
use api_gateway::media::MediaUploadResponse;
use api_gateway::service::{
    Answer, ApplicantSubmission, Call, EkycService, Pending, Step, UploadedFile,
};

fn service() -> EkycService {
    EkycService::new(Similarity { bits: 0x3FE8_F5C2_8F5C_28F6 })
}

fn session(id: &str, face: &str, id_card: Option<&str>) -> EkycSessionDto {
    EkycSessionDto {
        id: id.to_string(),
        user_id: None,
        status: "CREATED".to_string(),
        face_matching_status: face.to_string(),
        liveness_status: "".to_string(),
        final_decision: "PENDING".to_string(),
        id_card_url: id_card.map(|u| u.to_string()),
        selfie_with_id_url: Some("http://media/selfie.jpg".to_string()),
        recorded_video_url: None,
        face_match_overall: None,
        liveness_overall: None,
        rejection_reason: None,
        metadata: "{}".to_string(),
        created_at: "2024-01-01T00:00:00Z".to_string(),
        updated_at: "2024-01-01T00:00:00Z".to_string(),
        face_checks: Vec::new(),
        liveness_check: None,
    }
}

fn file(bytes: &[u8]) -> UploadedFile {
    UploadedFile {
        filename: Some("card.jpg".to_string()),
        mime_type: Some("image/jpeg".to_string()),
        bytes: bytes.to_vec(),
    }
}

fn applicant(full_name: &str, phone: &str) -> ApplicantSubmission {
    ApplicantSubmission {
        full_name: full_name.to_string(),
        nik: "3201".to_string(),
        birth_date: "1990-01-01".to_string(),
        address: "Jl. Merdeka 1".to_string(),
        phone: phone.to_string(),
        email: "a@example.com".to_string(),
        pin: "123456".to_string(),
    }
}

fn bad_request(step: Step) -> String {
    match step {
        Step::Finished { result: Err(AppError::BadRequest(message)), warning: None } => message,
        other => panic!("expected a bad request and no call, got {:?}", other),
    }
}

fn going_on(step: Step) -> (Pending, Call) {
    match step {
        Step::Continue { pending, call } => (pending, call),
        other => panic!("expected a call, got {:?}", other),
    }
}

fn internal(cause: &str) -> AppError {
    AppError::Internal(cause.to_string())
}

#[test]
fn empty_id_card_is_rejected_without_a_call() {
    assert_eq!(bad_request(service().upload_id_card("s1", file(b""))), "file tidak boleh kosong");
}

#[test]
fn empty_selfie_is_rejected_without_a_call() {
    assert_eq!(bad_request(service().upload_selfie("s1", file(b""))), "file tidak boleh kosong");
}

#[test]
fn liveness_without_frames_is_rejected_without_a_call() {
    let step = service().start_liveness("s1", Vec::new(), vec!["blink".to_string()]);
    assert_eq!(bad_request(step), "at least one liveness frame is required");
}

#[test]
fn applicant_without_phone_is_rejected() {
    let message = bad_request(service().submit_applicant("s1", applicant("Budi", "")));
    assert_eq!(message, "phone number is required");
    assert!(message.contains("phone"));
    let blank = bad_request(service().submit_applicant("s1", applicant("", " \t\u{3000}")));
    assert!(blank.contains("phone"));
}

#[test]
fn applicant_without_name_is_rejected() {
    let message = bad_request(service().submit_applicant("s1", applicant("  ", "0812")));
    assert_eq!(message, "full name is required");
    assert!(message.contains("name"));
}

#[test]
fn applicant_is_sent_to_the_session_store() {
    let (pending, call) = going_on(service().submit_applicant("s1", applicant("Budi", "0812")));
    assert!(matches!(pending, Pending::Session));
    match call {
        Call::SubmitApplicant { session_id, request } => {
            assert_eq!(session_id, "s1");
            assert_eq!(request.full_name, "Budi");
            assert_eq!(request.nik, "3201");
            assert_eq!(request.birth_date, "1990-01-01");
            assert_eq!(request.address, "Jl. Merdeka 1");
            assert_eq!(request.phone, "0812");
            assert_eq!(request.email, "a@example.com");
            assert_eq!(request.pin, "123456");
        }
        other => panic!("unexpected call {:?}", other),
    }
}

#[test]
fn create_session_without_user_round_trips_the_store_answer() {
    let svc = service();
    let (pending, call) = going_on(svc.create_session(None));
    let user_id = match call {
        Call::CreateSession { user_id } => user_id,
        other => panic!("unexpected call {:?}", other),
    };
    assert_eq!(user_id, None);
    let store = BackofficeClient::new("http://bo").unwrap();
    match store.create_ekyc_session(user_id).body {
        RestBody::CreateSession(body) => assert_eq!(body.user_id, None),
        other => panic!("unexpected body {:?}", other),
    }
    let mut stored = session("s9", "", None);
    stored.status = "SOMETHING_NEW".to_string();
    let result = match svc.resume(pending, Answer::Session(Ok(stored))) {
        Step::Finished { result, warning: None } => result,
        other => panic!("unexpected step {:?}", other),
    };
    match respond(result) {
        Ok(s) => {
            assert_eq!(s.id, "s9");
            assert_eq!(s.status, "SOMETHING_NEW");
        }
        Err(other) => panic!("unexpected answer {:?}", other),
    }
}

#[test]
fn dispatch_failure_does_not_change_the_answer_to_the_client() {
    let svc = service();
    let mut answers = Vec::new();
    for job in [
        Answer::Job(Ok(AsyncJobHandle { job_id: "j".into(), queue: "q".into() })),
        Answer::Job(Err(internal("down"))),
        Answer::Job(Err(AppError::BadRequest("refused".into()))),
    ] {
        let pending = Pending::FaceMatchJob { session: session("s1", "QUEUED", Some("u")) };
        match svc.resume(pending, job) {
            Step::Finished { result, .. } => match respond(result) {
                Ok(s) => answers.push((s.id, s.status, s.selfie_with_id_url)),
                Err(other) => panic!("unexpected answer {:?}", other),
            },
            other => panic!("unexpected step {:?}", other),
        }
    }
    assert_eq!(answers[0], answers[1]);
    assert_eq!(answers[0], answers[2]);
}

#[test]
fn get_session_passes_the_store_error_through() {
    let svc = service();
    let (pending, call) = going_on(svc.get_session("s1"));
    match call {
        Call::GetSession { session_id } => assert_eq!(session_id, "s1"),
        other => panic!("unexpected call {:?}", other),
    }
    match svc.resume(pending, Answer::Session(Err(AppError::NotFound("no such session".into())))) {
        Step::Finished { result: Err(AppError::NotFound(m)), warning: None } => {
            assert_eq!(m, "no such session")
        }
        other => panic!("unexpected step {:?}", other),
    }
}

#[test]
fn id_card_is_uploaded_then_patched() {
    let svc = service();
    let (pending, call) = going_on(svc.upload_id_card("s1", file(b"\x01\x02")));
    match call {
        Call::Upload { field_name, bytes, filename, mime } => {
            assert_eq!(field_name, "file");
            assert_eq!(bytes, vec![1u8, 2u8]);
            assert_eq!(filename, Some("card.jpg".to_string()));
            assert_eq!(mime, Some("image/jpeg".to_string()));
        }
        other => panic!("unexpected call {:?}", other),
    }
    let stored = MediaUploadResponse { url: "http://media/card.jpg".to_string() };
    let (pending, call) = going_on(svc.resume(pending, Answer::Stored(Ok(stored))));
    match call {
        Call::PatchSession { session_id, patch } => {
            assert_eq!(session_id, "s1");
            assert_eq!(patch.id_card_url, Some("http://media/card.jpg".to_string()));
            assert_eq!(patch.selfie_with_id_url, None);
            assert_eq!(patch.recorded_video_url, None);
            assert_eq!(patch.status, None);
            assert_eq!(patch.face_matching_status, None);
            assert_eq!(patch.liveness_status, None);
        }
        other => panic!("unexpected call {:?}", other),
    }
    match svc.resume(pending, Answer::Session(Ok(session("s1", "", None)))) {
        Step::Finished { result: Ok(s), warning: None } => assert_eq!(s.id, "s1"),
        other => panic!("unexpected step {:?}", other),
    }
}

#[test]
fn failed_upload_fails_the_operation() {
    let svc = service();
    let (pending, _) = going_on(svc.upload_id_card("s1", file(b"x")));
    match svc.resume(pending, Answer::Stored(Err(internal("disk full")))) {
        Step::Finished { result: Err(AppError::Internal(cause)), warning: None } => {
            assert_eq!(cause, "disk full")
        }
        other => panic!("unexpected step {:?}", other),
    }
}

fn selfie_patched(svc: &EkycService) -> Pending {
    let (pending, _) = going_on(svc.upload_selfie("s1", file(b"selfie")));
    let stored = MediaUploadResponse { url: "http://media/selfie.jpg".to_string() };
    let (pending, call) = going_on(svc.resume(pending, Answer::Stored(Ok(stored))));
    match call {
        Call::PatchSession { session_id, patch } => {
            assert_eq!(session_id, "s1");
            assert_eq!(patch.selfie_with_id_url, Some("http://media/selfie.jpg".to_string()));
            assert_eq!(patch.face_matching_status, Some("QUEUED".to_string()));
            assert_eq!(patch.id_card_url, None);
            assert_eq!(patch.status, None);
            assert_eq!(patch.liveness_status, None);
        }
        other => panic!("unexpected call {:?}", other),
    }
    pending
}

#[test]
fn selfie_queues_a_face_match_with_both_images() {
    let svc = service();
    let pending = selfie_patched(&svc);
    let patched = session("s1", "queued", Some("http://media/card.jpg"));
    let (pending, call) = going_on(svc.resume(pending, Answer::Session(Ok(patched))));
    match call {
        Call::Download { url } => assert_eq!(url, "http://media/card.jpg"),
        other => panic!("unexpected call {:?}", other),
    }
    let (pending, call) = going_on(svc.resume(pending, Answer::Bytes(Ok(b"card".to_vec()))));
    match call {
        Call::StartFaceMatch(payload) => {
            assert_eq!(payload.session_id, "s1");
            assert_eq!(payload.ktp_image.content, b"card".to_vec());
            assert_eq!(payload.ktp_image.mime_type, None);
            assert_eq!(payload.selfie_image.content, b"selfie".to_vec());
            assert_eq!(payload.selfie_image.mime_type, Some("image/jpeg".to_string()));
            assert_eq!(payload.face_match_threshold, Similarity { bits: 0x3FE8_F5C2_8F5C_28F6 });
        }
        other => panic!("unexpected call {:?}", other),
    }
    let job = AsyncJobHandle { job_id: "j1".to_string(), queue: "face".to_string() };
    match svc.resume(pending, Answer::Job(Ok(job))) {
        Step::Finished { result: Ok(s), warning: None } => {
            assert_eq!(s.id, "s1");
            assert_eq!(s.selfie_with_id_url, Some("http://media/selfie.jpg".to_string()));
        }
        other => panic!("unexpected step {:?}", other),
    }
}

#[test]
fn selfie_is_returned_when_face_match_dispatch_fails() {
    let svc = service();
    let pending = selfie_patched(&svc);
    let patched = session("s1", "QUEUED", Some("http://media/card.jpg"));
    let (pending, _) = going_on(svc.resume(pending, Answer::Session(Ok(patched))));
    let (pending, _) = going_on(svc.resume(pending, Answer::Bytes(Ok(b"card".to_vec()))));
    match svc.resume(pending, Answer::Job(Err(internal("ai backend down")))) {
        Step::Finished { result: Ok(s), warning: Some(w) } => {
            assert_eq!(s.id, "s1");
            assert_eq!(s.selfie_with_id_url, Some("http://media/selfie.jpg".to_string()));
            assert_eq!(w.session_id, "s1");
            assert_eq!(w.message, "failed to enqueue face match job");
            assert!(matches!(w.cause, AppError::Internal(ref c) if c == "ai backend down"));
        }
        other => panic!("unexpected step {:?}", other),
    }
}

#[test]
fn selfie_is_returned_when_id_card_download_fails() {
    let svc = service();
    let pending = selfie_patched(&svc);
    let patched = session("s1", "QUEUED", Some("http://media/card.jpg"));
    let (pending, _) = going_on(svc.resume(pending, Answer::Session(Ok(patched))));
    match svc.resume(pending, Answer::Bytes(Err(internal("timeout")))) {
        Step::Finished { result: Ok(s), warning: Some(w) } => {
            assert_eq!(s.id, "s1");
            assert_eq!(w.message, "failed to download id card image");
        }
        other => panic!("unexpected step {:?}", other),
    }
}

#[test]
fn selfie_without_id_card_ends_after_the_patch() {
    let svc = service();
    let pending = selfie_patched(&svc);
    match svc.resume(pending, Answer::Session(Ok(session("s1", "QUEUED", None)))) {
        Step::Finished { result: Ok(s), warning: None } => assert_eq!(s.id, "s1"),
        other => panic!("unexpected step {:?}", other),
    }
}

#[test]
fn selfie_with_face_match_not_queued_ends_after_the_patch() {
    let svc = service();
    let pending = selfie_patched(&svc);
    let patched = session("s1", "DONE", Some("http://media/card.jpg"));
    match svc.resume(pending, Answer::Session(Ok(patched))) {
        Step::Finished { result: Ok(s), warning: None } => assert_eq!(s.id, "s1"),
        other => panic!("unexpected step {:?}", other),
    }
}

#[test]
fn failed_selfie_patch_fails_the_operation() {
    let svc = service();
    let pending = selfie_patched(&svc);
    match svc.resume(pending, Answer::Session(Err(AppError::BadRequest("bad patch".into())))) {
        Step::Finished { result: Err(AppError::BadRequest(m)), warning: None } => {
            assert_eq!(m, "bad patch")
        }
        other => panic!("unexpected step {:?}", other),
    }
}

fn frame(bytes: &[u8]) -> BinaryImage {
    BinaryImage { content: bytes.to_vec(), mime_type: Some("image/png".to_string()) }
}

#[test]
fn liveness_patches_then_queues_the_job() {
    let svc = service();
    let step = svc.start_liveness("s1", vec![frame(b"f0"), frame(b"f1")], vec!["blink".into()]);
    let (pending, call) = going_on(step);
    match call {
        Call::PatchSession { session_id, patch } => {
            assert_eq!(session_id, "s1");
            assert_eq!(patch.liveness_status, Some("RUNNING".to_string()));
            assert_eq!(patch.status, Some("UNDER_REVIEW".to_string()));
            assert_eq!(patch.id_card_url, None);
            assert_eq!(patch.selfie_with_id_url, None);
            assert_eq!(patch.face_matching_status, None);
            assert_eq!(patch.recorded_video_url, None);
        }
        other => panic!("unexpected call {:?}", other),
    }
    let patched = session("s-from-store", "", None);
    let (pending, call) = going_on(svc.resume(pending, Answer::Session(Ok(patched))));
    match call {
        Call::StartLiveness(payload) => {
            assert_eq!(payload.session_id, "s-from-store");
            assert_eq!(payload.liveness_frames.len(), 2);
            assert_eq!(payload.liveness_frames[0].content, b"f0".to_vec());
            assert_eq!(payload.liveness_frames[1].content, b"f1".to_vec());
            assert_eq!(payload.gestures, vec!["blink".to_string()]);
        }
        other => panic!("unexpected call {:?}", other),
    }
    match svc.resume(pending, Answer::Job(Err(internal("queue full")))) {
        Step::Finished { result: Ok(s), warning: Some(w) } => {
            assert_eq!(s.id, "s-from-store");
            assert_eq!(w.message, "failed to enqueue liveness job");
            assert_eq!(w.session_id, "s-from-store");
        }
        other => panic!("unexpected step {:?}", other),
    }
}

#[test]
fn liveness_job_success_leaves_no_warning() {
    let svc = service();
    let (pending, _) = going_on(svc.start_liveness("s1", vec![frame(b"f0")], Vec::new()));
    let (pending, _) = going_on(svc.resume(pending, Answer::Session(Ok(session("s1", "", None)))));
    let job = AsyncJobHandle { job_id: "j".into(), queue: "q".into() };
    assert!(matches!(
        svc.resume(pending, Answer::Job(Ok(job))),
        Step::Finished { result: Ok(_), warning: None }
    ));
}

#[test]
fn answer_of_the_wrong_kind_is_an_internal_error() {
    let svc = service();
    let (pending, _) = going_on(svc.get_session("s1"));
    match svc.resume(pending, Answer::Bytes(Ok(Vec::new()))) {
        Step::Finished { result: Err(AppError::Internal(cause)), warning: None } => {
            assert_eq!(cause, "unexpected answer")
        }
        other => panic!("unexpected step {:?}", other),
    }
}
