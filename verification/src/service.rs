//! The session orchestrator.
//!
//! Each operation of the workflow is a short sequence of calls to the three
//! backends, and the orchestrator decides which call comes next. It does
//! not make the calls. An operation starts with one of the methods named
//! after it, which checks its input and gives the first [`Step`]; the caller
//! performs the call of that step and hands what came back to
//! [`EkycService::resume`], until a step is [`Step::Finished`].
//!
//! Two rules hold throughout. Input is checked before anything is sent, so
//! a rejected operation has made no call. And the calls that only announce
//! work to the AI backend are best effort: once the session has been
//! patched, whatever happens to them is noted in a [`Warning`] and the
//! patched session is the result.

use vstd::prelude::*;
use crate::backoffice::{
    ApplicantSubmissionRequest, ApplicantSubmissionRequestView, EkycSessionDto, EkycSessionDtoView,
    UpdateSessionPatch, UpdateSessionPatchView,
};
use crate::entities::{
    AsyncJobHandle, AsyncJobHandleView, BinaryImage, BinaryImageView, Similarity,
    StartFaceMatchJobPayload, StartFaceMatchJobPayloadView, StartLivenessJobPayload,
    StartLivenessJobPayloadView,
};
use crate::error::{outcome_view, AppError, AppErrorView, AppResult};
use crate::media::{MediaUploadResponse, MediaUploadResponseView};
use crate::text::{
    blank, copy_bytes, copy_opt_text, eq_ignore_ascii_case, is_blank, same_ignoring_ascii_case,
    text,
};

verus! {

/// A file as a client uploaded it: the image and the name it had.
#[derive(Clone, Debug)]
pub struct UploadedFile {
    pub filename: Option<String>,
    pub mime_type: Option<String>,
    pub bytes: Vec<u8>,
}

/// Mathematical model of an [`UploadedFile`].
pub struct UploadedFileView {
    pub filename: Option<Seq<char>>,
    pub mime_type: Option<Seq<char>>,
    pub bytes: Seq<u8>,
}

impl DeepView for UploadedFile {
    type V = UploadedFileView;

    open spec fn deep_view(&self) -> UploadedFileView {
        UploadedFileView {
            filename: self.filename.deep_view(),
            mime_type: self.mime_type.deep_view(),
            bytes: self.bytes@,
        }
    }
}

/// The applicant of a session, as the surface hands it over.
#[derive(Debug)]
pub struct ApplicantSubmission {
    pub full_name: String,
    pub nik: String,
    pub birth_date: String,
    pub address: String,
    pub phone: String,
    pub email: String,
    pub pin: String,
}

/// Mathematical model of an [`ApplicantSubmission`].
pub struct ApplicantSubmissionView {
    pub full_name: Seq<char>,
    pub nik: Seq<char>,
    pub birth_date: Seq<char>,
    pub address: Seq<char>,
    pub phone: Seq<char>,
    pub email: Seq<char>,
    pub pin: Seq<char>,
}

impl DeepView for ApplicantSubmission {
    type V = ApplicantSubmissionView;

    open spec fn deep_view(&self) -> ApplicantSubmissionView {
        ApplicantSubmissionView {
            full_name: self.full_name@,
            nik: self.nik@,
            birth_date: self.birth_date@,
            address: self.address@,
            phone: self.phone@,
            email: self.email@,
            pin: self.pin@,
        }
    }
}

/// One entry for the log: a side effect that failed and was let go.
#[derive(Debug)]
pub struct Warning {
    pub session_id: String,
    pub message: String,
    pub cause: AppError,
}

/// Mathematical model of a [`Warning`].
pub struct WarningView {
    pub session_id: Seq<char>,
    pub message: Seq<char>,
    pub cause: AppErrorView,
}

impl DeepView for Warning {
    type V = WarningView;

    open spec fn deep_view(&self) -> WarningView {
        WarningView {
            session_id: self.session_id@,
            message: self.message@,
            cause: self.cause.deep_view(),
        }
    }
}
/// A call to one of the backends.
#[derive(Debug)]
pub enum Call {
    /// Session store: create a session.
    CreateSession { user_id: Option<String> },
    /// Session store: fetch a session.
    GetSession { session_id: String },
    /// Session store: apply a sparse patch.
    PatchSession { session_id: String, patch: UpdateSessionPatch },
    /// Session store: submit the applicant.
    SubmitApplicant { session_id: String, request: ApplicantSubmissionRequest },
    /// Blob store: upload an object.
    Upload { field_name: String, bytes: Vec<u8>, filename: Option<String>, mime: Option<String> },
    /// Blob store: download an object.
    Download { url: String },
    /// AI backend: queue a face-match job.
    StartFaceMatch(StartFaceMatchJobPayload),
    /// AI backend: queue a liveness job.
    StartLiveness(StartLivenessJobPayload),
}

/// Mathematical model of a [`Call`].
pub enum CallView {
    CreateSession { user_id: Option<Seq<char>> },
    GetSession { session_id: Seq<char> },
    PatchSession { session_id: Seq<char>, patch: UpdateSessionPatchView },
    SubmitApplicant { session_id: Seq<char>, request: ApplicantSubmissionRequestView },
    Upload {
        field_name: Seq<char>,
        bytes: Seq<u8>,
        filename: Option<Seq<char>>,
        mime: Option<Seq<char>>,
    },
    Download { url: Seq<char> },
    StartFaceMatch(StartFaceMatchJobPayloadView),
    StartLiveness(StartLivenessJobPayloadView),
}

impl DeepView for Call {
    type V = CallView;

    open spec fn deep_view(&self) -> CallView {
        match self {
            Call::CreateSession { user_id } => CallView::CreateSession {
                user_id: user_id.deep_view(),
            },
            Call::GetSession { session_id } => CallView::GetSession { session_id: session_id@ },
            Call::PatchSession { session_id, patch } => CallView::PatchSession {
                session_id: session_id@,
                patch: patch.deep_view(),
            },
            Call::SubmitApplicant { session_id, request } => CallView::SubmitApplicant {
                session_id: session_id@,
                request: request.deep_view(),
            },
            Call::Upload { field_name, bytes, filename, mime } => CallView::Upload {
                field_name: field_name@,
                bytes: bytes@,
                filename: filename.deep_view(),
                mime: mime.deep_view(),
            },
            Call::Download { url } => CallView::Download { url: url@ },
            Call::StartFaceMatch(payload) => CallView::StartFaceMatch(payload.deep_view()),
            Call::StartLiveness(payload) => CallView::StartLiveness(payload.deep_view()),
        }
    }
}

/// What came back from a call.
#[derive(Debug)]
pub enum Answer {
    /// From the session store.
    Session(AppResult<EkycSessionDto>),
    /// From an upload to the blob store.
    Stored(AppResult<MediaUploadResponse>),
    /// From a download from the blob store.
    Bytes(AppResult<Vec<u8>>),
    /// From the AI backend.
    Job(AppResult<AsyncJobHandle>),
}

/// Mathematical model of an [`Answer`].
pub enum AnswerView {
    Session(Result<EkycSessionDtoView, AppErrorView>),
    Stored(Result<MediaUploadResponseView, AppErrorView>),
    Bytes(Result<Seq<u8>, AppErrorView>),
    Job(Result<AsyncJobHandleView, AppErrorView>),
}

impl DeepView for Answer {
    type V = AnswerView;

    open spec fn deep_view(&self) -> AnswerView {
        match self {
            Answer::Session(r) => AnswerView::Session(outcome_view(*r)),
            Answer::Stored(r) => AnswerView::Stored(outcome_view(*r)),
            Answer::Bytes(r) => AnswerView::Bytes(
                match r {
                    Ok(bytes) => Ok(bytes@),
                    Err(e) => Err(e.deep_view()),
                },
            ),
            Answer::Job(r) => AnswerView::Job(outcome_view(*r)),
        }
    }
}

/// What an operation is waiting for, with what it has to remember.
#[derive(Debug)]
pub enum Pending {
    /// The session store's answer, which is the result.
    Session,
    /// The upload of an ID card.
    IdCardStored { session_id: String },
    /// The upload of a selfie.
    SelfieStored { session_id: String, selfie: Vec<u8>, mime: Option<String> },
    /// The patch that records a selfie.
    SelfiePatched { selfie: Vec<u8>, mime: Option<String> },
    /// The download of the ID card, for the face match. Best effort.
    IdCardBytes { session: EkycSessionDto, selfie: Vec<u8>, mime: Option<String> },
    /// The queueing of the face match. Best effort.
    FaceMatchJob { session: EkycSessionDto },
    /// The patch that records the start of the liveness check.
    LivenessPatched { frames: Vec<BinaryImage>, gestures: Vec<String> },
    /// The queueing of the liveness check. Best effort.
    LivenessJob { session: EkycSessionDto },
}

/// Mathematical model of a [`Pending`].
pub enum PendingView {
    Session,
    IdCardStored { session_id: Seq<char> },
    SelfieStored { session_id: Seq<char>, selfie: Seq<u8>, mime: Option<Seq<char>> },
    SelfiePatched { selfie: Seq<u8>, mime: Option<Seq<char>> },
    IdCardBytes { session: EkycSessionDtoView, selfie: Seq<u8>, mime: Option<Seq<char>> },
    FaceMatchJob { session: EkycSessionDtoView },
    LivenessPatched { frames: Seq<BinaryImageView>, gestures: Seq<Seq<char>> },
    LivenessJob { session: EkycSessionDtoView },
}

impl DeepView for Pending {
    type V = PendingView;

    open spec fn deep_view(&self) -> PendingView {
        match self {
            Pending::Session => PendingView::Session,
            Pending::IdCardStored { session_id } => PendingView::IdCardStored {
                session_id: session_id@,
            },
            Pending::SelfieStored { session_id, selfie, mime } => PendingView::SelfieStored {
                session_id: session_id@,
                selfie: selfie@,
                mime: mime.deep_view(),
            },
            Pending::SelfiePatched { selfie, mime } => PendingView::SelfiePatched {
                selfie: selfie@,
                mime: mime.deep_view(),
            },
            Pending::IdCardBytes { session, selfie, mime } => PendingView::IdCardBytes {
                session: session.deep_view(),
                selfie: selfie@,
                mime: mime.deep_view(),
            },
            Pending::FaceMatchJob { session } => PendingView::FaceMatchJob {
                session: session.deep_view(),
            },
            Pending::LivenessPatched { frames, gestures } => PendingView::LivenessPatched {
                frames: frames.deep_view(),
                gestures: gestures.deep_view(),
            },
            Pending::LivenessJob { session } => PendingView::LivenessJob {
                session: session.deep_view(),
            },
        }
    }
}

/// Where an operation stands.
#[derive(Debug)]
pub enum Step {
    /// Make `call`, then resume with `pending` and the answer.
    Continue { pending: Pending, call: Call },
    /// The operation is over. `warning` is for the log and changes nothing
    /// of what the client sees.
    Finished { result: AppResult<EkycSessionDto>, warning: Option<Warning> },
}

/// Mathematical model of a [`Step`].
pub enum StepView {
    Continue { pending: PendingView, call: CallView },
    Finished { result: Result<EkycSessionDtoView, AppErrorView>, warning: Option<WarningView> },
}

impl DeepView for Step {
    type V = StepView;

    open spec fn deep_view(&self) -> StepView {
        match self {
            Step::Continue { pending, call } => StepView::Continue {
                pending: pending.deep_view(),
                call: call.deep_view(),
            },
            Step::Finished { result, warning } => StepView::Finished {
                result: outcome_view(*result),
                warning: warning.deep_view(),
            },
        }
    }
}

/// Message for an upload without content.
pub open spec fn empty_file_message() -> Seq<char> {
    "file tidak boleh kosong"@
}

/// Message for a liveness check without frames.
pub open spec fn no_frames_message() -> Seq<char> {
    "at least one liveness frame is required"@
}

/// Message for an applicant without a phone number.
pub open spec fn phone_required_message() -> Seq<char> {
    "phone number is required"@
}

/// Message for an applicant without a name.
pub open spec fn name_required_message() -> Seq<char> {
    "full name is required"@
}

/// Cause recorded where an answer is not of the kind that was waited for.
pub open spec fn unexpected_answer() -> Seq<char> {
    "unexpected answer"@
}

/// Name of the form part that uploads go under.
pub open spec fn upload_field() -> Seq<char> {
    "file"@
}

/// An operation that ends at once with a bad request.
pub open spec fn rejected(message: Seq<char>) -> StepView {
    StepView::Finished { result: Err(AppErrorView::BadRequest(message)), warning: None }
}

/// An operation that ends with an error and nothing to log.
pub open spec fn failed(e: AppErrorView) -> StepView {
    StepView::Finished { result: Err(e), warning: None }
}

/// An operation that ends with the session and nothing to log.
pub open spec fn done(session: EkycSessionDtoView) -> StepView {
    StepView::Finished { result: Ok(session), warning: None }
}

/// An operation that ends with the session although a side effect failed.
pub open spec fn done_with_warning(
    session: EkycSessionDtoView,
    message: Seq<char>,
    cause: AppErrorView,
) -> StepView {
    StepView::Finished {
        result: Ok(session),
        warning: Some(WarningView { session_id: session.id, message, cause }),
    }
}

/// The patch that sets nothing.
pub open spec fn empty_patch() -> UpdateSessionPatchView {
    UpdateSessionPatchView {
        id_card_url: None,
        selfie_with_id_url: None,
        recorded_video_url: None,
        status: None,
        face_matching_status: None,
        liveness_status: None,
    }
}

/// The upload of a file to the blob store.
pub open spec fn upload_call(file: UploadedFileView) -> CallView {
    CallView::Upload {
        field_name: upload_field(),
        bytes: file.bytes,
        filename: file.filename,
        mime: file.mime_type,
    }
}

/// First step of creating a session: one call to the session store.
pub open spec fn create_session_start(user_id: Option<Seq<char>>) -> StepView {
    StepView::Continue { pending: PendingView::Session, call: CallView::CreateSession { user_id } }
}

/// First step of fetching a session: one call to the session store.
pub open spec fn get_session_start(session_id: Seq<char>) -> StepView {
    StepView::Continue {
        pending: PendingView::Session,
        call: CallView::GetSession { session_id },
    }
}

/// First step of uploading an ID card: reject an empty file, else upload.
pub open spec fn upload_id_card_start(session_id: Seq<char>, file: UploadedFileView) -> StepView {
    if file.bytes.len() == 0 {
        rejected(empty_file_message())
    } else {
        StepView::Continue {
            pending: PendingView::IdCardStored { session_id },
            call: upload_call(file),
        }
    }
}

/// First step of uploading a selfie: reject an empty file, else upload and
/// keep the image for the face match.
pub open spec fn upload_selfie_start(session_id: Seq<char>, file: UploadedFileView) -> StepView {
    if file.bytes.len() == 0 {
        rejected(empty_file_message())
    } else {
        StepView::Continue {
            pending: PendingView::SelfieStored {
                session_id,
                selfie: file.bytes,
                mime: file.mime_type,
            },
            call: upload_call(file),
        }
    }
}

/// First step of the liveness check: reject an empty list of frames, else
/// patch the session to running and under review.
pub open spec fn start_liveness_start(
    session_id: Seq<char>,
    frames: Seq<BinaryImageView>,
    gestures: Seq<Seq<char>>,
) -> StepView {
    if frames.len() == 0 {
        rejected(no_frames_message())
    } else {
        StepView::Continue {
            pending: PendingView::LivenessPatched { frames, gestures },
            call: CallView::PatchSession {
                session_id,
                patch: UpdateSessionPatchView {
                    liveness_status: Some("RUNNING"@),
                    status: Some("UNDER_REVIEW"@),
                    ..empty_patch()
                },
            },
        }
    }
}

/// First step of submitting an applicant: reject a blank phone number,
/// then a blank name, else one call to the session store.
pub open spec fn submit_applicant_start(
    session_id: Seq<char>,
    payload: ApplicantSubmissionView,
) -> StepView {
    if blank(payload.phone) {
        rejected(phone_required_message())
    } else if blank(payload.full_name) {
        rejected(name_required_message())
    } else {
        StepView::Continue {
            pending: PendingView::Session,
            call: CallView::SubmitApplicant {
                session_id,
                request: ApplicantSubmissionRequestView {
                    full_name: payload.full_name,
                    nik: payload.nik,
                    birth_date: payload.birth_date,
                    address: payload.address,
                    phone: payload.phone,
                    email: payload.email,
                    pin: payload.pin,
                },
            },
        }
    }
}

/// What follows the patch that recorded a selfie: the download of the ID
/// card if the face match is queued and an ID card is there, else the end.
pub open spec fn face_match_start(
    session: EkycSessionDtoView,
    selfie: Seq<u8>,
    mime: Option<Seq<char>>,
) -> StepView {
    if !same_ignoring_ascii_case(session.face_matching_status, "QUEUED"@) {
        done(session)
    } else {
        match session.id_card_url {
            Some(url) => StepView::Continue {
                pending: PendingView::IdCardBytes { session, selfie, mime },
                call: CallView::Download { url },
            },
            None => done(session),
        }
    }
}

/// The error that an answer carries, or the one that says it was not of
/// the kind waited for.
pub open spec fn cause_of(answer: AnswerView) -> AppErrorView {
    match answer {
        AnswerView::Session(Err(e)) => e,
        AnswerView::Stored(Err(e)) => e,
        AnswerView::Bytes(Err(e)) => e,
        AnswerView::Job(Err(e)) => e,
        _ => AppErrorView::Internal(unexpected_answer()),
    }
}

/// The step that follows `pending` once `answer` has come back.
pub open spec fn next_step(threshold: Similarity, pending: PendingView, answer: AnswerView)
    -> StepView {
    match pending {
        PendingView::Session => match answer {
            AnswerView::Session(result) => StepView::Finished { result, warning: None },
            _ => failed(cause_of(answer)),
        },
        PendingView::IdCardStored { session_id } => match answer {
            AnswerView::Stored(Ok(stored)) => StepView::Continue {
                pending: PendingView::Session,
                call: CallView::PatchSession {
                    session_id,
                    patch: UpdateSessionPatchView { id_card_url: Some(stored.url), ..empty_patch() },
                },
            },
            _ => failed(cause_of(answer)),
        },
        PendingView::SelfieStored { session_id, selfie, mime } => match answer {
            AnswerView::Stored(Ok(stored)) => StepView::Continue {
                pending: PendingView::SelfiePatched { selfie, mime },
                call: CallView::PatchSession {
                    session_id,
                    patch: UpdateSessionPatchView {
                        selfie_with_id_url: Some(stored.url),
                        face_matching_status: Some("QUEUED"@),
                        ..empty_patch()
                    },
                },
            },
            _ => failed(cause_of(answer)),
        },
        PendingView::SelfiePatched { selfie, mime } => match answer {
            AnswerView::Session(Ok(session)) => face_match_start(session, selfie, mime),
            _ => failed(cause_of(answer)),
        },
        PendingView::IdCardBytes { session, selfie, mime } => match answer {
            AnswerView::Bytes(Ok(id_card)) => StepView::Continue {
                pending: PendingView::FaceMatchJob { session },
                call: CallView::StartFaceMatch(
                    StartFaceMatchJobPayloadView {
                        session_id: session.id,
                        ktp_image: BinaryImageView { content: id_card, mime_type: None },
                        selfie_image: BinaryImageView { content: selfie, mime_type: mime },
                        face_match_threshold: threshold,
                    },
                ),
            },
            _ => done_with_warning(session, "failed to download id card image"@, cause_of(answer)),
        },
        PendingView::FaceMatchJob { session } => match answer {
            AnswerView::Job(Ok(_)) => done(session),
            _ => done_with_warning(session, "failed to enqueue face match job"@, cause_of(answer)),
        },
        PendingView::LivenessPatched { frames, gestures } => match answer {
            AnswerView::Session(Ok(session)) => StepView::Continue {
                pending: PendingView::LivenessJob { session },
                call: CallView::StartLiveness(
                    StartLivenessJobPayloadView {
                        session_id: session.id,
                        liveness_frames: frames,
                        gestures,
                    },
                ),
            },
            _ => failed(cause_of(answer)),
        },
        PendingView::LivenessJob { session } => match answer {
            AnswerView::Job(Ok(_)) => done(session),
            _ => done_with_warning(session, "failed to enqueue liveness job"@, cause_of(answer)),
        },
    }
}

/// Where an operation stands after the answers in `answers` have come
/// back one after the other, starting from `step`. Answers that come after
/// the end are not looked at.
pub open spec fn run(threshold: Similarity, step: StepView, answers: Seq<AnswerView>) -> StepView
    decreases answers.len(),
{
    match step {
        StepView::Continue { pending, call } => if answers.len() == 0 {
            step
        } else {
            run(threshold, next_step(threshold, pending, answers[0]), answers.drop_first())
        },
        StepView::Finished { .. } => step,
    }
}

/// The orchestrator. It holds configuration only: no session state
/// outlives a step.
#[derive(Debug)]
pub struct EkycService {
    face_threshold: Similarity,
}

impl EkycService {
    /// The cutoff that face-match jobs are queued with.
    pub closed spec fn threshold(&self) -> Similarity {
        self.face_threshold
    }

    /// An orchestrator that queues face-match jobs with `face_threshold`.
    pub fn new(face_threshold: Similarity) -> (service: Self)
        ensures
            service.threshold() == face_threshold,
    {
        EkycService { face_threshold }
    }

    /// The configured cutoff.
    pub fn face_threshold(&self) -> (t: Similarity)
        ensures
            t == self.threshold(),
    {
        self.face_threshold
    }

    /// Starts the creation of a session.
    pub fn create_session(&self, user_id: Option<String>) -> (step: Step)
        ensures
            step.deep_view() == create_session_start(user_id.deep_view()),
    {
        Step::Continue { pending: Pending::Session, call: Call::CreateSession { user_id } }
    }

    /// Starts the upload of an ID card. A file without content is rejected
    /// before any call is made.
    pub fn upload_id_card(&self, session_id: &str, file: UploadedFile) -> (step: Step)
        ensures
            step.deep_view() == upload_id_card_start(session_id@, file.deep_view()),
            file.bytes@.len() == 0 ==> step.deep_view() == rejected(empty_file_message()),
    {
        match self.ensure_not_empty(&file) {
            Err(e) => Step::Finished { result: Err(e), warning: None },
            Ok(()) => Step::Continue {
                pending: Pending::IdCardStored { session_id: text(session_id) },
                call: self.upload_file_to_storage(file),
            },
        }
    }

    /// Starts the upload of a selfie. A file without content is rejected
    /// before any call is made.
    pub fn upload_selfie(&self, session_id: &str, file: UploadedFile) -> (step: Step)
        ensures
            step.deep_view() == upload_selfie_start(session_id@, file.deep_view()),
            file.bytes@.len() == 0 ==> step.deep_view() == rejected(empty_file_message()),
    {
        match self.ensure_not_empty(&file) {
            Err(e) => Step::Finished { result: Err(e), warning: None },
            Ok(()) => {
                let selfie = copy_bytes(&file.bytes);
                let mime = copy_opt_text(&file.mime_type);
                Step::Continue {
                    pending: Pending::SelfieStored { session_id: text(session_id), selfie, mime },
                    call: self.upload_file_to_storage(file),
                }
            },
        }
    }

    /// Starts the liveness check. An empty list of frames is rejected
    /// before any call is made.
    pub fn start_liveness(&self, session_id: &str, frames: Vec<BinaryImage>, gestures: Vec<String>)
        -> (step: Step)
        ensures
            step.deep_view() == start_liveness_start(
                session_id@,
                frames.deep_view(),
                gestures.deep_view(),
            ),
            frames@.len() == 0 ==> step.deep_view() == rejected(no_frames_message()),
    {
        if frames.len() == 0 {
            return Step::Finished {
                result: Err(AppError::BadRequest(text("at least one liveness frame is required"))),
                warning: None,
            };
        }
        let mut patch = UpdateSessionPatch::empty();
        patch.liveness_status = Some(text("RUNNING"));
        patch.status = Some(text("UNDER_REVIEW"));
        Step::Continue {
            pending: Pending::LivenessPatched { frames, gestures },
            call: Call::PatchSession { session_id: text(session_id), patch },
        }
    }

    /// Starts the fetch of a session.
    pub fn get_session(&self, session_id: &str) -> (step: Step)
        ensures
            step.deep_view() == get_session_start(session_id@),
    {
        Step::Continue {
            pending: Pending::Session,
            call: Call::GetSession { session_id: text(session_id) },
        }
    }

    /// Starts the submission of an applicant. A blank phone number or a
    /// blank name is rejected before any call is made, whatever the other
    /// fields hold.
    pub fn submit_applicant(&self, session_id: &str, payload: ApplicantSubmission) -> (step: Step)
        ensures
            step.deep_view() == submit_applicant_start(session_id@, payload.deep_view()),
            blank(payload.phone@) ==> step.deep_view() == rejected(phone_required_message()),
            !blank(payload.phone@) && blank(payload.full_name@) ==> step.deep_view() == rejected(
                name_required_message(),
            ),
    {
        if is_blank(payload.phone.as_str()) {
            return Step::Finished {
                result: Err(AppError::BadRequest(text("phone number is required"))),
                warning: None,
            };
        }
        if is_blank(payload.full_name.as_str()) {
            return Step::Finished {
                result: Err(AppError::BadRequest(text("full name is required"))),
                warning: None,
            };
        }
        let request = ApplicantSubmissionRequest {
            full_name: payload.full_name,
            nik: payload.nik,
            birth_date: payload.birth_date,
            address: payload.address,
            phone: payload.phone,
            email: payload.email,
            pin: payload.pin,
        };
        Step::Continue {
            pending: Pending::Session,
            call: Call::SubmitApplicant { session_id: text(session_id), request },
        }
    }

    /// Takes an operation one step further: `pending` is what it was
    /// waiting for and `answer` is what came back.
    pub fn resume(&self, pending: Pending, answer: Answer) -> (step: Step)
        ensures
            step.deep_view() == next_step(
                self.threshold(),
                pending.deep_view(),
                answer.deep_view(),
            ),
    {
        match pending {
            Pending::Session => match answer {
                Answer::Session(result) => Step::Finished { result, warning: None },
                other => Step::Finished { result: Err(cause(other)), warning: None },
            },
            Pending::IdCardStored { session_id } => match answer {
                Answer::Stored(Ok(stored)) => {
                    let mut patch = UpdateSessionPatch::empty();
                    patch.id_card_url = Some(stored.url);
                    Step::Continue {
                        pending: Pending::Session,
                        call: Call::PatchSession { session_id, patch },
                    }
                },
                other => Step::Finished { result: Err(cause(other)), warning: None },
            },
            Pending::SelfieStored { session_id, selfie, mime } => match answer {
                Answer::Stored(Ok(stored)) => {
                    let mut patch = UpdateSessionPatch::empty();
                    patch.selfie_with_id_url = Some(stored.url);
                    patch.face_matching_status = Some(text("QUEUED"));
                    Step::Continue {
                        pending: Pending::SelfiePatched { selfie, mime },
                        call: Call::PatchSession { session_id, patch },
                    }
                },
                other => Step::Finished { result: Err(cause(other)), warning: None },
            },
            Pending::SelfiePatched { selfie, mime } => match answer {
                Answer::Session(Ok(session)) => self.try_start_face_match(session, selfie, mime),
                other => Step::Finished { result: Err(cause(other)), warning: None },
            },
            Pending::IdCardBytes { session, selfie, mime } => match answer {
                Answer::Bytes(Ok(id_card)) => {
                    let payload = StartFaceMatchJobPayload {
                        session_id: session.id.clone(),
                        ktp_image: BinaryImage { content: id_card, mime_type: None },
                        selfie_image: BinaryImage { content: selfie, mime_type: mime },
                        face_match_threshold: self.face_threshold,
                    };
                    Step::Continue {
                        pending: Pending::FaceMatchJob { session },
                        call: Call::StartFaceMatch(payload),
                    }
                },
                other => let_go(session, "failed to download id card image", cause(other)),
            },
            Pending::FaceMatchJob { session } => match answer {
                Answer::Job(Ok(_)) => Step::Finished { result: Ok(session), warning: None },
                other => let_go(session, "failed to enqueue face match job", cause(other)),
            },
            Pending::LivenessPatched { frames, gestures } => match answer {
                Answer::Session(Ok(session)) => {
                    let payload = StartLivenessJobPayload {
                        session_id: session.id.clone(),
                        liveness_frames: frames,
                        gestures,
                    };
                    Step::Continue {
                        pending: Pending::LivenessJob { session },
                        call: Call::StartLiveness(payload),
                    }
                },
                other => Step::Finished { result: Err(cause(other)), warning: None },
            },
            Pending::LivenessJob { session } => match answer {
                Answer::Job(Ok(_)) => Step::Finished { result: Ok(session), warning: None },
                other => let_go(session, "failed to enqueue liveness job", cause(other)),
            },
        }
    }

    /// The upload of a file under the form part that the blob store reads.
    fn upload_file_to_storage(&self, file: UploadedFile) -> (call: Call)
        ensures
            call.deep_view() == upload_call(file.deep_view()),
    {
        Call::Upload {
            field_name: text("file"),
            bytes: file.bytes,
            filename: file.filename,
            mime: file.mime_type,
        }
    }

    /// Decides what follows the patch that recorded a selfie.
    fn try_start_face_match(&self, session: EkycSessionDto, selfie: Vec<u8>, mime: Option<String>)
        -> (step: Step)
        ensures
            step.deep_view() == face_match_start(session.deep_view(), selfie@, mime.deep_view()),
    {
        if !eq_ignore_ascii_case(session.face_matching_status.as_str(), "QUEUED") {
            return Step::Finished { result: Ok(session), warning: None };
        }
        let url = match &session.id_card_url {
            Some(url) => Some(url.clone()),
            None => None,
        };
        match url {
            Some(url) => Step::Continue {
                pending: Pending::IdCardBytes { session, selfie, mime },
                call: Call::Download { url },
            },
            None => Step::Finished { result: Ok(session), warning: None },
        }
    }

    /// Rejects a file without content.
    fn ensure_not_empty(&self, file: &UploadedFile) -> (r: AppResult<()>)
        ensures
            file.bytes@.len() == 0 ==> (r matches Err(e) && e.deep_view()
                == AppErrorView::BadRequest(empty_file_message())),
            file.bytes@.len() != 0 ==> r is Ok,
    {
        if file.bytes.len() == 0 {
            return Err(AppError::BadRequest(text("file tidak boleh kosong")));
        }
        Ok(())
    }
}

/// `part` occurs in `s`.
pub open spec fn contains_text(s: Seq<char>, part: Seq<char>) -> bool {
    exists|i: int|
        0 <= i && i + part.len() <= s.len() && #[trigger] s.subrange(i, i + part.len() as int)
            == part
}

/// Once the patch that records a selfie has succeeded, the operation ends
/// with the patched session whatever comes back from the download of the
/// ID card and from the queueing of the face match. Two more answers are
/// enough to reach the end.
pub proof fn lemma_selfie_survives_face_match(
    threshold: Similarity,
    selfie: Seq<u8>,
    mime: Option<Seq<char>>,
    session: EkycSessionDtoView,
    answers: Seq<AnswerView>,
)
    requires
        answers.len() >= 2,
    ensures
        run(
            threshold,
            next_step(
                threshold,
                PendingView::SelfiePatched { selfie, mime },
                AnswerView::Session(Ok(session)),
            ),
            answers,
        ) matches StepView::Finished { result, .. } && result == Ok::<
            EkycSessionDtoView,
            AppErrorView,
        >(session),
{
    reveal_with_fuel(run, 3);
}

/// Once the patch that starts the liveness check has succeeded, the
/// operation ends with the patched session whatever comes back from the
/// queueing of the job.
pub proof fn lemma_liveness_survives_dispatch(
    threshold: Similarity,
    frames: Seq<BinaryImageView>,
    gestures: Seq<Seq<char>>,
    session: EkycSessionDtoView,
    answers: Seq<AnswerView>,
)
    requires
        answers.len() >= 1,
    ensures
        run(
            threshold,
            next_step(
                threshold,
                PendingView::LivenessPatched { frames, gestures },
                AnswerView::Session(Ok(session)),
            ),
            answers,
        ) matches StepView::Finished { result, .. } && result == Ok::<
            EkycSessionDtoView,
            AppErrorView,
        >(session),
{
    reveal_with_fuel(run, 3);
}

/// The result of a best-effort call never reaches the client: two
/// different answers to it end the operation with the same result. A
/// failed call leaves a warning for the log and nothing else.
pub proof fn lemma_best_effort_answer_is_ignored(
    threshold: Similarity,
    session: EkycSessionDtoView,
    first: AnswerView,
    second: AnswerView,
)
    ensures
        next_step(threshold, PendingView::FaceMatchJob { session }, first)->result == next_step(
            threshold,
            PendingView::FaceMatchJob { session },
            second,
        )->result,
        next_step(threshold, PendingView::LivenessJob { session }, first)->result == next_step(
            threshold,
            PendingView::LivenessJob { session },
            second,
        )->result,
        next_step(threshold, PendingView::FaceMatchJob { session }, first) is Finished,
        next_step(threshold, PendingView::LivenessJob { session }, first) is Finished,
        first is Job && first->Job_0 is Err ==> next_step(
            threshold,
            PendingView::FaceMatchJob { session },
            first,
        )->warning is Some && next_step(
            threshold,
            PendingView::LivenessJob { session },
            first,
        )->warning is Some,
{
}

/// Calls come in order: the ID card is fetched only after the patch that
/// recorded the selfie has succeeded, and a job is queued only after the
/// step before it has, the download for a face match and the patch for a
/// liveness check.
pub proof fn lemma_side_effects_follow_the_patch(
    threshold: Similarity,
    pending: PendingView,
    answer: AnswerView,
)
    requires
        next_step(threshold, pending, answer) is Continue,
    ensures
        next_step(threshold, pending, answer)->call is Download ==> pending is SelfiePatched
            && answer is Session && answer->Session_0 is Ok,
        next_step(threshold, pending, answer)->call is StartFaceMatch ==> pending is IdCardBytes
            && answer is Bytes && answer->Bytes_0 is Ok,
        next_step(threshold, pending, answer)->call is StartLiveness ==> pending
            is LivenessPatched && answer is Session && answer->Session_0 is Ok,
        next_step(threshold, pending, answer)->call is PatchSession ==> answer is Stored
            && answer->Stored_0 is Ok,
{
}

/// The message for a missing phone number names the phone, and the one for
/// a missing name names the name.
pub proof fn lemma_rejection_names_the_field()
    ensures
        contains_text(phone_required_message(), "phone"@),
        contains_text(name_required_message(), "name"@),
{
    reveal_strlit("phone number is required");
    reveal_strlit("phone");
    reveal_strlit("full name is required");
    reveal_strlit("name");
    assert(phone_required_message().subrange(0, 0 + "phone"@.len() as int) =~= "phone"@);
    assert(name_required_message().subrange(5, 5 + "name"@.len() as int) =~= "name"@);
}

/// The error of an answer that is not the one an operation can go on with.
fn cause(answer: Answer) -> (e: AppError)
    ensures
        e.deep_view() == cause_of(answer.deep_view()),
{
    match answer {
        Answer::Session(Err(e)) => e,
        Answer::Stored(Err(e)) => e,
        Answer::Bytes(Err(e)) => e,
        Answer::Job(Err(e)) => e,
        _ => AppError::Internal(text("unexpected answer")),
    }
}

/// Ends an operation with its session and a note of what failed.
fn let_go(session: EkycSessionDto, message: &str, cause: AppError) -> (step: Step)
    ensures
        step.deep_view() == done_with_warning(session.deep_view(), message@, cause.deep_view()),
{
    let warning = Warning { session_id: session.id.clone(), message: text(message), cause };
    Step::Finished { result: Ok(session), warning: Some(warning) }
}

} // verus!
