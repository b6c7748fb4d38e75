//! The decoding and encoding that the HTTP surface does around the
//! orchestrator.
//!
//! Routing and the reading of the wire are the caller's. What is decided
//! here is how a decoded request becomes the start of an operation, and how
//! a result becomes a status and a body.

use base64::Engine;
use vstd::prelude::*;
use crate::backoffice::EkycSessionDto;
use crate::entities::{BinaryImage, BinaryImageView};
use crate::error::{outcome_view, status_of, AppError, AppErrorView, AppResult};
use crate::service::{
    rejected, start_liveness_start, submit_applicant_start, upload_id_card_start,
    upload_selfie_start, ApplicantSubmission, ApplicantSubmissionView, EkycService, Step,
    UploadedFile, UploadedFileView,
};
use crate::text::{concat, decimal, decimal_text, text};

verus! {

/// Body of the answer to a health check.
#[derive(Debug)]
pub struct HealthCheckResponse {
    pub status: String,
}

/// Mathematical model of a [`HealthCheckResponse`].
pub struct HealthCheckResponseView {
    pub status: Seq<char>,
}

impl DeepView for HealthCheckResponse {
    type V = HealthCheckResponseView;

    open spec fn deep_view(&self) -> HealthCheckResponseView {
        HealthCheckResponseView {
            status: self.status@,
        }
    }
}

/// An image inside a JSON body: base64 text and an optional MIME type.
#[derive(Debug)]
pub struct ImageUploadDto {
    pub content_base64: String,
    pub mime_type: Option<String>,
}

/// Mathematical model of an [`ImageUploadDto`].
pub struct ImageUploadDtoView {
    pub content_base64: Seq<char>,
    pub mime_type: Option<Seq<char>>,
}

impl DeepView for ImageUploadDto {
    type V = ImageUploadDtoView;

    open spec fn deep_view(&self) -> ImageUploadDtoView {
        ImageUploadDtoView {
            content_base64: self.content_base64@,
            mime_type: self.mime_type.deep_view(),
        }
    }
}

/// Body of every error answer.
#[derive(Debug)]
pub struct ApiErrorResponse {
    pub message: String,
}

/// Mathematical model of an [`ApiErrorResponse`].
pub struct ApiErrorResponseView {
    pub message: Seq<char>,
}

impl DeepView for ApiErrorResponse {
    type V = ApiErrorResponseView;

    open spec fn deep_view(&self) -> ApiErrorResponseView {
        ApiErrorResponseView {
            message: self.message@,
        }
    }
}

/// Body of the request that creates a session.
#[derive(Debug)]
pub struct CreateSessionRequest {
    pub user_id: Option<String>,
}

/// Mathematical model of a [`CreateSessionRequest`].
pub struct CreateSessionRequestView {
    pub user_id: Option<Seq<char>>,
}

impl DeepView for CreateSessionRequest {
    type V = CreateSessionRequestView;

    open spec fn deep_view(&self) -> CreateSessionRequestView {
        CreateSessionRequestView {
            user_id: self.user_id.deep_view(),
        }
    }
}

/// Body of the request that starts the liveness check. Both lists are empty
/// where the body leaves them out.
#[derive(Debug)]
pub struct StartLivenessRequest {
    pub frames: Vec<ImageUploadDto>,
    pub gestures: Vec<String>,
}

/// Mathematical model of a [`StartLivenessRequest`].
pub struct StartLivenessRequestView {
    pub frames: Seq<ImageUploadDtoView>,
    pub gestures: Seq<Seq<char>>,
}

impl DeepView for StartLivenessRequest {
    type V = StartLivenessRequestView;

    open spec fn deep_view(&self) -> StartLivenessRequestView {
        StartLivenessRequestView {
            frames: self.frames.deep_view(),
            gestures: self.gestures.deep_view(),
        }
    }
}

/// Body of the request that submits an applicant.
#[derive(Debug)]
pub struct ApplicantRequest {
    pub full_name: String,
    pub nik: Option<String>,
    pub birth_date: Option<String>,
    pub address: Option<String>,
    pub phone: String,
    pub email: Option<String>,
    pub pin: Option<String>,
}

/// Mathematical model of an [`ApplicantRequest`].
pub struct ApplicantRequestView {
    pub full_name: Seq<char>,
    pub nik: Option<Seq<char>>,
    pub birth_date: Option<Seq<char>>,
    pub address: Option<Seq<char>>,
    pub phone: Seq<char>,
    pub email: Option<Seq<char>>,
    pub pin: Option<Seq<char>>,
}

impl DeepView for ApplicantRequest {
    type V = ApplicantRequestView;

    open spec fn deep_view(&self) -> ApplicantRequestView {
        ApplicantRequestView {
            full_name: self.full_name@,
            nik: self.nik.deep_view(),
            birth_date: self.birth_date.deep_view(),
            address: self.address.deep_view(),
            phone: self.phone@,
            email: self.email.deep_view(),
            pin: self.pin.deep_view(),
        }
    }
}
/// One part of a multipart form, as far as it could be read.
#[derive(Debug)]
pub enum FormPart {
    /// The form broke off where a part should have started.
    Malformed,
    /// A part. `data` is `None` where its content could not be read; it is
    /// not looked at for a part without a file name.
    Field { file_name: Option<String>, content_type: Option<String>, data: Option<Vec<u8>> },
}

/// Mathematical model of a [`FormPart`].
pub enum FormPartView {
    Malformed,
    Field { file_name: Option<Seq<char>>, content_type: Option<Seq<char>>, data: Option<Seq<u8>> },
}

impl DeepView for FormPart {
    type V = FormPartView;

    open spec fn deep_view(&self) -> FormPartView {
        match self {
            FormPart::Malformed => FormPartView::Malformed,
            FormPart::Field { file_name, content_type, data } => FormPartView::Field {
                file_name: file_name.deep_view(),
                content_type: content_type.deep_view(),
                data: match data {
                    Some(bytes) => Some(bytes@),
                    None => None,
                },
            },
        }
    }
}

/// What a handler answers: the session, or a status with an error body.
pub type HandlerResult = Result<EkycSessionDto, (u16, ApiErrorResponse)>;

/// Why a text is not base64, as the `base64` crate reports it. Nothing
/// here looks inside.
#[verifier::external_type_specification]
#[verifier::external_body]
pub struct ExDecodeError(base64::DecodeError);

/// The bytes that a text in standard base64, with padding, stands for, or
/// `None` where the text is not such base64.
pub uninterp spec fn base64_decoded(input: Seq<u8>) -> Option<Seq<u8>>;

/// `Engine::decode` of the `base64` crate on its `STANDARD` engine. The
/// contract claims only that the outcome is a function of the input: the
/// same text always decodes to the same bytes, or always fails.
#[verifier::external_body]
fn base64_decode(input: &[u8]) -> (r: Result<Vec<u8>, base64::DecodeError>)
    ensures
        match r {
            Ok(bytes) => base64_decoded(input@) == Some(bytes@),
            Err(_) => base64_decoded(input@) is None,
        },
{
    base64::engine::general_purpose::STANDARD.decode(input)
}

/// The body that every internal error is answered with.
pub open spec fn internal_error_message() -> Seq<char> {
    "internal server error"@
}

/// What a client is told of an error: the message of an error it can act
/// on, a fixed text for an internal error.
pub open spec fn public_message(e: AppErrorView) -> Seq<char> {
    match e {
        AppErrorView::BadRequest(m) => m,
        AppErrorView::NotFound(m) => m,
        AppErrorView::Internal(_) => internal_error_message(),
    }
}

/// The image that decoded content stands for, or why there is none:
/// content that was not base64, or that decoded to nothing. The error
/// names the field.
pub open spec fn image_or_error(
    field: Seq<char>,
    decoded: Option<Seq<u8>>,
    mime_type: Option<Seq<char>>,
) -> Result<BinaryImageView, AppErrorView> {
    match decoded {
        None => Err(AppErrorView::BadRequest(field + " harus base64 valid"@)),
        Some(bytes) => if bytes.len() == 0 {
            Err(AppErrorView::BadRequest(field + " tidak boleh kosong"@))
        } else {
            Ok(BinaryImageView { content: bytes, mime_type })
        },
    }
}

/// The image in a JSON body, decoded.
pub open spec fn decoded_image(field: Seq<char>, dto: ImageUploadDtoView) -> Result<
    BinaryImageView,
    AppErrorView,
> {
    image_or_error(field, base64_decoded(vstd::utf8::encode_utf8(dto.content_base64)), dto.mime_type)
}

/// The name of the frame at position `i`, for error messages.
pub open spec fn frame_label(i: nat) -> Seq<char> {
    "frames["@ + decimal(i) + "]"@
}

/// The frames of a liveness request, decoded in order, or the error of
/// the first frame that does not decode.
pub open spec fn decoded_frames(frames: Seq<ImageUploadDtoView>) -> Result<
    Seq<BinaryImageView>,
    AppErrorView,
>
    decreases frames.len(),
{
    if frames.len() == 0 {
        Ok(Seq::empty())
    } else {
        match decoded_frames(frames.drop_last()) {
            Err(e) => Err(e),
            Ok(images) => match decoded_image(
                frame_label((frames.len() - 1) as nat),
                frames.last(),
            ) {
                Err(e) => Err(e),
                Ok(image) => Ok(images.push(image)),
            },
        }
    }
}

/// The file of a multipart form: the first part that has a file name.
/// Parts without one are passed over. A form that breaks off before such a
/// part, a part whose content cannot be read and a form without such a
/// part are bad requests.
pub open spec fn first_file(parts: Seq<FormPartView>) -> Result<UploadedFileView, AppErrorView>
    decreases parts.len(),
{
    if parts.len() == 0 {
        Err(AppErrorView::BadRequest("file field is required"@))
    } else {
        match parts[0] {
            FormPartView::Malformed => Err(AppErrorView::BadRequest("invalid multipart payload"@)),
            FormPartView::Field { file_name: None, .. } => first_file(parts.drop_first()),
            FormPartView::Field { file_name: Some(name), content_type, data: Some(bytes) } => Ok(
                UploadedFileView { filename: Some(name), mime_type: content_type, bytes },
            ),
            FormPartView::Field { file_name: Some(_), data: None, .. } => Err(
                AppErrorView::BadRequest("failed to read file data"@),
            ),
        }
    }
}

/// The applicant that a request stands for: absent texts are empty, and an
/// absent PIN is `123456`.
pub open spec fn applicant_of(payload: ApplicantRequestView) -> ApplicantSubmissionView {
    ApplicantSubmissionView {
        full_name: payload.full_name,
        nik: or_empty(payload.nik),
        birth_date: or_empty(payload.birth_date),
        address: or_empty(payload.address),
        phone: payload.phone,
        email: or_empty(payload.email),
        pin: match payload.pin {
            Some(pin) => pin,
            None => "123456"@,
        },
    }
}

/// The text, or the empty text where there is none.
pub open spec fn or_empty(value: Option<Seq<char>>) -> Seq<char> {
    match value {
        Some(v) => v,
        None => Seq::empty(),
    }
}

/// Answers a health check.
pub fn health_check() -> (r: (u16, HealthCheckResponse))
    ensures
        r.0 == 200,
        r.1.status@ == "Ok"@,
{
    (200, HealthCheckResponse { status: text("Ok") })
}

/// Turns an error into a status and a body. The cause of an internal
/// error does not reach the body.
pub fn into_http_error(err: AppError) -> (r: (u16, ApiErrorResponse))
    ensures
        r.0 == status_of(err.deep_view()),
        r.1.message@ == public_message(err.deep_view()),
{
    match err {
        AppError::BadRequest(message) => (400, ApiErrorResponse { message }),
        AppError::NotFound(message) => (404, ApiErrorResponse { message }),
        AppError::Internal(_) => (500, ApiErrorResponse { message: text("internal server error") }),
    }
}

/// Turns the result of an operation into a handler's answer.
pub fn respond(result: AppResult<EkycSessionDto>) -> (r: HandlerResult)
    ensures
        match result {
            Ok(session) => r == Ok::<EkycSessionDto, (u16, ApiErrorResponse)>(session),
            Err(e) => r matches Err(answer) && answer.0 == status_of(e.deep_view())
                && answer.1.message@ == public_message(e.deep_view()),
        },
{
    match result {
        Ok(session) => Ok(session),
        Err(e) => Err(into_http_error(e)),
    }
}

/// Makes an image of decoded content: `None` stands for content that was
/// not base64.
pub fn image_of_decoded(field: &str, decoded: Option<Vec<u8>>, mime_type: Option<String>) -> (r:
    AppResult<BinaryImage>)
    ensures
        outcome_view(r) == image_or_error(
            field@,
            match decoded {
                Some(bytes) => Some(bytes@),
                None => None,
            },
            mime_type.deep_view(),
        ),
{
    match decoded {
        None => Err(AppError::BadRequest(concat(field, " harus base64 valid"))),
        Some(bytes) => {
            if bytes.len() == 0 {
                Err(AppError::BadRequest(concat(field, " tidak boleh kosong")))
            } else {
                Ok(BinaryImage { content: bytes, mime_type })
            }
        },
    }
}

/// Decodes the image in a JSON body. `field` names it in error messages.
pub fn decode_image(field: &str, dto: ImageUploadDto) -> (r: AppResult<BinaryImage>)
    ensures
        outcome_view(r) == decoded_image(field@, dto.deep_view()),
{
    let decoded = match base64_decode(dto.content_base64.as_str().as_bytes()) {
        Ok(bytes) => Some(bytes),
        Err(_) => None,
    };
    image_of_decoded(field, decoded, dto.mime_type)
}

/// Decodes the frames of a liveness request, in order, and stops at the
/// first that does not decode.
pub fn decode_frames(frames: Vec<ImageUploadDto>) -> (r: AppResult<Vec<BinaryImage>>)
    ensures
        outcome_view(r) == decoded_frames(frames.deep_view()),
{
    let ghost all = frames@;
    let ghost model = frames.deep_view();
    let count: usize = frames.len();
    let mut images: Vec<BinaryImage> = Vec::new();
    let mut idx: usize = 0;
    assert(model.subrange(0, 0) =~= Seq::<ImageUploadDtoView>::empty());
    assert(images.deep_view() =~= Seq::<BinaryImageView>::empty());
    for frame in it: frames
        invariant
            it.seq() == all,
            idx == it.index(),
            all.len() == count,
            model == frames.deep_view(),
            model.len() == all.len(),
            forall|j: int| 0 <= j < all.len() ==> model[j] == (#[trigger] all[j]).deep_view(),
            decoded_frames(model.subrange(0, idx as int)) == Ok::<
                Seq<BinaryImageView>,
                AppErrorView,
            >(images.deep_view()),
    {
        let ghost before = images.deep_view();
        proof {
            let next = model.subrange(0, idx + 1);
            assert(next.drop_last() =~= model.subrange(0, idx as int));
            assert(next.last() == frame.deep_view());
        }
        let label = concat(concat("frames[", decimal_text(idx).as_str()).as_str(), "]");
        match decode_image(label.as_str(), frame) {
            Ok(image) => {
                images.push(image);
                assert(images.deep_view() =~= before.push(image.deep_view()));
            },
            Err(e) => {
                proof {
                    lemma_first_error_stands(model, idx as int + 1);
                }
                return Err(e);
            },
        }
        idx = idx + 1;
    }
    assert(model.subrange(0, idx as int) =~= model);
    Ok(images)
}

/// An error in a prefix of the frames is the error of the whole list.
proof fn lemma_first_error_stands(frames: Seq<ImageUploadDtoView>, n: int)
    requires
        0 <= n <= frames.len(),
        decoded_frames(frames.subrange(0, n)) is Err,
    ensures
        decoded_frames(frames) == decoded_frames(frames.subrange(0, n)),
    decreases frames.len() - n,
{
    if n < frames.len() {
        assert(frames.subrange(0, n + 1).drop_last() =~= frames.subrange(0, n));
        lemma_first_error_stands(frames, n + 1);
    } else {
        assert(frames.subrange(0, n) =~= frames);
    }
}

/// Picks the uploaded file out of the parts of a multipart form.
pub fn read_file(parts: Vec<FormPart>) -> (r: AppResult<UploadedFile>)
    ensures
        outcome_view(r) == first_file(parts.deep_view()),
{
    let ghost all = parts@;
    let ghost model = parts.deep_view();
    assert(model.subrange(0, model.len() as int) =~= model);
    for part in it: parts
        invariant
            it.seq() == all,
            model == parts.deep_view(),
            model.len() == all.len(),
            forall|j: int| 0 <= j < all.len() ==> model[j] == (#[trigger] all[j]).deep_view(),
            first_file(model) == first_file(model.subrange(it.index() as int, model.len() as int)),
    {
        proof {
            let i = it.index() as int;
            let rest = model.subrange(i, model.len() as int);
            assert(rest[0] == part.deep_view());
            assert(rest.drop_first() =~= model.subrange(i + 1, model.len() as int));
        }
        match part {
            FormPart::Malformed => {
                return Err(AppError::BadRequest(text("invalid multipart payload")));
            },
            FormPart::Field { file_name: None, .. } => {},
            FormPart::Field { file_name: Some(name), content_type, data: Some(bytes) } => {
                return Ok(UploadedFile { filename: Some(name), mime_type: content_type, bytes });
            },
            FormPart::Field { file_name: Some(_), data: None, .. } => {
                return Err(AppError::BadRequest(text("failed to read file data")));
            },
        }
    }
    Err(AppError::BadRequest(text("file field is required")))
}

/// The text, or the empty text where there is none.
fn unwrap_or_default(value: Option<String>) -> (r: String)
    ensures
        r@ == or_empty(value.deep_view()),
{
    match value {
        Some(v) => v,
        None => String::new(),
    }
}

/// Fills in what a request to submit an applicant leaves out.
pub fn applicant_submission(payload: ApplicantRequest) -> (submission: ApplicantSubmission)
    ensures
        submission.deep_view() == applicant_of(payload.deep_view()),
{
    ApplicantSubmission {
        full_name: payload.full_name,
        nik: unwrap_or_default(payload.nik),
        birth_date: unwrap_or_default(payload.birth_date),
        address: unwrap_or_default(payload.address),
        phone: payload.phone,
        email: unwrap_or_default(payload.email),
        pin: match payload.pin {
            Some(pin) => pin,
            None => text("123456"),
        },
    }
}

/// Starts the creation of a session for the user that the body names.
pub fn create_session(service: &EkycService, payload: CreateSessionRequest) -> (step: Step)
    ensures
        step.deep_view() == crate::service::create_session_start(payload.user_id.deep_view()),
{
    service.create_session(payload.user_id)
}

/// Starts the fetch of a session.
pub fn get_session(service: &EkycService, session_id: &str) -> (step: Step)
    ensures
        step.deep_view() == crate::service::get_session_start(session_id@),
{
    service.get_session(session_id)
}

/// Starts the upload of the ID card in a multipart form. A form without a
/// readable file is rejected before any call is made.
pub fn upload_id_card(service: &EkycService, session_id: &str, parts: Vec<FormPart>) -> (step: Step)
    ensures
        step.deep_view() == match first_file(parts.deep_view()) {
            Ok(file) => upload_id_card_start(session_id@, file),
            Err(e) => crate::service::failed(e),
        },
{
    match read_file(parts) {
        Ok(file) => service.upload_id_card(session_id, file),
        Err(e) => Step::Finished { result: Err(e), warning: None },
    }
}

/// Starts the upload of the selfie in a multipart form. A form without a
/// readable file is rejected before any call is made.
pub fn upload_selfie(service: &EkycService, session_id: &str, parts: Vec<FormPart>) -> (step: Step)
    ensures
        step.deep_view() == match first_file(parts.deep_view()) {
            Ok(file) => upload_selfie_start(session_id@, file),
            Err(e) => crate::service::failed(e),
        },
{
    match read_file(parts) {
        Ok(file) => service.upload_selfie(session_id, file),
        Err(e) => Step::Finished { result: Err(e), warning: None },
    }
}

/// Starts the liveness check with the frames of a JSON body. A frame that
/// does not decode is rejected before any call is made.
pub fn start_liveness(service: &EkycService, session_id: &str, payload: StartLivenessRequest) -> (step:
    Step)
    ensures
        step.deep_view() == match decoded_frames(payload.frames.deep_view()) {
            Ok(frames) => start_liveness_start(session_id@, frames, payload.gestures.deep_view()),
            Err(e) => crate::service::failed(e),
        },
{
    match decode_frames(payload.frames) {
        Ok(frames) => service.start_liveness(session_id, frames, payload.gestures),
        Err(e) => Step::Finished { result: Err(e), warning: None },
    }
}

/// Starts the submission of the applicant in a JSON body.
pub fn submit_applicant(service: &EkycService, session_id: &str, payload: ApplicantRequest) -> (step:
    Step)
    ensures
        step.deep_view() == submit_applicant_start(session_id@, applicant_of(payload.deep_view())),
{
    service.submit_applicant(session_id, applicant_submission(payload))
}

} // verus!
