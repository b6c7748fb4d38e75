//! Adapter of the AI-processing service.
//!
//! Each operation is one RPC: no retry, no caching. The adapter builds the
//! request message and reads the answer; a failure of the call surfaces at
//! once through [`map_status`]. Nothing is validated or clamped here.

use vstd::prelude::*;
use crate::entities::{
    AsyncJobHandle, AsyncJobHandleView, BinaryImage, BinaryImageView, StartFaceMatchJobPayload,
    StartFaceMatchJobPayloadView, StartLivenessJobPayload, StartLivenessJobPayloadView,
};
use crate::error::{outcome_view, AppError, AppErrorView, AppResult};
use crate::ocr::{from_proto_result, ocr_data, KtpOcrResultData};
use crate::pb::{
    FaceMatchJobHandle, ImagePayload, ImagePayloadView, LivenessJobHandle, PerformKtpOcrRequest,
    PerformKtpOcrRequestView, PerformKtpOcrResponse, StartFaceMatchRequest,
    StartFaceMatchRequestView, StartFaceMatchResponse, StartLivenessRequest,
    StartLivenessRequestView, StartLivenessResponse,
};
use crate::text::{concat, has_prefix, starts_with, text};

verus! {

/// The RPC status code for an argument that the service refuses.
pub const INVALID_ARGUMENT: i32 = 3;

/// The status that an RPC failed with.
#[derive(Debug)]
pub struct RpcStatus {
    /// The numeric status code.
    pub code: i32,
    /// The message that the service sent.
    pub message: String,
    /// The whole status as the transport prints it, for the log.
    pub rendered: String,
}

/// An address with a scheme in front: `target` itself where it begins
/// with one.
pub open spec fn normalized_target(target: Seq<char>) -> Seq<char> {
    if has_prefix(target, "http://"@) || has_prefix(target, "https://"@) {
        target
    } else {
        "http://"@ + target
    }
}

/// The error for a failed RPC: the service's own message for a refused
/// argument, an internal error that keeps the status for the log for
/// anything else.
pub open spec fn status_error(code: i32, message: Seq<char>, rendered: Seq<char>) -> AppErrorView {
    if code == INVALID_ARGUMENT {
        AppErrorView::BadRequest(message)
    } else {
        AppErrorView::Internal("ai support gRPC error: "@ + rendered)
    }
}

/// An image as it goes on the wire: the same bytes, and the empty text
/// for an unknown MIME type.
pub open spec fn proto_image(image: BinaryImageView) -> ImagePayloadView {
    ImagePayloadView {
        content: image.content,
        mime_type: match image.mime_type {
            Some(m) => m,
            None => Seq::empty(),
        },
    }
}

/// The request that queues a face match. The cutoff goes out as it came.
pub open spec fn face_match_request(payload: StartFaceMatchJobPayloadView)
    -> StartFaceMatchRequestView {
    StartFaceMatchRequestView {
        session_id: payload.session_id,
        ktp_image: Some(proto_image(payload.ktp_image)),
        selfie_image: Some(proto_image(payload.selfie_image)),
        face_match_threshold: payload.face_match_threshold,
    }
}

/// The request that queues a liveness check: every frame, in order.
pub open spec fn liveness_request(payload: StartLivenessJobPayloadView) -> StartLivenessRequestView {
    StartLivenessRequestView {
        session_id: payload.session_id,
        liveness_frames: Seq::new(
            payload.liveness_frames.len(),
            |i: int| proto_image(payload.liveness_frames[i]),
        ),
        gestures: payload.gestures,
    }
}

/// The request that reads an identity card. An absent locale goes out as
/// the empty text.
pub open spec fn ocr_request(image: BinaryImageView, locale: Option<Seq<char>>)
    -> PerformKtpOcrRequestView {
    PerformKtpOcrRequestView {
        image: Some(proto_image(image)),
        locale: match locale {
            Some(l) => l,
            None => Seq::empty(),
        },
    }
}

/// The handle that an answer without a handle reads as: both texts empty.
pub open spec fn empty_handle() -> AsyncJobHandleView {
    AsyncJobHandleView { job_id: Seq::empty(), queue: Seq::empty() }
}

/// Puts a scheme in front of an address that has none.
pub fn normalize_target(target: &str) -> (r: AppResult<String>)
    ensures
        r matches Ok(url) && url@ == normalized_target(target@),
{
    if starts_with(target, "http://") || starts_with(target, "https://") {
        return Ok(text(target));
    }
    Ok(concat("http://", target))
}

/// Reads the status of a failed RPC as an error.
pub fn map_status(status: RpcStatus) -> (e: AppError)
    ensures
        e.deep_view() == status_error(status.code, status.message@, status.rendered@),
{
    if status.code == INVALID_ARGUMENT {
        AppError::BadRequest(status.message)
    } else {
        AppError::Internal(concat("ai support gRPC error: ", status.rendered.as_str()))
    }
}

/// Reads the handle of a queued face match.
pub fn map_face_job(job: FaceMatchJobHandle) -> (handle: AsyncJobHandle)
    ensures
        handle.deep_view() == (AsyncJobHandleView { job_id: job.job_id@, queue: job.queue@ }),
{
    AsyncJobHandle { job_id: job.job_id, queue: job.queue }
}

/// Reads the handle of a queued liveness check.
pub fn map_liveness_job(job: LivenessJobHandle) -> (handle: AsyncJobHandle)
    ensures
        handle.deep_view() == (AsyncJobHandleView { job_id: job.job_id@, queue: job.queue@ }),
{
    AsyncJobHandle { job_id: job.job_id, queue: job.queue }
}

/// Puts an image on the wire.
pub fn to_proto_image(image: BinaryImage) -> (payload: ImagePayload)
    ensures
        payload.deep_view() == proto_image(image.deep_view()),
{
    ImagePayload {
        content: image.content,
        mime_type: match image.mime_type {
            Some(m) => m,
            None => String::new(),
        },
    }
}

/// Puts a list of images on the wire, in order.
fn to_proto_images(images: Vec<BinaryImage>) -> (payloads: Vec<ImagePayload>)
    ensures
        payloads.deep_view() == Seq::new(
            images.deep_view().len(),
            |i: int| proto_image(images.deep_view()[i]),
        ),
{
    let ghost all = images@;
    let ghost model = images.deep_view();
    let mut payloads: Vec<ImagePayload> = Vec::new();
    for image in it: images
        invariant
            it.seq() == all,
            model.len() == all.len(),
            forall|j: int| 0 <= j < all.len() ==> model[j] == (#[trigger] all[j]).deep_view(),
            payloads@.len() == it.index(),
            forall|j: int|
                0 <= j < it.index() ==> (#[trigger] payloads@[j]).deep_view() == proto_image(
                    model[j],
                ),
    {
        payloads.push(to_proto_image(image));
    }
    assert(payloads.deep_view() =~= Seq::new(model.len(), |i: int| proto_image(model[i])));
    payloads
}

/// The adapter: nothing but the address of the service.
#[derive(Clone, Debug)]
pub struct AiSupportClient {
    target: String,
}

impl AiSupportClient {
    /// The address that calls go to.
    pub closed spec fn address(&self) -> Seq<char> {
        self.target@
    }

    /// An adapter for the service at `target`.
    pub fn new(target: &str) -> (r: AppResult<Self>)
        ensures
            r matches Ok(client) && client.address() == normalized_target(target@),
    {
        match normalize_target(target) {
            Ok(normalized) => Ok(AiSupportClient { target: normalized }),
            Err(e) => Err(e),
        }
    }

    /// The address.
    pub fn target(&self) -> (url: &str)
        ensures
            url@ == self.address(),
    {
        self.target.as_str()
    }

    /// The request that queues a face match.
    pub fn start_face_match_job(&self, payload: StartFaceMatchJobPayload) -> (request:
        StartFaceMatchRequest)
        ensures
            request.deep_view() == face_match_request(payload.deep_view()),
    {
        StartFaceMatchRequest {
            session_id: payload.session_id,
            ktp_image: Some(to_proto_image(payload.ktp_image)),
            selfie_image: Some(to_proto_image(payload.selfie_image)),
            face_match_threshold: payload.face_match_threshold,
        }
    }

    /// The request that queues a liveness check. An empty list of frames
    /// goes out as it is: whoever calls has checked it.
    pub fn start_liveness_job(&self, payload: StartLivenessJobPayload) -> (request:
        StartLivenessRequest)
        ensures
            request.deep_view() == liveness_request(payload.deep_view()),
    {
        StartLivenessRequest {
            session_id: payload.session_id,
            liveness_frames: to_proto_images(payload.liveness_frames),
            gestures: payload.gestures,
        }
    }

    /// The request that reads an identity card.
    pub fn perform_ocr(&self, image: BinaryImage, locale: Option<String>) -> (request:
        PerformKtpOcrRequest)
        ensures
            request.deep_view() == ocr_request(image.deep_view(), locale.deep_view()),
    {
        PerformKtpOcrRequest {
            image: Some(to_proto_image(image)),
            locale: match locale {
                Some(l) => l,
                None => String::new(),
            },
        }
    }

    /// Reads the outcome of a face-match request.
    pub fn face_match_job_started(outcome: Result<StartFaceMatchResponse, RpcStatus>) -> (r:
        AppResult<AsyncJobHandle>)
        ensures
            outcome_view(r) == match outcome {
                Ok(response) => Ok(
                    match response.job {
                        Some(job) => AsyncJobHandleView { job_id: job.job_id@, queue: job.queue@ },
                        None => empty_handle(),
                    },
                ),
                Err(status) => Err(status_error(status.code, status.message@, status.rendered@)),
            },
    {
        match outcome {
            Ok(response) => Ok(
                match response.job {
                    Some(job) => map_face_job(job),
                    None => AsyncJobHandle { job_id: String::new(), queue: String::new() },
                },
            ),
            Err(status) => Err(map_status(status)),
        }
    }

    /// Reads the outcome of a liveness request.
    pub fn liveness_job_started(outcome: Result<StartLivenessResponse, RpcStatus>) -> (r: AppResult<
        AsyncJobHandle,
    >)
        ensures
            outcome_view(r) == match outcome {
                Ok(response) => Ok(
                    match response.job {
                        Some(job) => AsyncJobHandleView { job_id: job.job_id@, queue: job.queue@ },
                        None => empty_handle(),
                    },
                ),
                Err(status) => Err(status_error(status.code, status.message@, status.rendered@)),
            },
    {
        match outcome {
            Ok(response) => Ok(
                match response.job {
                    Some(job) => map_liveness_job(job),
                    None => AsyncJobHandle { job_id: String::new(), queue: String::new() },
                },
            ),
            Err(status) => Err(map_status(status)),
        }
    }

    /// Reads the outcome of an OCR request.
    pub fn ocr_performed(outcome: Result<PerformKtpOcrResponse, RpcStatus>) -> (r: AppResult<
        KtpOcrResultData,
    >)
        ensures
            outcome_view(r) == match outcome {
                Ok(response) => Ok(ocr_data(response.result)),
                Err(status) => Err(status_error(status.code, status.message@, status.rendered@)),
            },
            r matches Ok(data) ==> data.extra_fields.wf(),
    {
        match outcome {
            Ok(response) => Ok(from_proto_result(response.result)),
            Err(status) => Err(map_status(status)),
        }
    }
}

} // verus!
