//! Messages of the AI-processing service's RPC surface, as plain values.
//!
//! Text fields that the wire leaves out arrive as the empty string, and a
//! missing sub-message as `None`.

use vstd::prelude::*;
use crate::entities::Similarity;

verus! {

/// An image on the wire: raw bytes and a MIME type, empty when unknown.
#[derive(Debug)]
pub struct ImagePayload {
    pub content: Vec<u8>,
    pub mime_type: String,
}

/// Mathematical model of an [`ImagePayload`].
pub struct ImagePayloadView {
    pub content: Seq<u8>,
    pub mime_type: Seq<char>,
}

impl DeepView for ImagePayload {
    type V = ImagePayloadView;

    open spec fn deep_view(&self) -> ImagePayloadView {
        ImagePayloadView { content: self.content@, mime_type: self.mime_type@ }
    }
}

/// Handle of a queued face-match job.
#[derive(Debug)]
pub struct FaceMatchJobHandle {
    pub job_id: String,
    pub queue: String,
}

/// Handle of a queued liveness job.
#[derive(Debug)]
pub struct LivenessJobHandle {
    pub job_id: String,
    pub queue: String,
}

/// Request of `StartFaceMatchJob`.
#[derive(Debug)]
pub struct StartFaceMatchRequest {
    pub session_id: String,
    pub ktp_image: Option<ImagePayload>,
    pub selfie_image: Option<ImagePayload>,
    pub face_match_threshold: Similarity,
}

/// Mathematical model of a [`StartFaceMatchRequest`].
pub struct StartFaceMatchRequestView {
    pub session_id: Seq<char>,
    pub ktp_image: Option<ImagePayloadView>,
    pub selfie_image: Option<ImagePayloadView>,
    pub face_match_threshold: Similarity,
}

impl DeepView for StartFaceMatchRequest {
    type V = StartFaceMatchRequestView;

    open spec fn deep_view(&self) -> StartFaceMatchRequestView {
        StartFaceMatchRequestView {
            session_id: self.session_id@,
            ktp_image: self.ktp_image.deep_view(),
            selfie_image: self.selfie_image.deep_view(),
            face_match_threshold: self.face_match_threshold,
        }
    }
}

/// Response of `StartFaceMatchJob`.
#[derive(Debug)]
pub struct StartFaceMatchResponse {
    pub job: Option<FaceMatchJobHandle>,
}

/// Request of `StartLivenessJob`.
#[derive(Debug)]
pub struct StartLivenessRequest {
    pub session_id: String,
    pub liveness_frames: Vec<ImagePayload>,
    pub gestures: Vec<String>,
}

/// Mathematical model of a [`StartLivenessRequest`].
pub struct StartLivenessRequestView {
    pub session_id: Seq<char>,
    pub liveness_frames: Seq<ImagePayloadView>,
    pub gestures: Seq<Seq<char>>,
}

impl DeepView for StartLivenessRequest {
    type V = StartLivenessRequestView;

    open spec fn deep_view(&self) -> StartLivenessRequestView {
        StartLivenessRequestView {
            session_id: self.session_id@,
            liveness_frames: self.liveness_frames.deep_view(),
            gestures: self.gestures.deep_view(),
        }
    }
}

/// Response of `StartLivenessJob`.
#[derive(Debug)]
pub struct StartLivenessResponse {
    pub job: Option<LivenessJobHandle>,
}

/// One recognised field that has no slot of its own in [`KtpOcrResult`].
#[derive(Debug)]
pub struct ExtraField {
    pub key: String,
    pub value: String,
}

/// What the OCR of an identity card found. A field that was not found is
/// the empty string.
#[derive(Debug)]
pub struct KtpOcrResult {
    pub nik: String,
    pub name: String,
    pub birth_place: String,
    pub birth_date: String,
    pub gender: String,
    pub blood_type: String,
    pub address: String,
    pub rt_rw: String,
    pub village: String,
    pub sub_district: String,
    pub religion: String,
    pub marital_status: String,
    pub occupation: String,
    pub citizenship: String,
    pub issue_date: String,
    pub raw_text: String,
    pub extra_fields: Vec<ExtraField>,
}

/// Request of `PerformKtpOcr`.
#[derive(Debug)]
pub struct PerformKtpOcrRequest {
    pub image: Option<ImagePayload>,
    pub locale: String,
}

/// Mathematical model of a [`PerformKtpOcrRequest`].
pub struct PerformKtpOcrRequestView {
    pub image: Option<ImagePayloadView>,
    pub locale: Seq<char>,
}

impl DeepView for PerformKtpOcrRequest {
    type V = PerformKtpOcrRequestView;

    open spec fn deep_view(&self) -> PerformKtpOcrRequestView {
        PerformKtpOcrRequestView { image: self.image.deep_view(), locale: self.locale@ }
    }
}

/// Response of `PerformKtpOcr`.
#[derive(Debug)]
pub struct PerformKtpOcrResponse {
    pub result: Option<KtpOcrResult>,
}

} // verus!
