//! Request-scoped values of the verification workflow.

use vstd::prelude::*;

verus! {

/// Raw image bytes with the MIME type they were sent under, if any.
#[derive(Clone, Debug)]
pub struct BinaryImage {
    pub content: Vec<u8>,
    pub mime_type: Option<String>,
}

/// Mathematical model of a [`BinaryImage`].
pub struct BinaryImageView {
    pub content: Seq<u8>,
    pub mime_type: Option<Seq<char>>,
}

impl DeepView for BinaryImage {
    type V = BinaryImageView;

    open spec fn deep_view(&self) -> BinaryImageView {
        BinaryImageView { content: self.content@, mime_type: self.mime_type.deep_view() }
    }
}

/// Reference to a unit of work that the AI backend has queued. The gateway
/// neither polls nor awaits it.
#[derive(Debug)]
pub struct AsyncJobHandle {
    pub job_id: String,
    pub queue: String,
}

/// Mathematical model of an [`AsyncJobHandle`].
pub struct AsyncJobHandleView {
    pub job_id: Seq<char>,
    pub queue: Seq<char>,
}

impl DeepView for AsyncJobHandle {
    type V = AsyncJobHandleView;

    open spec fn deep_view(&self) -> AsyncJobHandleView {
        AsyncJobHandleView { job_id: self.job_id@, queue: self.queue@ }
    }
}

/// A similarity cutoff between zero and one, held as the bit pattern of the
/// binary64 number so that it reaches the AI backend exactly as configured.
/// Nothing in this crate computes with it.
#[derive(Clone, Copy, Debug, PartialEq, Eq, Structural)]
pub struct Similarity {
    pub bits: u64,
}

/// What a face-match job needs: the two images to compare and the cutoff.
#[derive(Debug)]
pub struct StartFaceMatchJobPayload {
    pub session_id: String,
    pub ktp_image: BinaryImage,
    pub selfie_image: BinaryImage,
    pub face_match_threshold: Similarity,
}

/// Mathematical model of a [`StartFaceMatchJobPayload`].
pub struct StartFaceMatchJobPayloadView {
    pub session_id: Seq<char>,
    pub ktp_image: BinaryImageView,
    pub selfie_image: BinaryImageView,
    pub face_match_threshold: Similarity,
}

impl DeepView for StartFaceMatchJobPayload {
    type V = StartFaceMatchJobPayloadView;

    open spec fn deep_view(&self) -> StartFaceMatchJobPayloadView {
        StartFaceMatchJobPayloadView {
            session_id: self.session_id@,
            ktp_image: self.ktp_image.deep_view(),
            selfie_image: self.selfie_image.deep_view(),
            face_match_threshold: self.face_match_threshold,
        }
    }
}

/// What a liveness job needs: the recorded frames and the gestures asked for.
#[derive(Debug)]
pub struct StartLivenessJobPayload {
    pub session_id: String,
    pub liveness_frames: Vec<BinaryImage>,
    pub gestures: Vec<String>,
}

/// Mathematical model of a [`StartLivenessJobPayload`].
pub struct StartLivenessJobPayloadView {
    pub session_id: Seq<char>,
    pub liveness_frames: Seq<BinaryImageView>,
    pub gestures: Seq<Seq<char>>,
}

impl DeepView for StartLivenessJobPayload {
    type V = StartLivenessJobPayloadView;

    open spec fn deep_view(&self) -> StartLivenessJobPayloadView {
        StartLivenessJobPayloadView {
            session_id: self.session_id@,
            liveness_frames: self.liveness_frames.deep_view(),
            gestures: self.gestures.deep_view(),
        }
    }
}

} // verus!
