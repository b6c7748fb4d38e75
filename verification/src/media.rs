//! Client of the blob-storage service.
//!
//! Objects are stored and fetched whole. The client describes the call to
//! make and reads the answer; the transport is the caller's.

use vstd::prelude::*;
use crate::error::{AppError, AppErrorView, AppResult};
use crate::text::{concat, text, trim_end_matches, without_trailing};

verus! {

/// Answer of the blob store to an upload: where the object now lives.
#[derive(Debug)]
pub struct MediaUploadResponse {
    pub url: String,
}

/// Mathematical model of a [`MediaUploadResponse`].
pub struct MediaUploadResponseView {
    pub url: Seq<char>,
}

impl DeepView for MediaUploadResponse {
    type V = MediaUploadResponseView;

    open spec fn deep_view(&self) -> MediaUploadResponseView {
        MediaUploadResponseView {
            url: self.url@,
        }
    }
}

/// An upload to make: one multipart form with a single part.
#[derive(Debug)]
pub struct UploadCall {
    /// Absolute URL to post the form to.
    pub url: String,
    /// Name of the form part.
    pub field_name: String,
    /// Content of the part, whole.
    pub bytes: Vec<u8>,
    /// File name of the part, if any.
    pub filename: Option<String>,
    /// MIME type of the part, if any.
    pub mime: Option<String>,
}

/// Mathematical model of an [`UploadCall`].
pub struct UploadCallView {
    pub url: Seq<char>,
    pub field_name: Seq<char>,
    pub bytes: Seq<u8>,
    pub filename: Option<Seq<char>>,
    pub mime: Option<Seq<char>>,
}

impl DeepView for UploadCall {
    type V = UploadCallView;

    open spec fn deep_view(&self) -> UploadCallView {
        UploadCallView {
            url: self.url@,
            field_name: self.field_name@,
            bytes: self.bytes@,
            filename: self.filename.deep_view(),
            mime: self.mime.deep_view(),
        }
    }
}

/// A download to make: one `GET` of an absolute URL.
#[derive(Debug)]
pub struct DownloadCall {
    pub url: String,
}

/// Mathematical model of a [`DownloadCall`].
pub struct DownloadCallView {
    pub url: Seq<char>,
}

impl DeepView for DownloadCall {
    type V = DownloadCallView;

    open spec fn deep_view(&self) -> DownloadCallView {
        DownloadCallView {
            url: self.url@,
        }
    }
}
/// The body of an answer to an upload, read the way its status asks for.
#[derive(Debug)]
pub enum MediaPayload {
    /// The body of a success answer, decoded.
    Decoded(MediaUploadResponse),
    /// The body of a success answer that could not be decoded, with the
    /// decoder's complaint.
    Undecodable(String),
    /// The body of a failure answer as text, if it could be read.
    Failure(Option<String>),
}

/// An answer to an upload.
#[derive(Debug)]
pub struct MediaResponse {
    pub status: u16,
    pub payload: MediaPayload,
}

/// An answer to a download.
#[derive(Debug)]
pub struct DownloadResponse {
    pub status: u16,
    pub body: Vec<u8>,
}

/// The cause that stands in where a failure answer gives none.
pub open spec fn media_fallback() -> Seq<char> {
    "media service error"@
}

/// Statuses that stand for success: 200 to 299.
pub open spec fn media_success(status: u16) -> bool {
    200 <= status <= 299
}

/// What the client returns for each outcome of an upload. `Err` on the way
/// in is a transport failure and carries its cause. Every failure is
/// internal.
pub open spec fn upload_result(outcome: Result<MediaResponse, String>) -> Result<
    MediaUploadResponseView,
    AppErrorView,
> {
    match outcome {
        Err(cause) => Err(AppErrorView::Internal(cause@)),
        Ok(response) => if media_success(response.status) {
            match response.payload {
                MediaPayload::Decoded(stored) => Ok(stored.deep_view()),
                MediaPayload::Undecodable(cause) => Err(AppErrorView::Internal(cause@)),
                MediaPayload::Failure(_) => Err(AppErrorView::Internal(media_fallback())),
            }
        } else {
            match response.payload {
                MediaPayload::Failure(Some(said)) => Err(AppErrorView::Internal(said@)),
                _ => Err(AppErrorView::Internal(media_fallback())),
            }
        },
    }
}

/// What the client returns for each outcome of a download: the bytes of a
/// success answer, an internal error for anything else.
pub open spec fn download_result(outcome: Result<DownloadResponse, String>) -> Result<
    Seq<u8>,
    AppErrorView,
> {
    match outcome {
        Err(cause) => Err(AppErrorView::Internal(cause@)),
        Ok(response) => if media_success(response.status) {
            Ok(response.body@)
        } else {
            Err(AppErrorView::Internal(media_fallback()))
        },
    }
}

/// Drops the slashes at the end of a base URL.
pub fn normalize(base: &str) -> (r: String)
    ensures
        r@ == without_trailing(base@, '/'),
{
    trim_end_matches(base, '/')
}

/// The client: nothing but the base URL of the service.
#[derive(Debug)]
pub struct MediaClient {
    base_url: String,
}

impl MediaClient {
    /// The base URL that uploads go to.
    pub closed spec fn base(&self) -> Seq<char> {
        self.base_url@
    }

    /// A client for the service at `base_url`.
    pub fn new(base_url: &str) -> (r: AppResult<Self>)
        ensures
            r matches Ok(client) && client.base() == without_trailing(base_url@, '/'),
    {
        Ok(MediaClient { base_url: normalize(base_url) })
    }

    /// The base URL.
    pub fn base_url(&self) -> (url: &str)
        ensures
            url@ == self.base(),
    {
        self.base_url.as_str()
    }

    /// Tells how the body of an answer is to be read.
    pub fn is_success(status: u16) -> (b: bool)
        ensures
            b == media_success(status),
    {
        200 <= status && status <= 299
    }

    /// The upload of `bytes` as the form part `field_name`.
    pub fn upload(
        &self,
        field_name: &str,
        bytes: Vec<u8>,
        filename: Option<String>,
        mime: Option<String>,
    ) -> (call: UploadCall)
        ensures
            call.deep_view() == (UploadCallView {
                url: self.base() + "/media"@,
                field_name: field_name@,
                bytes: bytes@,
                filename: filename.deep_view(),
                mime: mime.deep_view(),
            }),
    {
        UploadCall {
            url: concat(self.base_url.as_str(), "/media"),
            field_name: text(field_name),
            bytes,
            filename,
            mime,
        }
    }

    /// The download of the object at `url`.
    pub fn download_bytes(&self, url: &str) -> (call: DownloadCall)
        ensures
            call.url@ == url@,
    {
        DownloadCall { url: text(url) }
    }

    /// Turns the outcome of an upload into the client's result.
    pub fn send_json(outcome: Result<MediaResponse, String>) -> (r: AppResult<MediaUploadResponse>)
        ensures
            crate::error::outcome_view(r) == upload_result(outcome),
    {
        match outcome {
            Err(cause) => Err(AppError::Internal(cause)),
            Ok(response) => {
                if Self::is_success(response.status) {
                    match response.payload {
                        MediaPayload::Decoded(stored) => Ok(stored),
                        MediaPayload::Undecodable(cause) => Err(AppError::Internal(cause)),
                        MediaPayload::Failure(_) => Err(
                            AppError::Internal(text("media service error")),
                        ),
                    }
                } else {
                    match response.payload {
                        MediaPayload::Failure(Some(said)) => Err(AppError::Internal(said)),
                        _ => Err(AppError::Internal(text("media service error"))),
                    }
                }
            },
        }
    }

    /// Turns the outcome of a download into the client's result.
    pub fn read_download(outcome: Result<DownloadResponse, String>) -> (r: AppResult<Vec<u8>>)
        ensures
            match r {
                Ok(bytes) => download_result(outcome) == Ok::<Seq<u8>, AppErrorView>(bytes@),
                Err(e) => download_result(outcome) == Err::<Seq<u8>, AppErrorView>(e.deep_view()),
            },
    {
        match outcome {
            Err(cause) => Err(AppError::Internal(cause)),
            Ok(response) => {
                if Self::is_success(response.status) {
                    Ok(response.body)
                } else {
                    Err(AppError::Internal(text("media service error")))
                }
            },
        }
    }
}

} // verus!
