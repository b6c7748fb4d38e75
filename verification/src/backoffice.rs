//! Client of the session-of-record service.
//!
//! The service is the only owner of session state. Each operation of the
//! client is described here as the REST call to make, and the reading of
//! the answer as a function of the status and the decoded body, so that
//! nothing but the transport itself is left to the caller.

use vstd::prelude::*;
use crate::entities::Similarity;
use crate::error::{AppError, AppErrorView, AppResult};
use crate::proxy::{forward_request, upstream_request, ProxyRequest, UpstreamRequest};
use crate::text::{
    concat, has_prefix, starts_with, str_eq, text, trim_end_matches, without_trailing,
};

verus! {

/// One face comparison recorded for a session. The two scores are carried
/// as bit patterns and the metadata as JSON text; the gateway reads neither.
#[derive(Debug)]
pub struct FaceCheckDto {
    pub id: String,
    pub ekyc_session_id: String,
    pub step: String,
    pub similarity_score: Option<Similarity>,
    pub threshold: Option<Similarity>,
    pub result: String,
    pub raw_metadata: String,
    pub created_at: String,
}

/// Mathematical model of a [`FaceCheckDto`].
pub struct FaceCheckDtoView {
    pub id: Seq<char>,
    pub ekyc_session_id: Seq<char>,
    pub step: Seq<char>,
    pub similarity_score: Option<Similarity>,
    pub threshold: Option<Similarity>,
    pub result: Seq<char>,
    pub raw_metadata: Seq<char>,
    pub created_at: Seq<char>,
}

impl DeepView for FaceCheckDto {
    type V = FaceCheckDtoView;

    open spec fn deep_view(&self) -> FaceCheckDtoView {
        FaceCheckDtoView {
            id: self.id@,
            ekyc_session_id: self.ekyc_session_id@,
            step: self.step@,
            similarity_score: self.similarity_score,
            threshold: self.threshold,
            result: self.result@,
            raw_metadata: self.raw_metadata@,
            created_at: self.created_at@,
        }
    }
}

/// The liveness check recorded for a session. Results per gesture and the
/// metadata are carried as JSON text.
#[derive(Debug)]
pub struct LivenessCheckDto {
    pub id: String,
    pub ekyc_session_id: String,
    pub overall_result: String,
    pub per_gesture_result: String,
    pub recorded_video_url: Option<String>,
    pub raw_metadata: String,
    pub created_at: String,
}

/// Mathematical model of a [`LivenessCheckDto`].
pub struct LivenessCheckDtoView {
    pub id: Seq<char>,
    pub ekyc_session_id: Seq<char>,
    pub overall_result: Seq<char>,
    pub per_gesture_result: Seq<char>,
    pub recorded_video_url: Option<Seq<char>>,
    pub raw_metadata: Seq<char>,
    pub created_at: Seq<char>,
}

impl DeepView for LivenessCheckDto {
    type V = LivenessCheckDtoView;

    open spec fn deep_view(&self) -> LivenessCheckDtoView {
        LivenessCheckDtoView {
            id: self.id@,
            ekyc_session_id: self.ekyc_session_id@,
            overall_result: self.overall_result@,
            per_gesture_result: self.per_gesture_result@,
            recorded_video_url: self.recorded_video_url.deep_view(),
            raw_metadata: self.raw_metadata@,
            created_at: self.created_at@,
        }
    }
}

/// A verification session as the session-of-record service reports it. The
/// gateway keeps no copy between requests: it reads `id`,
/// `face_matching_status` and `id_card_url`, and hands everything back as it
/// came. `metadata` is JSON text.
#[derive(Debug)]
pub struct EkycSessionDto {
    pub id: String,
    pub user_id: Option<String>,
    pub status: String,
    pub face_matching_status: String,
    pub liveness_status: String,
    pub final_decision: String,
    pub id_card_url: Option<String>,
    pub selfie_with_id_url: Option<String>,
    pub recorded_video_url: Option<String>,
    pub face_match_overall: Option<String>,
    pub liveness_overall: Option<String>,
    pub rejection_reason: Option<String>,
    pub metadata: String,
    pub created_at: String,
    pub updated_at: String,
    pub face_checks: Vec<FaceCheckDto>,
    pub liveness_check: Option<LivenessCheckDto>,
}

/// Mathematical model of an [`EkycSessionDto`].
pub struct EkycSessionDtoView {
    pub id: Seq<char>,
    pub user_id: Option<Seq<char>>,
    pub status: Seq<char>,
    pub face_matching_status: Seq<char>,
    pub liveness_status: Seq<char>,
    pub final_decision: Seq<char>,
    pub id_card_url: Option<Seq<char>>,
    pub selfie_with_id_url: Option<Seq<char>>,
    pub recorded_video_url: Option<Seq<char>>,
    pub face_match_overall: Option<Seq<char>>,
    pub liveness_overall: Option<Seq<char>>,
    pub rejection_reason: Option<Seq<char>>,
    pub metadata: Seq<char>,
    pub created_at: Seq<char>,
    pub updated_at: Seq<char>,
    pub face_checks: Seq<FaceCheckDtoView>,
    pub liveness_check: Option<LivenessCheckDtoView>,
}

impl DeepView for EkycSessionDto {
    type V = EkycSessionDtoView;

    open spec fn deep_view(&self) -> EkycSessionDtoView {
        EkycSessionDtoView {
            id: self.id@,
            user_id: self.user_id.deep_view(),
            status: self.status@,
            face_matching_status: self.face_matching_status@,
            liveness_status: self.liveness_status@,
            final_decision: self.final_decision@,
            id_card_url: self.id_card_url.deep_view(),
            selfie_with_id_url: self.selfie_with_id_url.deep_view(),
            recorded_video_url: self.recorded_video_url.deep_view(),
            face_match_overall: self.face_match_overall.deep_view(),
            liveness_overall: self.liveness_overall.deep_view(),
            rejection_reason: self.rejection_reason.deep_view(),
            metadata: self.metadata@,
            created_at: self.created_at@,
            updated_at: self.updated_at@,
            face_checks: self.face_checks.deep_view(),
            liveness_check: self.liveness_check.deep_view(),
        }
    }
}

/// Body of the call that creates a session. An absent user id is left out
/// of the body.
#[derive(Debug)]
pub struct CreateSessionRequest {
    pub user_id: Option<String>,
}

/// Mathematical model of a [`CreateSessionRequest`].
pub struct CreateSessionRequestView {
    pub user_id: Option<Seq<char>>,
}

impl DeepView for CreateSessionRequest {
    type V = CreateSessionRequestView;

    open spec fn deep_view(&self) -> CreateSessionRequestView {
        CreateSessionRequestView {
            user_id: self.user_id.deep_view(),
        }
    }
}

/// Body of the call that submits the applicant of a session.
#[derive(Debug)]
pub struct ApplicantSubmissionRequest {
    pub full_name: String,
    pub nik: String,
    pub birth_date: String,
    pub address: String,
    pub phone: String,
    pub email: String,
    pub pin: String,
}

/// Mathematical model of an [`ApplicantSubmissionRequest`].
pub struct ApplicantSubmissionRequestView {
    pub full_name: Seq<char>,
    pub nik: Seq<char>,
    pub birth_date: Seq<char>,
    pub address: Seq<char>,
    pub phone: Seq<char>,
    pub email: Seq<char>,
    pub pin: Seq<char>,
}

impl DeepView for ApplicantSubmissionRequest {
    type V = ApplicantSubmissionRequestView;

    open spec fn deep_view(&self) -> ApplicantSubmissionRequestView {
        ApplicantSubmissionRequestView {
            full_name: self.full_name@,
            nik: self.nik@,
            birth_date: self.birth_date@,
            address: self.address@,
            phone: self.phone@,
            email: self.email@,
            pin: self.pin@,
        }
    }
}

/// A sparse patch. Only the fields that are set are applied downstream; a
/// field set to the empty string is not the same as a field left unset.
#[derive(Debug)]
pub struct UpdateSessionPatch {
    pub id_card_url: Option<String>,
    pub selfie_with_id_url: Option<String>,
    pub recorded_video_url: Option<String>,
    pub status: Option<String>,
    pub face_matching_status: Option<String>,
    pub liveness_status: Option<String>,
}

/// Mathematical model of an [`UpdateSessionPatch`].
pub struct UpdateSessionPatchView {
    pub id_card_url: Option<Seq<char>>,
    pub selfie_with_id_url: Option<Seq<char>>,
    pub recorded_video_url: Option<Seq<char>>,
    pub status: Option<Seq<char>>,
    pub face_matching_status: Option<Seq<char>>,
    pub liveness_status: Option<Seq<char>>,
}

impl DeepView for UpdateSessionPatch {
    type V = UpdateSessionPatchView;

    open spec fn deep_view(&self) -> UpdateSessionPatchView {
        UpdateSessionPatchView {
            id_card_url: self.id_card_url.deep_view(),
            selfie_with_id_url: self.selfie_with_id_url.deep_view(),
            recorded_video_url: self.recorded_video_url.deep_view(),
            status: self.status.deep_view(),
            face_matching_status: self.face_matching_status.deep_view(),
            liveness_status: self.liveness_status.deep_view(),
        }
    }
}
impl UpdateSessionPatch {
    /// The patch that sets nothing.
    pub fn empty() -> (patch: UpdateSessionPatch)
        ensures
            patch.deep_view() == (UpdateSessionPatchView {
                id_card_url: None,
                selfie_with_id_url: None,
                recorded_video_url: None,
                status: None,
                face_matching_status: None,
                liveness_status: None,
            }),
    {
        UpdateSessionPatch {
            id_card_url: None,
            selfie_with_id_url: None,
            recorded_video_url: None,
            status: None,
            face_matching_status: None,
            liveness_status: None,
        }
    }
}

/// The value of one member of a JSON object, as far as the client reads it.
#[derive(Debug)]
pub enum JsonMember {
    /// A JSON string.
    Text(String),
    /// Any other JSON value.
    Other,
}

/// Mathematical model of a [`JsonMember`].
pub enum JsonMemberView {
    Text(Seq<char>),
    Other,
}

impl DeepView for JsonMember {
    type V = JsonMemberView;

    open spec fn deep_view(&self) -> JsonMemberView {
        match self {
            JsonMember::Text(s) => JsonMemberView::Text(s@),
            JsonMember::Other => JsonMemberView::Other,
        }
    }
}

/// One member of a JSON object.
#[derive(Debug)]
pub struct JsonField {
    pub name: String,
    pub value: JsonMember,
}

/// Mathematical model of a [`JsonField`].
pub struct JsonFieldView {
    pub name: Seq<char>,
    pub value: JsonMemberView,
}

impl DeepView for JsonField {
    type V = JsonFieldView;

    open spec fn deep_view(&self) -> JsonFieldView {
        JsonFieldView { name: self.name@, value: self.value.deep_view() }
    }
}

/// The body of a failure answer, parsed as JSON.
#[derive(Debug)]
pub enum JsonBody {
    /// A JSON object and its members in the order they stand in.
    Object(Vec<JsonField>),
    /// Any other JSON value, or no JSON at all.
    Other,
}

/// Mathematical model of a [`JsonBody`].
pub enum JsonBodyView {
    Object(Seq<JsonFieldView>),
    Other,
}

impl DeepView for JsonBody {
    type V = JsonBodyView;

    open spec fn deep_view(&self) -> JsonBodyView {
        match self {
            JsonBody::Object(fields) => JsonBodyView::Object(fields.deep_view()),
            JsonBody::Other => JsonBodyView::Other,
        }
    }
}

/// The body of an answer, read the way its status asks for: see
/// [`is_success`].
#[derive(Debug)]
pub enum RestPayload<T> {
    /// The body of a success answer, decoded.
    Decoded(T),
    /// The body of a success answer that could not be decoded, with the
    /// decoder's complaint.
    Undecodable(String),
    /// The body of a failure answer, as it came. A body that could not be
    /// read is handed over as no bytes.
    Failure(Vec<u8>),
}

/// An answer of the service.
#[derive(Debug)]
pub struct RestResponse<T> {
    pub status: u16,
    pub payload: RestPayload<T>,
}

/// The verb of a REST call.
#[derive(Clone, Copy, Debug, PartialEq, Eq, Structural)]
pub enum RestMethod {
    Get,
    Post,
    Patch,
}

/// What a REST call sends as its JSON body.
#[derive(Debug)]
pub enum RestBody {
    Empty,
    CreateSession(CreateSessionRequest),
    Patch(UpdateSessionPatch),
    Applicant(ApplicantSubmissionRequest),
}

/// Mathematical model of a [`RestBody`].
pub enum RestBodyView {
    Empty,
    CreateSession(CreateSessionRequestView),
    Patch(UpdateSessionPatchView),
    Applicant(ApplicantSubmissionRequestView),
}

impl DeepView for RestBody {
    type V = RestBodyView;

    open spec fn deep_view(&self) -> RestBodyView {
        match self {
            RestBody::Empty => RestBodyView::Empty,
            RestBody::CreateSession(b) => RestBodyView::CreateSession(b.deep_view()),
            RestBody::Patch(b) => RestBodyView::Patch(b.deep_view()),
            RestBody::Applicant(b) => RestBodyView::Applicant(b.deep_view()),
        }
    }
}

/// A REST call to make: verb, absolute URL and body.
#[derive(Debug)]
pub struct RestCall {
    pub method: RestMethod,
    pub url: String,
    pub body: RestBody,
}

/// Mathematical model of a [`RestCall`].
pub struct RestCallView {
    pub method: RestMethod,
    pub url: Seq<char>,
    pub body: RestBodyView,
}

impl DeepView for RestCall {
    type V = RestCallView;

    open spec fn deep_view(&self) -> RestCallView {
        RestCallView { method: self.method, url: self.url@, body: self.body.deep_view() }
    }
}

/// A base URL made of `target`: trailing slashes are dropped, and a scheme
/// is put in front unless `target` begins with one.
pub open spec fn normalized_target(target: Seq<char>) -> Seq<char> {
    if has_prefix(target, "http://"@) || has_prefix(target, "https://"@) {
        without_trailing(target, '/')
    } else {
        "http://"@ + without_trailing(target, '/')
    }
}

/// Path of the collection of sessions.
pub open spec fn sessions_path() -> Seq<char> {
    "/api/ekyc/sessions"@
}

/// Path of one session.
pub open spec fn session_path(session_id: Seq<char>) -> Seq<char> {
    "/api/ekyc/sessions/"@ + session_id
}

/// What the bytes of a body parse to: the object with its members where
/// they are a JSON object, [`JsonBodyView::Other`] for any other JSON and
/// for what is no JSON.
pub uninterp spec fn parsed_body(body: Seq<u8>) -> JsonBodyView;

/// `serde_json::from_slice` to a `serde_json::Value`, and the members of
/// the object that came out, each with its text where it is a string. The
/// contract claims only that the outcome is a function of the bytes.
#[verifier::external_body]
fn parse_body(body: &[u8]) -> (parsed: JsonBody)
    ensures
        parsed.deep_view() == parsed_body(body@),
{
    match serde_json::from_slice::<serde_json::Value>(body) {
        Ok(serde_json::Value::Object(members)) => JsonBody::Object(
            members.into_iter().map(|(name, value)| JsonField {
                name,
                value: match value {
                    serde_json::Value::String(text) => JsonMember::Text(text),
                    _ => JsonMember::Other,
                },
            }).collect(),
        ),
        _ => JsonBody::Other,
    }
}

/// The message that stands in where a failure answer names none.
pub open spec fn fallback_message() -> Seq<char> {
    "backoffice error"@
}

/// The value of the first member called `name`, if there is one.
pub open spec fn find_member(fields: Seq<JsonFieldView>, name: Seq<char>) -> Option<
    JsonMemberView,
>
    decreases fields.len(),
{
    if fields.len() == 0 {
        None
    } else if fields[0].name == name {
        Some(fields[0].value)
    } else {
        find_member(fields.drop_first(), name)
    }
}

/// The message of a failure answer: the member `message` of the object, or
/// `error` where there is no `message`, if that member is a string; the
/// fallback in every other case.
pub open spec fn error_message(body: JsonBodyView) -> Seq<char> {
    match body {
        JsonBodyView::Object(fields) => {
            let chosen = match find_member(fields, "message"@) {
                Some(m) => Some(m),
                None => find_member(fields, "error"@),
            };
            match chosen {
                Some(JsonMemberView::Text(s)) => s,
                _ => fallback_message(),
            }
        },
        JsonBodyView::Other => fallback_message(),
    }
}

/// Statuses that stand for success: 200 to 299.
pub open spec fn success(status: u16) -> bool {
    200 <= status <= 299
}

/// The error for a failure answer with the given status and message.
pub open spec fn rejection(status: u16, message: Seq<char>) -> AppErrorView {
    if status == 400 {
        AppErrorView::BadRequest(message)
    } else if status == 404 {
        AppErrorView::NotFound(message)
    } else {
        AppErrorView::Internal(message)
    }
}

/// What the client returns for each outcome of a call. `Err` on the way in
/// is a transport failure and carries its cause.
pub open spec fn rest_result<T>(outcome: Result<RestResponse<T>, String>) -> Result<
    T,
    AppErrorView,
> {
    match outcome {
        Err(cause) => Err(AppErrorView::Internal(cause@)),
        Ok(response) => if success(response.status) {
            match response.payload {
                RestPayload::Decoded(value) => Ok(value),
                RestPayload::Undecodable(cause) => Err(AppErrorView::Internal(cause@)),
                RestPayload::Failure(_) => Err(AppErrorView::Internal(fallback_message())),
            }
        } else {
            Err(
                rejection(
                    response.status,
                    match response.payload {
                        RestPayload::Failure(body) => error_message(parsed_body(body@)),
                        _ => fallback_message(),
                    },
                ),
            )
        },
    }
}

/// Whether the two results agree: the same value, or errors with the same
/// model.
pub open spec fn agrees<T>(r: AppResult<T>, model: Result<T, AppErrorView>) -> bool {
    match r {
        Ok(v) => model == Ok::<T, AppErrorView>(v),
        Err(e) => model == Err::<T, AppErrorView>(e.deep_view()),
    }
}

/// Makes a base URL of a configured address.
pub fn normalize_target(target: &str) -> (r: AppResult<String>)
    ensures
        r matches Ok(url) && url@ == normalized_target(target@),
{
    let trimmed = trim_end_matches(target, '/');
    if starts_with(target, "http://") || starts_with(target, "https://") {
        Ok(trimmed)
    } else {
        Ok(concat("http://", trimmed.as_str()))
    }
}

/// Tells how the body of an answer is to be read: as the payload where the
/// status stands for success, as a failure body where it does not.
pub fn is_success(status: u16) -> (b: bool)
    ensures
        b == success(status),
{
    200 <= status && status <= 299
}

/// Looks a member up by name.
fn member<'a>(fields: &'a Vec<JsonField>, name: &str) -> (found: Option<&'a JsonMember>)
    ensures
        found.deep_view() == find_member(fields.deep_view(), name@),
{
    let ghost all = fields.deep_view();
    let mut i: usize = 0;
    assert(all.subrange(0, all.len() as int) =~= all);
    while i < fields.len()
        invariant
            all == fields.deep_view(),
            i <= fields.len(),
            find_member(all, name@) == find_member(all.subrange(i as int, all.len() as int), name@),
        decreases fields.len() - i,
    {
        let ghost rest = all.subrange(i as int, all.len() as int);
        assert(rest.len() > 0);
        assert(rest[0] == all[i as int]);
        assert(all[i as int] == fields@[i as int].deep_view());
        assert(rest.drop_first() =~= all.subrange(i + 1, all.len() as int));
        let same = str_eq(fields[i].name.as_str(), name);
        if same {
            assert(find_member(rest, name@) == Some(rest[0].value));
            return Some(&fields[i].value);
        }
        assert(find_member(rest, name@) == find_member(rest.drop_first(), name@));
        i = i + 1;
    }
    assert(all.subrange(i as int, all.len() as int).len() == 0);
    None
}

/// Reads the message out of the bytes of a failure body.
pub fn extract_error_message(body: &[u8]) -> (message: String)
    ensures
        message@ == error_message(parsed_body(body@)),
{
    let parsed = parse_body(body);
    message_of(&parsed)
}

/// Reads the message out of a parsed failure body.
pub fn message_of(body: &JsonBody) -> (message: String)
    ensures
        message@ == error_message(body.deep_view()),
{
    match body {
        JsonBody::Object(fields) => {
            let chosen = match member(fields, "message") {
                Some(m) => Some(m),
                None => member(fields, "error"),
            };
            match chosen {
                Some(JsonMember::Text(s)) => s.clone(),
                _ => text("backoffice error"),
            }
        },
        JsonBody::Other => text("backoffice error"),
    }
}

/// Turns the outcome of a call into the client's result.
///
/// A transport failure is internal. A failure answer is a bad request for
/// status 400, not found for 404 and internal for anything else, with the
/// message that the body names. A success answer gives the decoded value,
/// or an internal error where the body could not be decoded.
pub fn send_json<T>(outcome: Result<RestResponse<T>, String>) -> (r: AppResult<T>)
    ensures
        agrees(r, rest_result(outcome)),
{
    match outcome {
        Err(cause) => Err(AppError::Internal(cause)),
        Ok(response) => {
            let status = response.status;
            if is_success(status) {
                match response.payload {
                    RestPayload::Decoded(value) => Ok(value),
                    RestPayload::Undecodable(cause) => Err(AppError::Internal(cause)),
                    RestPayload::Failure(_) => Err(AppError::Internal(text("backoffice error"))),
                }
            } else {
                let message = match response.payload {
                    RestPayload::Failure(body) => extract_error_message(body.as_slice()),
                    _ => text("backoffice error"),
                };
                if status == 400 {
                    Err(AppError::BadRequest(message))
                } else if status == 404 {
                    Err(AppError::NotFound(message))
                } else {
                    Err(AppError::Internal(message))
                }
            }
        },
    }
}

/// The client: nothing but the base URL of the service.
#[derive(Debug)]
pub struct BackofficeClient {
    base_url: String,
}

impl BackofficeClient {
    /// The base URL that every call starts with.
    pub closed spec fn base(&self) -> Seq<char> {
        self.base_url@
    }

    /// A client for the service at `base_url`.
    pub fn new(base_url: &str) -> (r: AppResult<Self>)
        ensures
            r matches Ok(client) && client.base() == normalized_target(base_url@),
    {
        match normalize_target(base_url) {
            Ok(normalized) => Ok(BackofficeClient { base_url: normalized }),
            Err(e) => Err(e),
        }
    }

    /// The base URL.
    pub fn base_url(&self) -> (url: &str)
        ensures
            url@ == self.base(),
    {
        self.base_url.as_str()
    }

    /// The absolute URL of a path of the service.
    pub fn api_url(&self, path: &str) -> (url: String)
        ensures
            url@ == self.base() + path@,
    {
        concat(self.base_url.as_str(), path)
    }

    /// The URL of a session, or of what `suffix` names under it.
    fn session_url(&self, session_id: &str, suffix: &str) -> (url: String)
        ensures
            url@ == self.base() + session_path(session_id@) + suffix@,
    {
        let path = concat(concat("/api/ekyc/sessions/", session_id).as_str(), suffix);
        let url = self.api_url(path.as_str());
        assert(url@ =~= self.base() + session_path(session_id@) + suffix@);
        url
    }

    /// The call that creates a session, for a user if one is given.
    pub fn create_ekyc_session(&self, user_id: Option<String>) -> (call: RestCall)
        ensures
            call.deep_view() == (RestCallView {
                method: RestMethod::Post,
                url: self.base() + sessions_path(),
                body: RestBodyView::CreateSession(
                    CreateSessionRequestView { user_id: user_id.deep_view() },
                ),
            }),
    {
        RestCall {
            method: RestMethod::Post,
            url: self.api_url("/api/ekyc/sessions"),
            body: RestBody::CreateSession(CreateSessionRequest { user_id }),
        }
    }

    /// The call that applies a sparse patch to a session.
    pub fn update_ekyc_session(&self, session_id: &str, patch: UpdateSessionPatch) -> (call:
        RestCall)
        ensures
            call.deep_view() == (RestCallView {
                method: RestMethod::Patch,
                url: self.base() + session_path(session_id@) + "/artifacts"@,
                body: RestBodyView::Patch(patch.deep_view()),
            }),
    {
        RestCall {
            method: RestMethod::Patch,
            url: self.session_url(session_id, "/artifacts"),
            body: RestBody::Patch(patch),
        }
    }

    /// The call that fetches a session.
    pub fn get_ekyc_session(&self, session_id: &str) -> (call: RestCall)
        ensures
            call.deep_view() == (RestCallView {
                method: RestMethod::Get,
                url: self.base() + session_path(session_id@),
                body: RestBodyView::Empty,
            }),
    {
        let url = self.session_url(session_id, "");
        proof {
            reveal_strlit("");
            assert(self.base() + session_path(session_id@) + ""@ =~= self.base() + session_path(
                session_id@,
            ));
        }
        RestCall { method: RestMethod::Get, url, body: RestBody::Empty }
    }

    /// The call that submits the applicant of a session.
    pub fn submit_applicant(&self, session_id: &str, payload: ApplicantSubmissionRequest) -> (call:
        RestCall)
        ensures
            call.deep_view() == (RestCallView {
                method: RestMethod::Post,
                url: self.base() + session_path(session_id@) + "/applicant"@,
                body: RestBodyView::Applicant(payload.deep_view()),
            }),
    {
        RestCall {
            method: RestMethod::Post,
            url: self.session_url(session_id, "/applicant"),
            body: RestBody::Applicant(payload),
        }
    }

    /// The request to make upstream for a request that no workflow route
    /// claims.
    pub fn forward(&self, request: ProxyRequest) -> (out: UpstreamRequest)
        ensures
            out.deep_view() == upstream_request(self.base(), request.deep_view()),
    {
        forward_request(self.base_url.as_str(), request)
    }
}

} // verus!
