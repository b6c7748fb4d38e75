//! The transparent forwarder in front of the session-of-record service.
//!
//! A request that no workflow route claims is sent upstream as it came,
//! except for its `Host` header, and the answer is handed back as it came,
//! except for its `Transfer-Encoding` header. Bodies are held in memory in
//! both directions, so both rewrites are plain functions on values.

use vstd::prelude::*;
use crate::error::{outcome_view, AppErrorView, AppResult};
use crate::text::{concat, eq_ignore_ascii_case, same_ignoring_ascii_case, text};

verus! {

/// One header line: a name, and a value that need not be text.
#[derive(Debug)]
pub struct Header {
    pub name: String,
    pub value: Vec<u8>,
}

/// Mathematical model of a [`Header`].
pub struct HeaderView {
    pub name: Seq<char>,
    pub value: Seq<u8>,
}

impl DeepView for Header {
    type V = HeaderView;

    open spec fn deep_view(&self) -> HeaderView {
        HeaderView { name: self.name@, value: self.value@ }
    }
}

/// An inbound request, fully read. `path_and_query` is absent only for a
/// target that has neither, and `path` is then what the target gives.
#[derive(Debug)]
pub struct ProxyRequest {
    pub method: String,
    pub path: String,
    pub path_and_query: Option<String>,
    pub headers: Vec<Header>,
    pub body: Vec<u8>,
}

/// Mathematical model of a [`ProxyRequest`].
pub struct ProxyRequestView {
    pub method: Seq<char>,
    pub path: Seq<char>,
    pub path_and_query: Option<Seq<char>>,
    pub headers: Seq<HeaderView>,
    pub body: Seq<u8>,
}

impl DeepView for ProxyRequest {
    type V = ProxyRequestView;

    open spec fn deep_view(&self) -> ProxyRequestView {
        ProxyRequestView {
            method: self.method@,
            path: self.path@,
            path_and_query: self.path_and_query.deep_view(),
            headers: self.headers.deep_view(),
            body: self.body@,
        }
    }
}

/// The request to make upstream. No body is sent where `body` is `None`.
#[derive(Debug)]
pub struct UpstreamRequest {
    pub method: String,
    pub url: String,
    pub headers: Vec<Header>,
    pub body: Option<Vec<u8>>,
}

/// Mathematical model of an [`UpstreamRequest`].
pub struct UpstreamRequestView {
    pub method: Seq<char>,
    pub url: Seq<char>,
    pub headers: Seq<HeaderView>,
    pub body: Option<Seq<u8>>,
}

impl DeepView for UpstreamRequest {
    type V = UpstreamRequestView;

    open spec fn deep_view(&self) -> UpstreamRequestView {
        UpstreamRequestView {
            method: self.method@,
            url: self.url@,
            headers: self.headers.deep_view(),
            body: match self.body {
                Some(b) => Some(b@),
                None => None,
            },
        }
    }
}

/// A response, fully read: the upstream's answer, or the one handed back
/// to the client.
#[derive(Debug)]
pub struct ProxyResponse {
    pub status: u16,
    pub headers: Vec<Header>,
    pub body: Vec<u8>,
}

/// Mathematical model of a [`ProxyResponse`].
pub struct ProxyResponseView {
    pub status: u16,
    pub headers: Seq<HeaderView>,
    pub body: Seq<u8>,
}

impl DeepView for ProxyResponse {
    type V = ProxyResponseView;

    open spec fn deep_view(&self) -> ProxyResponseView {
        ProxyResponseView {
            status: self.status,
            headers: self.headers.deep_view(),
            body: self.body@,
        }
    }
}

/// What the client of the forwarder gets.
#[derive(Debug)]
pub enum ProxyReply {
    /// The upstream's answer, rewritten.
    Relayed(ProxyResponse),
    /// The upstream could not be reached: a status and a JSON message.
    Unavailable { status: u16, message: String },
}

/// Mathematical model of a [`ProxyReply`].
pub enum ProxyReplyView {
    Relayed(ProxyResponseView),
    Unavailable { status: u16, message: Seq<char> },
}

impl DeepView for ProxyReply {
    type V = ProxyReplyView;

    open spec fn deep_view(&self) -> ProxyReplyView {
        match self {
            ProxyReply::Relayed(r) => ProxyReplyView::Relayed(r.deep_view()),
            ProxyReply::Unavailable { status, message } => ProxyReplyView::Unavailable {
                status: *status,
                message: message@,
            },
        }
    }
}

/// Name of the header that is not forwarded upstream.
pub open spec fn host_header() -> Seq<char> {
    "host"@
}

/// Name of the header that is not handed back to the client.
pub open spec fn transfer_encoding_header() -> Seq<char> {
    "transfer-encoding"@
}

/// Message of the reply for an upstream that cannot be reached.
pub open spec fn unavailable_message() -> Seq<char> {
    "backoffice service unavailable"@
}

/// The test "this header is not called `name`". Header names compare
/// without regard to ASCII case.
pub open spec fn not_named(name: Seq<char>) -> spec_fn(HeaderView) -> bool {
    |h: HeaderView| !same_ignoring_ascii_case(h.name, name)
}

/// `headers` in their order, without those called `name`.
pub open spec fn without_header(headers: Seq<HeaderView>, name: Seq<char>) -> Seq<HeaderView> {
    headers.filter(not_named(name))
}

/// The upstream request for an inbound request: same method, the target
/// appended to the base URL, every header but `Host`, and the body unless
/// it is empty.
pub open spec fn upstream_request(base_url: Seq<char>, request: ProxyRequestView)
    -> UpstreamRequestView {
    UpstreamRequestView {
        method: request.method,
        url: base_url + match request.path_and_query {
            Some(target) => target,
            None => request.path,
        },
        headers: without_header(request.headers, host_header()),
        body: if request.body.len() == 0 {
            None
        } else {
            Some(request.body)
        },
    }
}

/// The response for the client: same status and body, every header but
/// `Transfer-Encoding`.
pub open spec fn client_response(response: ProxyResponseView) -> ProxyResponseView {
    ProxyResponseView {
        status: response.status,
        headers: without_header(response.headers, transfer_encoding_header()),
        body: response.body,
    }
}

/// The forwarder's reply for each outcome of the upstream call.
pub open spec fn proxy_reply(outcome: Result<ProxyResponseView, AppErrorView>) -> ProxyReplyView {
    match outcome {
        Ok(response) => ProxyReplyView::Relayed(client_response(response)),
        Err(_) => ProxyReplyView::Unavailable { status: 502, message: unavailable_message() },
    }
}

/// Removes the headers called `name`, keeping the others in order.
pub fn drop_header(headers: Vec<Header>, name: &str) -> (kept: Vec<Header>)
    ensures
        kept.deep_view() == without_header(headers.deep_view(), name@),
{
    let ghost all = headers.deep_view();
    let ghost raw = headers@;
    let mut kept: Vec<Header> = Vec::new();
    proof {
        reveal(Seq::filter);
        assert(all.subrange(0, 0).filter(not_named(name@)) =~= kept.deep_view());
    }
    for h in it: headers
        invariant
            it.seq() == raw,
            all.len() == raw.len(),
            forall|j: int| 0 <= j < raw.len() ==> all[j] == #[trigger] raw[j].deep_view(),
            kept.deep_view() == all.subrange(0, it.index() as int).filter(not_named(name@)),
    {
        let ghost before = kept.deep_view();
        let ghost i = it.index() as int;
        proof {
            reveal(Seq::filter);
            assert(all.subrange(0, i + 1).drop_last() =~= all.subrange(0, i));
            assert(all.subrange(0, i + 1).last() == h.deep_view());
        }
        if !eq_ignore_ascii_case(h.name.as_str(), name) {
            kept.push(h);
            assert(kept.deep_view() =~= before.push(h.deep_view()));
        }
    }
    assert(all.subrange(0, all.len() as int) =~= all);
    kept
}

/// Rewrites an inbound request into the one to make upstream.
pub fn forward_request(base_url: &str, request: ProxyRequest) -> (out: UpstreamRequest)
    ensures
        out.deep_view() == upstream_request(base_url@, request.deep_view()),
{
    let target = match request.path_and_query {
        Some(t) => t,
        None => request.path,
    };
    let url = concat(base_url, target.as_str());
    let headers = drop_header(request.headers, "host");
    let body = if request.body.len() == 0 {
        None
    } else {
        Some(request.body)
    };
    UpstreamRequest { method: request.method, url, headers, body }
}

/// Rewrites the upstream's answer into the one for the client.
pub fn relay_response(response: ProxyResponse) -> (out: ProxyResponse)
    ensures
        out.deep_view() == client_response(response.deep_view()),
{
    let headers = drop_header(response.headers, "transfer-encoding");
    ProxyResponse { status: response.status, headers, body: response.body }
}

/// Answers the client of the forwarder: the upstream's answer rewritten,
/// or status 502 with a fixed message where the upstream call failed in
/// any way. The failure itself is for the log.
pub fn forward_to_backoffice(outcome: AppResult<ProxyResponse>) -> (reply: ProxyReply)
    ensures
        reply.deep_view() == proxy_reply(outcome_view(outcome)),
{
    match outcome {
        Ok(response) => ProxyReply::Relayed(relay_response(response)),
        Err(_) => ProxyReply::Unavailable {
            status: 502,
            message: text("backoffice service unavailable"),
        },
    }
}

/// No header called `name` is left, in whatever case it was written.
pub proof fn lemma_named_header_is_dropped(headers: Seq<HeaderView>, name: Seq<char>, i: int)
    requires
        0 <= i < without_header(headers, name).len(),
    ensures
        !same_ignoring_ascii_case(without_header(headers, name)[i].name, name),
{
    headers.lemma_filter_pred(not_named(name), i);
}

/// Every header that is not called `name` is still there.
pub proof fn lemma_other_headers_are_kept(headers: Seq<HeaderView>, name: Seq<char>, i: int)
    requires
        0 <= i < headers.len(),
        !same_ignoring_ascii_case(headers[i].name, name),
    ensures
        without_header(headers, name).contains(headers[i]),
{
    headers.lemma_filter_contains(not_named(name), i);
}

/// Where no header is called `name`, the headers are handed on as they
/// are, in their order.
pub proof fn lemma_headers_untouched(headers: Seq<HeaderView>, name: Seq<char>)
    requires
        forall|i: int|
            0 <= i < headers.len() ==> !same_ignoring_ascii_case(#[trigger] headers[i].name, name),
    ensures
        without_header(headers, name) == headers,
    decreases headers.len(),
{
    reveal(Seq::filter);
    if headers.len() > 0 {
        lemma_headers_untouched(headers.drop_last(), name);
        assert(headers.drop_last().push(headers.last()) =~= headers);
    }
}

/// The upstream gets the client's method and body bytes and no `Host`
/// header; the client gets the upstream's status and body bytes and no
/// `Transfer-Encoding` header.
pub proof fn lemma_forwarding_is_transparent(
    base_url: Seq<char>,
    request: ProxyRequestView,
    response: ProxyResponseView,
)
    ensures
        upstream_request(base_url, request).method == request.method,
        request.body.len() > 0 ==> upstream_request(base_url, request).body == Some(request.body),
        request.body.len() == 0 ==> upstream_request(base_url, request).body is None,
        forall|i: int|
            0 <= i < upstream_request(base_url, request).headers.len()
                ==> !same_ignoring_ascii_case(
                (#[trigger] upstream_request(base_url, request).headers[i]).name,
                host_header(),
            ),
        client_response(response).status == response.status,
        client_response(response).body == response.body,
        forall|i: int|
            0 <= i < client_response(response).headers.len() ==> !same_ignoring_ascii_case(
                (#[trigger] client_response(response).headers[i]).name,
                transfer_encoding_header(),
            ),
{
    assert forall|i: int|
        0 <= i < upstream_request(base_url, request).headers.len()
    implies !same_ignoring_ascii_case(
        (#[trigger] upstream_request(base_url, request).headers[i]).name,
        host_header(),
    ) by {
        lemma_named_header_is_dropped(request.headers, host_header(), i);
    }
    assert forall|i: int| 0 <= i < client_response(response).headers.len()
    implies !same_ignoring_ascii_case(
        (#[trigger] client_response(response).headers[i]).name,
        transfer_encoding_header(),
    ) by {
        lemma_named_header_is_dropped(response.headers, transfer_encoding_header(), i);
    }
}

} // verus!
