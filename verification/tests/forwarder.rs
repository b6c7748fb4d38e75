use api_gateway::backoffice::BackofficeClient;
use api_gateway::error::AppError;
use api_gateway::proxy::{
    forward_to_backoffice, relay_response, Header, ProxyReply, ProxyRequest, ProxyResponse,
};

fn header(name: &str, value: &[u8]) -> Header {
    Header { name: name.to_string(), value: value.to_vec() }
}

fn names(headers: &[Header]) -> Vec<String> {
    headers.iter().map(|h| h.name.clone()).collect()
}

#[test]
fn host_header_is_not_forwarded_and_body_is_exact() {
    let client = BackofficeClient::new("http://backoffice:8081/").unwrap();
    let request = ProxyRequest {
        method: "POST".to_string(),
        path: "/api/things".to_string(),
        path_and_query: Some("/api/things?page=2".to_string()),
        headers: vec![
            header("Host", b"client-supplied"),
            header("content-type", b"text/plain"),
            header("x-trace", b"\xff\x01"),
        ],
        body: b"abc".to_vec(),
    };
    let out = client.forward(request);
    assert_eq!(out.method, "POST");
    assert_eq!(out.url, "http://backoffice:8081/api/things?page=2");
    assert_eq!(names(&out.headers), vec!["content-type".to_string(), "x-trace".to_string()]);
    assert_eq!(out.headers[1].value, b"\xff\x01".to_vec());
    assert_eq!(out.body, Some(b"abc".to_vec()));
}

#[test]
fn empty_body_is_forwarded_without_a_body() {
    let client = BackofficeClient::new("backoffice:8081").unwrap();
    let request = ProxyRequest {
        method: "GET".to_string(),
        path: "/api/things".to_string(),
        path_and_query: None,
        headers: vec![header("host", b"gateway"), header("HOST", b"again")],
        body: Vec::new(),
    };
    let out = client.forward(request);
    assert_eq!(out.url, "http://backoffice:8081/api/things");
    assert!(out.headers.is_empty());
    assert_eq!(out.body, None);
}

#[test]
fn transfer_encoding_is_dropped_from_the_answer() {
    let response = ProxyResponse {
        status: 207,
        headers: vec![
            header("content-type", b"application/json"),
            header("Transfer-Encoding", b"chunked"),
            header("x-upstream", b"1"),
        ],
        body: b"{\"ok\":true}".to_vec(),
    };
    let out = relay_response(response);
    assert_eq!(out.status, 207);
    assert_eq!(names(&out.headers), vec!["content-type".to_string(), "x-upstream".to_string()]);
    assert_eq!(out.body, b"{\"ok\":true}".to_vec());
}

#[test]
fn failed_upstream_call_is_a_bad_gateway() {
    let reply = forward_to_backoffice(Err(AppError::Internal("connection refused".to_string())));
    match reply {
        ProxyReply::Unavailable { status, message } => {
            assert_eq!(status, 502);
            assert_eq!(message, "backoffice service unavailable");
        }
        ProxyReply::Relayed(_) => panic!("a failed call must not be relayed"),
    }
}

#[test]
fn answered_upstream_call_is_relayed() {
    let response = ProxyResponse {
        status: 404,
        headers: vec![header("transfer-encoding", b"chunked")],
        body: b"nope".to_vec(),
    };
    match forward_to_backoffice(Ok(response)) {
        ProxyReply::Relayed(out) => {
            assert_eq!(out.status, 404);
            assert!(out.headers.is_empty());
            assert_eq!(out.body, b"nope".to_vec());
        }
        ProxyReply::Unavailable { .. } => panic!("an answer must be relayed"),
    }
}
