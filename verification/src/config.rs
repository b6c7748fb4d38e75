//! Configuration: what each setting is when the environment does not say.

use vstd::prelude::*;
use crate::error::{AppError, AppErrorView, AppResult};
use crate::text::{blank, concat, contains_char, has_prefix, is_blank, starts_with, str_eq, text};

verus! {

/// A setting and the value it has by default.
#[derive(Clone, Copy, Debug)]
pub struct EnvItem {
    pub key: &'static str,
    pub default: &'static str,
}

/// The settings of the gateway.
#[derive(Debug)]
pub struct Env;

/// The default of a setting; the empty text for a key that is no setting.
pub open spec fn default_of(key: Seq<char>) -> Seq<char> {
    if key == "AI_SUPPORT_GRPC_ENDPOINT"@ {
        "http://127.0.0.1:50052"@
    } else if key == "BACKOFFICE_HTTP_ENDPOINT"@ {
        "http://127.0.0.1:8081"@
    } else if key == "MEDIA_STORAGE_HTTP_ENDPOINT"@ {
        "http://127.0.0.1:8090"@
    } else if key == "FACE_MATCH_THRESHOLD"@ {
        "0.78"@
    } else {
        Seq::empty()
    }
}

/// The address to listen on where none is configured.
pub open spec fn default_listen_address() -> Seq<char> {
    "0.0.0.0:8080"@
}

/// The address to listen on for a configured text: a port alone, with or
/// without its colon, means every interface; anything with a colon inside
/// is taken as it is. A blank text is an error.
pub open spec fn listen_address(raw: Seq<char>) -> Result<Seq<char>, AppErrorView> {
    if blank(raw) {
        Err(AppErrorView::Internal("GATEWAY_HTTP_ADDR is empty"@))
    } else if has_prefix(raw, ":"@) {
        Ok("0.0.0.0"@ + raw)
    } else if raw.contains(':') {
        Ok(raw)
    } else {
        Ok("0.0.0.0:"@ + raw)
    }
}

impl Env {
    /// The settings that have a default, in the order they are looked up.
    pub fn items() -> (items: Vec<EnvItem>)
        ensures
            items@.len() == 4,
            items@[0].key@ == "AI_SUPPORT_GRPC_ENDPOINT"@,
            items@[1].key@ == "BACKOFFICE_HTTP_ENDPOINT"@,
            items@[2].key@ == "MEDIA_STORAGE_HTTP_ENDPOINT"@,
            items@[3].key@ == "FACE_MATCH_THRESHOLD"@,
            forall|i: int|
                0 <= i < 4 ==> default_of((#[trigger] items@[i]).key@) == items@[i].default@,
    {
        let mut items: Vec<EnvItem> = Vec::new();
        items.push(EnvItem { key: "AI_SUPPORT_GRPC_ENDPOINT", default: "http://127.0.0.1:50052" });
        items.push(EnvItem { key: "BACKOFFICE_HTTP_ENDPOINT", default: "http://127.0.0.1:8081" });
        items.push(
            EnvItem { key: "MEDIA_STORAGE_HTTP_ENDPOINT", default: "http://127.0.0.1:8090" },
        );
        items.push(EnvItem { key: "FACE_MATCH_THRESHOLD", default: "0.78" });
        proof {
            reveal_strlit("AI_SUPPORT_GRPC_ENDPOINT");
            reveal_strlit("BACKOFFICE_HTTP_ENDPOINT");
            reveal_strlit("MEDIA_STORAGE_HTTP_ENDPOINT");
            reveal_strlit("FACE_MATCH_THRESHOLD");
            assert("BACKOFFICE_HTTP_ENDPOINT"@[0] != "AI_SUPPORT_GRPC_ENDPOINT"@[0]);
            assert("MEDIA_STORAGE_HTTP_ENDPOINT"@.len() == 27);
            assert("AI_SUPPORT_GRPC_ENDPOINT"@.len() == 24);
            assert("BACKOFFICE_HTTP_ENDPOINT"@.len() == 24);
            assert("FACE_MATCH_THRESHOLD"@.len() == 20);
            assert(default_of(items@[0].key@) == items@[0].default@);
            assert(default_of(items@[1].key@) == items@[1].default@);
            assert(default_of(items@[2].key@) == items@[2].default@);
            assert(default_of(items@[3].key@) == items@[3].default@);
        }
        items
    }

    /// The default of a setting.
    pub fn default_value(key: &str) -> (value: String)
        ensures
            value@ == default_of(key@),
    {
        if str_eq(key, "AI_SUPPORT_GRPC_ENDPOINT") {
            text("http://127.0.0.1:50052")
        } else if str_eq(key, "BACKOFFICE_HTTP_ENDPOINT") {
            text("http://127.0.0.1:8081")
        } else if str_eq(key, "MEDIA_STORAGE_HTTP_ENDPOINT") {
            text("http://127.0.0.1:8090")
        } else if str_eq(key, "FACE_MATCH_THRESHOLD") {
            text("0.78")
        } else {
            String::new()
        }
    }

    /// The value of a setting: what the environment holds for it, or its
    /// default where the environment holds nothing.
    pub fn retrieve(key: &str, from_environment: Option<String>) -> (value: String)
        ensures
            value@ == match from_environment {
                Some(v) => v@,
                None => default_of(key@),
            },
    {
        match from_environment {
            Some(v) => v,
            None => Self::default_value(key),
        }
    }
}

/// Completes a configured listen address so that it names an interface
/// and a port.
pub fn parse_socket_addr(raw: &str) -> (r: AppResult<String>)
    ensures
        match r {
            Ok(address) => listen_address(raw@) == Ok::<Seq<char>, AppErrorView>(address@),
            Err(e) => listen_address(raw@) == Err::<Seq<char>, AppErrorView>(e.deep_view()),
        },
{
    if is_blank(raw) {
        return Err(AppError::Internal(text("GATEWAY_HTTP_ADDR is empty")));
    }
    if starts_with(raw, ":") {
        Ok(concat("0.0.0.0", raw))
    } else if contains_char(raw, ':') {
        Ok(text(raw))
    } else {
        Ok(concat("0.0.0.0:", raw))
    }
}

/// The address to listen on: the configured one completed, or every
/// interface on port 8080 where none is configured.
pub fn resolve_listen_addr(configured: Option<String>) -> (r: AppResult<String>)
    ensures
        match r {
            Ok(address) => match configured {
                Some(raw) => listen_address(raw@) == Ok::<Seq<char>, AppErrorView>(address@),
                None => address@ == default_listen_address(),
            },
            Err(e) => configured matches Some(raw) && listen_address(raw@) == Err::<
                Seq<char>,
                AppErrorView,
            >(e.deep_view()),
        },
{
    match configured {
        Some(raw) => parse_socket_addr(raw.as_str()),
        None => Ok(text("0.0.0.0:8080")),
    }
}

} // verus!
