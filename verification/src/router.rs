//! Route synthesis: one HTTP POST route per RPC method at the literal path
//! `/{package}.{Service}/{Method}`, the fixed RPC-status → HTTP-status
//! table, the uniform JSON error envelope, and the per-service router
//! source text.

use vstd::prelude::*;

use crate::codegen::{
    GenError, GenErrorModel, deserializer_module_text, first_invalid_path_from,
    fragment_well_formed, functions_text_from, generate_package_specific_enum_deserializer_code,
};
use crate::descriptor::{FileDescriptor, MethodDescriptor, ServiceDescriptor};
use crate::extract::package_bindings_from;
use crate::naming::{to_word_case, word_case};
use crate::strutil::{strip_quotes, trim_quotes};

verus! {

// ---------------------------------------------------------------------------
// Route paths.
// ---------------------------------------------------------------------------

/// The wire path of a method: `/{package}.{Service}/{Method}`.
pub open spec fn route_path_spec(package: Seq<char>, service: Seq<char>, method: Seq<char>) -> Seq<
    char,
> {
    "/"@ + package + "."@ + service + "/"@ + method
}

/// Build the route path of one method.
pub fn route_path(package: &str, service: &str, method: &str) -> (r: String)
    ensures
        r@ == route_path_spec(package@, service@, method@),
{
    let mut out = String::new();
    out.append("/");
    out.append(package);
    out.append(".");
    out.append(service);
    out.append("/");
    out.append(method);
    proof {
        assert(out@ =~= route_path_spec(package@, service@, method@));
    }
    out
}

// ---------------------------------------------------------------------------
// RPC status → HTTP status.
// ---------------------------------------------------------------------------

/// The RPC status codes of the transport.
#[derive(Clone, Copy, PartialEq, Eq, Structural, Debug)]
pub enum RpcCode {
    Okay,
    Cancelled,
    Unknown,
    InvalidArgument,
    DeadlineExceeded,
    NotFound,
    AlreadyExists,
    PermissionDenied,
    ResourceExhausted,
    FailedPrecondition,
    Aborted,
    OutOfRange,
    Unimplemented,
    Internal,
    Unavailable,
    DataLoss,
    Unauthenticated,
}

/// The fixed translation table from RPC status codes to HTTP status codes;
/// every code not named falls to 500.
pub open spec fn http_status_spec(code: RpcCode) -> u16 {
    match code {
        RpcCode::Okay => 200,
        RpcCode::InvalidArgument => 400,
        RpcCode::NotFound => 404,
        RpcCode::AlreadyExists => 409,
        RpcCode::Aborted => 409,
        RpcCode::PermissionDenied => 403,
        RpcCode::Unauthenticated => 401,
        RpcCode::ResourceExhausted => 429,
        RpcCode::FailedPrecondition => 412,
        RpcCode::Unimplemented => 501,
        RpcCode::Unavailable => 503,
        RpcCode::DeadlineExceeded => 408,
        RpcCode::Cancelled => 408,
        RpcCode::OutOfRange => 416,
        _ => 500,
    }
}

/// Translate an RPC status code to the HTTP status of the error response.
pub fn http_status_for(code: RpcCode) -> (s: u16)
    ensures
        s == http_status_spec(code),
{
    match code {
        RpcCode::Okay => 200,
        RpcCode::InvalidArgument => 400,
        RpcCode::NotFound => 404,
        RpcCode::AlreadyExists | RpcCode::Aborted => 409,
        RpcCode::PermissionDenied => 403,
        RpcCode::Unauthenticated => 401,
        RpcCode::ResourceExhausted => 429,
        RpcCode::FailedPrecondition => 412,
        RpcCode::Unimplemented => 501,
        RpcCode::Unavailable => 503,
        RpcCode::DeadlineExceeded | RpcCode::Cancelled => 408,
        RpcCode::OutOfRange => 416,
        _ => 500,
    }
}

// ---------------------------------------------------------------------------
// Router source text.
// ---------------------------------------------------------------------------

pub const ROUTER_HEAD_A: &'static str = "#[allow(dead_code)]\npub fn ";

pub const ROUTER_HEAD_B: &'static str = "_handler<T: ";

pub const ROUTER_HEAD_C: &'static str = "_server::";

pub const ROUTER_HEAD_D: &'static str =
    ">(server: T) -> ::axum::Router {\n    use ::axum::extract::State;\n    use ::axum::response::IntoResponse;\n    use std::sync::Arc;\n    let router = ::axum::Router::new();\n";

pub const ROUTER_FOOT: &'static str = "    router.with_state(Arc::new(server))\n}\n";

pub const ROUTE_A: &'static str = "    let router = router.route(\"";

pub const ROUTE_B: &'static str =
    "\", ::axum::routing::post(|State(state): State<Arc<T>>, extension: ::http::Extensions, headers: ::http::header::HeaderMap, ::axum::Json(body): ::axum::Json<";

pub const ROUTE_C: &'static str =
    ">| async move {\n        let metadata_map = ::tonic::metadata::MetadataMap::from_headers(headers);\n        let request = ::tonic::Request::from_parts(metadata_map, extension, body);\n        let output = <T as ";

pub const ROUTE_D: &'static str = "_server::";

pub const ROUTE_E: &'static str = ">::";

pub const ROUTE_F: &'static str =
    "(&state, request).await;\n        match output {\n            Ok(response) => {\n                let (metadata_map, body, extension) = response.into_parts();\n                let headers = metadata_map.into_headers();\n                let body = ::axum::Json(body);\n                (headers, extension, body).into_response()\n            }\n            Err(status) => {\n                let code = match status.code() {\n                    ::tonic::Code::Ok => ::http::StatusCode::OK,\n                    ::tonic::Code::InvalidArgument => ::http::StatusCode::BAD_REQUEST,\n                    ::tonic::Code::NotFound => ::http::StatusCode::NOT_FOUND,\n                    ::tonic::Code::AlreadyExists | ::tonic::Code::Aborted => ::http::StatusCode::CONFLICT,\n                    ::tonic::Code::PermissionDenied => ::http::StatusCode::FORBIDDEN,\n                    ::tonic::Code::Unauthenticated => ::http::StatusCode::UNAUTHORIZED,\n                    ::tonic::Code::ResourceExhausted => ::http::StatusCode::TOO_MANY_REQUESTS,\n                    ::tonic::Code::FailedPrecondition => ::http::StatusCode::PRECONDITION_FAILED,\n                    ::tonic::Code::Unimplemented => ::http::StatusCode::NOT_IMPLEMENTED,\n                    ::tonic::Code::Unavailable => ::http::StatusCode::SERVICE_UNAVAILABLE,\n                    ::tonic::Code::DeadlineExceeded | ::tonic::Code::Cancelled => ::http::StatusCode::REQUEST_TIMEOUT,\n                    ::tonic::Code::OutOfRange => ::http::StatusCode::RANGE_NOT_SATISFIABLE,\n                    _ => ::http::StatusCode::INTERNAL_SERVER_ERROR,\n                };\n                let error_body = ErrorResponse {\n                    error: ErrorDetails {\n                        code: status.code().to_string(),\n                        message: status.message().to_string(),\n                    }\n                };\n                let body = ::axum::Json(error_body);\n                (code, body).into_response()\n            }\n        }\n    }));\n";

/// The source text of one route registration: the method's wire path, its
/// (quote-trimmed) input type, and the dispatch through the service trait.
pub open spec fn route_text(
    snake: Seq<char>,
    name: Seq<char>,
    package: Seq<char>,
    svc_proto: Seq<char>,
    m: MethodDescriptor,
) -> Seq<char> {
    ROUTE_A@ + route_path_spec(package, svc_proto, m.proto_name@) + ROUTE_B@ + strip_quotes(
        m.input_type@,
    ) + ROUTE_C@ + snake + ROUTE_D@ + name + ROUTE_E@ + m.name@ + ROUTE_F@
}

/// The route registrations of the methods `svc.methods[k..]`.
pub open spec fn routes_text_from(svc: ServiceDescriptor, k: int) -> Seq<char>
    decreases svc.methods.len() - k,
{
    if k < 0 || k >= svc.methods.len() {
        Seq::empty()
    } else {
        route_text(
            word_case(svc.name@),
            svc.name@,
            svc.package@,
            svc.proto_name@,
            svc.methods[k as int],
        ) + routes_text_from(svc, k + 1)
    }
}

/// The full router-construction function emitted for one service: a
/// `{service}_handler` function taking the handler value and returning the
/// router, with one POST route per method.
pub open spec fn service_router_text(svc: ServiceDescriptor) -> Seq<char> {
    ROUTER_HEAD_A@ + word_case(svc.name@) + ROUTER_HEAD_B@ + word_case(svc.name@) + ROUTER_HEAD_C@
        + svc.name@ + ROUTER_HEAD_D@ + routes_text_from(svc, 0) + ROUTER_FOOT@
}

/// Emit the router-construction function for one service.
pub fn generate_service_router(svc: &ServiceDescriptor) -> (r: String)
    ensures
        r@ == service_router_text(*svc),
{
    let snake = to_word_case(svc.name.as_str());
    let mut out = String::new();
    out.append(ROUTER_HEAD_A);
    out.append(snake.as_str());
    out.append(ROUTER_HEAD_B);
    out.append(snake.as_str());
    out.append(ROUTER_HEAD_C);
    out.append(svc.name.as_str());
    out.append(ROUTER_HEAD_D);
    let ghost head = out@;
    let mut k: usize = 0;
    while k < svc.methods.len()
        invariant
            k <= svc.methods.len(),
            snake@ == word_case(svc.name@),
            head + routes_text_from(*svc, 0) == out@ + routes_text_from(*svc, k as int),
        decreases svc.methods.len() - k,
    {
        let ghost out0 = out@;
        let m = &svc.methods[k];
        let path = route_path(svc.package.as_str(), svc.proto_name.as_str(), m.proto_name.as_str());
        let input = trim_quotes(m.input_type.as_str());
        out.append(ROUTE_A);
        out.append(path.as_str());
        out.append(ROUTE_B);
        out.append(input);
        out.append(ROUTE_C);
        out.append(snake.as_str());
        out.append(ROUTE_D);
        out.append(svc.name.as_str());
        out.append(ROUTE_E);
        out.append(m.name.as_str());
        out.append(ROUTE_F);
        proof {
            assert(out@ =~= out0 + route_text(
                word_case(svc.name@),
                svc.name@,
                svc.package@,
                svc.proto_name@,
                svc.methods@[k as int],
            ));
            assert(out0 + routes_text_from(*svc, k as int) =~= out@ + routes_text_from(
                *svc,
                k as int + 1,
            ));
        }
        k = k + 1;
    }
    out.append(ROUTER_FOOT);
    proof {
        assert(out@ =~= service_router_text(*svc));
    }
    out
}

// ---------------------------------------------------------------------------
// The per-package error envelope and package footer.
// ---------------------------------------------------------------------------

pub const ERROR_STRUCTS_TEXT: &'static str =
    "#[derive(Debug, Clone, serde::Serialize, serde::Deserialize)]\npub struct ErrorResponse {\n    pub error: ErrorDetails,\n}\n\n#[derive(Debug, Clone, serde::Serialize, serde::Deserialize)]\npub struct ErrorDetails {\n    pub code: String,\n    pub message: String,\n}\n";

/// The text appended once per package: the JSON error envelope types and,
/// when string-enum support is on and the package has enum fields, the
/// `enum_deserializer` module.
pub fn package_footer(
    files: &Vec<FileDescriptor>,
    package: &str,
    enable_string_enums: bool,
) -> (r: Result<String, GenError>)
    ensures
        ({
            let bs = package_bindings_from(files@, package@, 0);
            match r {
                Ok(t) => {
                    &&& (!(enable_string_enums && bs.len() > 0) ==> t@ == "\n"@
                        + ERROR_STRUCTS_TEXT@)
                    &&& (enable_string_enums && bs.len() > 0 ==> {
                        &&& first_invalid_path_from(bs, 0) is None
                        &&& fragment_well_formed(functions_text_from(bs, 0))
                        &&& t@ == "\n"@ + ERROR_STRUCTS_TEXT@ + "\n"@ + deserializer_module_text(
                            bs,
                        )
                    })
                },
                Err(e) => {
                    &&& enable_string_enums
                    &&& bs.len() > 0
                    &&& match e@ {
                        GenErrorModel::InvalidEnumPath(p) => first_invalid_path_from(bs, 0)
                            == Some(p),
                        GenErrorModel::InvalidFragment => first_invalid_path_from(bs, 0) is None
                            && !fragment_well_formed(functions_text_from(bs, 0)),
                    }
                },
            }
        }),
{
    let mut out = String::new();
    out.append("\n");
    out.append(ERROR_STRUCTS_TEXT);
    if enable_string_enums {
        match generate_package_specific_enum_deserializer_code(files, package) {
            Ok(code) => {
                proof {
                    reveal_strlit("pub mod enum_deserializer {\n    use super::*;\n\n");
                    assert(crate::codegen::MODULE_HEAD@.len() > 0);
                }
                if code.as_str().unicode_len() > 0 {
                    out.append("\n");
                    out.append(code.as_str());
                }
            },
            Err(e) => {
                return Err(e);
            },
        }
    }
    proof {
        let bs = package_bindings_from(files@, package@, 0);
        if enable_string_enums && bs.len() > 0 {
            assert(out@ =~= "\n"@ + ERROR_STRUCTS_TEXT@ + "\n"@ + deserializer_module_text(bs));
        } else {
            assert(out@ =~= "\n"@ + ERROR_STRUCTS_TEXT@);
        }
    }
    Ok(out)
}

} // verus!
