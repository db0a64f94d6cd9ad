//! Serving the bundled Swagger UI: the redirect to its root, and the reply
//! for each file that `utoipa_swagger_ui` hands out.
use vstd::prelude::*;
use vstd::string::*;
use std::sync::Arc;
use utoipa_swagger_ui::Config;
use crate::status::{found, internal_server_error, not_found, ok};

verus! {

/// A file of the Swagger UI.
#[derive(Debug, PartialEq, Eq)]
pub struct SwaggerFile {
    /// Content type of the file, such as `text/html`.
    pub content_type: String,
    /// Content of the file.
    pub bytes: Vec<u8>,
}

/// Reply of the Swagger UI route.
#[derive(Debug, PartialEq, Eq)]
pub enum SwaggerReply {
    /// Redirect to `location`.
    Redirect { location: String },
    /// The file, with its content type.
    File(SwaggerFile),
    /// No such file.
    NotFound,
    /// The file could not be prepared; `message` is the body.
    Failed { message: String },
}

impl SwaggerReply {
    /// The HTTP status of the reply.
    pub open spec fn spec_status(&self) -> u16 {
        match self {
            SwaggerReply::Redirect { .. } => 302,
            SwaggerReply::File(_) => 200,
            SwaggerReply::NotFound => 404,
            SwaggerReply::Failed { .. } => 500,
        }
    }

    /// The HTTP status of the reply: 302 for the redirect, 200 for a file,
    /// 404 where there is none, 500 where it could not be prepared.
    pub fn status(&self) -> (code: u16)
        ensures
            code == self.spec_status(),
    {
        match self {
            SwaggerReply::Redirect { .. } => found(),
            SwaggerReply::File(_) => ok(),
            SwaggerReply::NotFound => not_found(),
            SwaggerReply::Failed { .. } => internal_server_error(),
        }
    }
}

/// The reply for what the Swagger UI bundle handed out.
pub open spec fn spec_swagger_reply(served: Result<Option<SwaggerFile>, String>) -> SwaggerReply {
    match served {
        Ok(Some(file)) => SwaggerReply::File(file),
        Ok(None) => SwaggerReply::NotFound,
        Err(message) => SwaggerReply::Failed { message },
    }
}

/// Turns what the Swagger UI bundle handed out into a reply: the file
/// itself, "not found" where the bundle has no such file, and a failure
/// that carries the error's text.
pub fn swagger_reply(served: Result<Option<SwaggerFile>, String>) -> (reply: SwaggerReply)
    ensures
        reply == spec_swagger_reply(served),
{
    match served {
        Ok(file) => match file {
            Some(file) => SwaggerReply::File(file),
            None => SwaggerReply::NotFound,
        },
        Err(message) => SwaggerReply::Failed { message },
    }
}

/// Whether two string slices hold the same characters in the same order.
fn same_text(a: &str, b: &str) -> (same: bool)
    ensures
        same == (a@ == b@),
{
    String::from_str(a) == String::from_str(b)
}

/// `utoipa_swagger_ui::serve` for the file at `tail`, with a `Config` made
/// from the one API document at `doc_url`. The file's parts are moved into
/// a `SwaggerFile`, an error is turned into its text. Nothing is claimed
/// of the result: the bundle decides which files there are.
#[verifier::external_body]
fn serve_asset(tail: &str, doc_url: &str) -> (served: Result<Option<SwaggerFile>, String>) {
    match utoipa_swagger_ui::serve(tail, Arc::new(Config::from(doc_url))) {
        Ok(Some(file)) => Ok(
            Some(SwaggerFile { content_type: file.content_type, bytes: file.bytes.into_owned() }),
        ),
        Ok(None) => Ok(None),
        Err(error) => Err(error.to_string()),
    }
}

/// Where a request under `/swagger-ui` goes.
#[derive(Debug, PartialEq, Eq)]
pub enum SwaggerRoute {
    /// The client is sent on to `location`; the bundle is not asked.
    Redirect { location: String },
    /// The bundle is asked for the file at `path`.
    Asset { path: String },
}

/// Routes a request under `/swagger-ui`. `full_path` is the whole request
/// path, `tail` what follows `/swagger-ui/` in it.
///
/// The bare path `/swagger-ui` is redirected to `/swagger-ui/`. For every
/// other path the bundle is asked for the tail, unchanged, never for the
/// whole path.
pub fn swagger_route(full_path: &str, tail: &str) -> (route: SwaggerRoute)
    ensures
        full_path@ == "/swagger-ui"@ ==> (route matches SwaggerRoute::Redirect { location }
            && location@ == "/swagger-ui/"@),
        full_path@ != "/swagger-ui"@ ==> (route matches SwaggerRoute::Asset { path } && path@
            == tail@),
{
    if same_text(full_path, "/swagger-ui") {
        SwaggerRoute::Redirect { location: String::from_str("/swagger-ui/") }
    } else {
        SwaggerRoute::Asset { path: String::from_str(tail) }
    }
}

/// Answers a request under `/swagger-ui`. `full_path` is the whole request
/// path, `tail` what follows `/swagger-ui/` in it, `doc_url` the address of
/// the API document that the UI loads.
///
/// The request goes where [`swagger_route`] sends it. The bare path
/// `/swagger-ui` is redirected to `/swagger-ui/`; the bundle is not asked.
/// For every other path the bundle is asked once, for the routed path, and
/// what it hands out is answered by [`swagger_reply`]: never a redirect.
pub fn serve_swagger(full_path: &str, tail: &str, doc_url: &str) -> (reply: SwaggerReply)
    ensures
        full_path@ == "/swagger-ui"@ ==> (reply matches SwaggerReply::Redirect { location }
            && location@ == "/swagger-ui/"@),
        full_path@ != "/swagger-ui"@ ==> exists|served: Result<Option<SwaggerFile>, String>|
            reply == spec_swagger_reply(served),
{
    match swagger_route(full_path, tail) {
        SwaggerRoute::Redirect { location } => SwaggerReply::Redirect { location },
        SwaggerRoute::Asset { path } => {
            let served = serve_asset(path.as_str(), doc_url);
            let ghost handed_out = served;
            let reply = swagger_reply(served);
            assert(reply == spec_swagger_reply(handed_out));
            reply
        },
    }
}

} // verus!
