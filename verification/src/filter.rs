//! The two routes of the service: what each request leads to, and which
//! reply answers it.
use vstd::prelude::*;
use vstd::string::*;
use crate::image_exist::{ImageChecker, Invocation, Outcome, ProcessEnd};
use crate::logging::{Level, LogRecord};
use crate::status::{internal_server_error, not_found, ok};

verus! {

/// Query of the `/exists` route.
#[derive(Debug, PartialEq, Eq)]
pub struct ImageSlug {
    /// Reference of an image in a public remote container repository. It is
    /// not validated and never rewritten.
    pub image: String,
}

/// An HTTP reply with a text body.
#[derive(Debug, PartialEq, Eq)]
pub struct Reply {
    pub status: u16,
    pub body: String,
}

impl View for Reply {
    type V = (u16, Seq<char>);

    open spec fn view(&self) -> (u16, Seq<char>) {
        (self.status, self.body@)
    }
}

/// A request that one of the two routes accepted.
#[derive(Debug, PartialEq, Eq)]
pub enum Request {
    /// `GET /health`
    Health,
    /// `GET /exists?image=<ref>`
    Exists(ImageSlug),
}

/// What the server does next for a request.
#[derive(Debug, PartialEq, Eq)]
pub enum Action {
    /// Answer at once.
    Respond(Reply),
    /// Run `invocation` once, then answer `slug` by how the process ended.
    Spawn { invocation: Invocation, slug: ImageSlug },
}

/// Status and body of the liveness reply.
pub open spec fn spec_health_check() -> (u16, Seq<char>) {
    (200u16, "Ok"@)
}

/// Body of the reply for an image that was not found.
pub open spec fn not_found_body(image: Seq<char>) -> Seq<char> {
    "Image "@ + image + " does not exist"@
}

/// Status and body of the reply to a lookup of `image` that ended in
/// `outcome`.
pub open spec fn spec_check_image(image: Seq<char>, outcome: Outcome) -> (u16, Seq<char>) {
    match outcome {
        Outcome::Exists => (200u16, "ok"@),
        Outcome::NotFound => (404u16, not_found_body(image)),
        Outcome::LookupFailed { .. } => (500u16, Seq::<char>::empty()),
    }
}

/// Line that records a lookup that could not be run.
pub open spec fn spawn_failure_line(error: Seq<char>) -> Seq<char> {
    "Spawn of subprocess failed: "@ + error
}

/// Severity and line of the record that an outcome leaves in the log, if
/// it leaves one: only a lookup that could not be run does.
pub open spec fn spec_failure_record(outcome: Outcome) -> Option<(Level, Seq<char>)> {
    match outcome {
        Outcome::LookupFailed { error } => Some((Level::Error, spawn_failure_line(error@))),
        _ => None,
    }
}

/// Severity and line of a record that may be absent.
pub open spec fn record_view(record: Option<LogRecord>) -> Option<(Level, Seq<char>)> {
    match record {
        Some(r) => Some((r.level, r.line@)),
        None => None,
    }
}

/// `part` occurs in `text` as a run of consecutive characters.
pub open spec fn contains_text(text: Seq<char>, part: Seq<char>) -> bool {
    exists|i: int|
        0 <= i && i + part.len() <= text.len() && #[trigger] text.subrange(i, i + part.len())
            == part
}

/// The liveness reply: status 200 and body `Ok`, whatever the state of the
/// lookup tool or of anything else.
pub fn health_check() -> (reply: Reply)
    ensures
        reply@ == spec_health_check(),
{
    Reply { status: ok(), body: String::from_str("Ok") }
}

/// The reply to `GET /exists` once the lookup has ended: 200 `ok` where the
/// image exists, 404 with a body that names the image where it was not
/// found, 500 with an empty body where the lookup could not be run. The
/// error itself is never part of the reply.
pub fn check_image(slug: &ImageSlug, outcome: &Outcome) -> (reply: Reply)
    ensures
        reply@ == spec_check_image(slug.image@, *outcome),
{
    match outcome {
        Outcome::Exists => Reply { status: ok(), body: String::from_str("ok") },
        Outcome::NotFound => Reply {
            status: not_found(),
            body: String::from_str("Image ").concat(slug.image.as_str()).concat(" does not exist"),
        },
        Outcome::LookupFailed { .. } => Reply {
            status: internal_server_error(),
            body: String::new(),
        },
    }
}

/// The record for the server log where a lookup could not be run: an error
/// with the operating system's message. Other outcomes leave no record of
/// their own.
pub fn failure_record(outcome: &Outcome) -> (record: Option<LogRecord>)
    ensures
        record_view(record) == spec_failure_record(*outcome),
{
    match outcome {
        Outcome::LookupFailed { error } => Some(
            LogRecord {
                level: Level::Error,
                line: String::from_str("Spawn of subprocess failed: ").concat(error.as_str()),
            },
        ),
        _ => None,
    }
}

/// Decides what a request leads to. A health request is answered at once
/// and runs nothing. An existence request runs the lookup tool once, for
/// the image of that request; its query is handed on for the reply.
pub fn dispatch(checker: &ImageChecker, request: Request) -> (action: Action)
    ensures
        match request {
            Request::Health => action matches Action::Respond(reply) && reply@
                == spec_health_check(),
            Request::Exists(query) => action matches Action::Spawn { invocation, slug }
                && invocation.is_manifest_lookup(checker@, query.image@) && slug == query,
        },
{
    match request {
        Request::Health => Action::Respond(health_check()),
        Request::Exists(slug) => {
            let invocation = checker.invocation(slug.image.as_str());
            Action::Spawn { invocation, slug }
        },
    }
}

/// Ends an existence request: the outcome that the process end stands for,
/// the reply, and the record for the log where the lookup failed.
pub fn conclude(slug: &ImageSlug, end: ProcessEnd) -> (served: (Outcome, Reply, Option<LogRecord>))
    ensures
        served.0 == Outcome::spec_of(end),
        served.1@ == spec_check_image(slug.image@, served.0),
        record_view(served.2) == spec_failure_record(served.0),
{
    let outcome = Outcome::of(end);
    let reply = check_image(slug, &outcome);
    let record = failure_record(&outcome);
    (outcome, reply, record)
}

/// Whatever the image: where the lookup tool exits with code 0, the lookup
/// says that the image exists, and the request is answered with status 200
/// and the body `ok`; nothing is logged for the lookup.
pub proof fn lemma_zero_exit_is_ok(image: Seq<char>)
    ensures
        Outcome::spec_of(ProcessEnd::Exited { code: Some(0i32) }) == Outcome::Exists,
        spec_check_image(image, Outcome::spec_of(ProcessEnd::Exited { code: Some(0i32) })) == (
            200u16,
            "ok"@,
        ),
        spec_failure_record(Outcome::spec_of(ProcessEnd::Exited { code: Some(0i32) })) is None,
{
}

/// Whatever the image: where the lookup tool ends in any other way than
/// with exit code 0, the lookup says that the image was not found, and the
/// request is answered with status 404 and a body in which the image
/// reference occurs, unchanged.
pub proof fn lemma_nonzero_exit_is_not_found(image: Seq<char>, code: Option<i32>)
    requires
        code != Some(0i32),
    ensures
        Outcome::spec_of(ProcessEnd::Exited { code }) == Outcome::NotFound,
        spec_check_image(image, Outcome::spec_of(ProcessEnd::Exited { code })).0 == 404,
        spec_check_image(image, Outcome::spec_of(ProcessEnd::Exited { code })).1
            == not_found_body(image),
        contains_text(
            spec_check_image(image, Outcome::spec_of(ProcessEnd::Exited { code })).1,
            image,
        ),
{
    reveal_strlit("Image ");
    let body = not_found_body(image);
    let start = "Image "@.len() as int;
    assert(body.subrange(start, start + image.len()) =~= image);
}

/// Whatever the image: where the lookup tool could not be run, the lookup
/// has failed and keeps the error, the request is answered with status 500
/// and an empty body, and the error is recorded in the log at error
/// severity.
pub proof fn lemma_failed_spawn_is_server_error(image: Seq<char>, error: String)
    ensures
        Outcome::spec_of(ProcessEnd::SpawnFailed { error }) == (Outcome::LookupFailed { error }),
        spec_check_image(image, Outcome::spec_of(ProcessEnd::SpawnFailed { error })) == (
            500u16,
            Seq::<char>::empty(),
        ),
        spec_failure_record(Outcome::spec_of(ProcessEnd::SpawnFailed { error })) == Some(
            (Level::Error, spawn_failure_line(error@)),
        ),
        contains_text(spawn_failure_line(error@), error@),
{
    let line = spawn_failure_line(error@);
    let start = "Spawn of subprocess failed: "@.len() as int;
    assert(line.subrange(start, start + error@.len()) =~= error@);
}

/// A command line that looks an image up belongs to that image and that
/// tool alone: the lookups of two requests share a command line only where
/// they ask for the same image with the same tool.
pub proof fn lemma_invocation_names_its_image(
    inv: Invocation,
    cmd_a: Seq<char>,
    image_a: Seq<char>,
    cmd_b: Seq<char>,
    image_b: Seq<char>,
)
    requires
        inv.is_manifest_lookup(cmd_a, image_a),
        inv.is_manifest_lookup(cmd_b, image_b),
    ensures
        cmd_a == cmd_b,
        image_a == image_b,
{
    assert(seq!["manifest"@, image_a][1] == image_a);
    assert(seq!["manifest"@, image_b][1] == image_b);
}

} // verus!
