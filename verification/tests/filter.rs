use image_registry_checker::filter::{
    check_image, conclude, dispatch, failure_record, health_check, Action, ImageSlug, Reply,
    Request,
};
use image_registry_checker::image_exist::{
    ImageChecker, Invocation, Outcome, ProcessEnd, StreamSink,
};
use image_registry_checker::logging::{Level, LogRecord};

fn slug(image: &str) -> ImageSlug {
    ImageSlug { image: image.to_string() }
}

#[test]
fn health_is_200_ok() {
    assert_eq!(health_check(), Reply { status: 200, body: "Ok".to_string() });
}

#[test]
fn health_request_runs_nothing() {
    let checker = ImageChecker::new("this-binary-does-not-exist");
    let action = dispatch(&checker, Request::Health);
    assert_eq!(action, Action::Respond(Reply { status: 200, body: "Ok".to_string() }));
}

#[test]
fn exists_request_spawns_one_lookup() {
    let checker = ImageChecker::new("crane");
    let action = dispatch(&checker, Request::Exists(slug("docker.io/alpine")));
    assert_eq!(
        action,
        Action::Spawn {
            invocation: Invocation {
                program: "crane".to_string(),
                args: vec!["manifest".to_string(), "docker.io/alpine".to_string()],
                stdout: StreamSink::Discard,
                stderr: StreamSink::Discard,
            },
            slug: slug("docker.io/alpine"),
        }
    );
}

#[test]
fn exists_requests_do_not_interfere() {
    let checker = ImageChecker::new("crane");
    let first = dispatch(&checker, Request::Exists(slug("docker.io/alpine")));
    let second = dispatch(&checker, Request::Exists(slug("docker.io/nginx")));
    let (slug_a, slug_b) = match (first, second) {
        (
            Action::Spawn { invocation: a, slug: slug_a },
            Action::Spawn { invocation: b, slug: slug_b },
        ) => {
            assert_eq!(a.args[1], "docker.io/alpine");
            assert_eq!(b.args[1], "docker.io/nginx");
            (slug_a, slug_b)
        }
        _ => panic!("both requests run a lookup"),
    };
    let (out_b, reply_b, _) = conclude(&slug_b, ProcessEnd::Exited { code: Some(1) });
    let (out_a, reply_a, _) = conclude(&slug_a, ProcessEnd::Exited { code: Some(0) });
    assert_eq!(out_a, Outcome::Exists);
    assert_eq!(reply_a.status, 200);
    assert_eq!(out_b, Outcome::NotFound);
    assert_eq!(reply_b.body, "Image docker.io/nginx does not exist");
}

#[test]
fn reply_for_existing_image() {
    let reply = check_image(&slug("docker.io/alpine"), &Outcome::Exists);
    assert_eq!(reply, Reply { status: 200, body: "ok".to_string() });
}

#[test]
fn reply_for_missing_image() {
    let reply = check_image(&slug("docker.io/nginx"), &Outcome::NotFound);
    assert_eq!(
        reply,
        Reply { status: 404, body: "Image docker.io/nginx does not exist".to_string() }
    );
}

#[test]
fn reply_for_missing_empty_image() {
    let reply = check_image(&slug(""), &Outcome::NotFound);
    assert_eq!(reply, Reply { status: 404, body: "Image  does not exist".to_string() });
}

#[test]
fn reply_for_failed_lookup_hides_the_error() {
    let outcome = Outcome::LookupFailed { error: "permission denied".to_string() };
    let reply = check_image(&slug("docker.io/alpine"), &outcome);
    assert_eq!(reply, Reply { status: 500, body: String::new() });
}

#[test]
fn failed_lookup_is_recorded() {
    let outcome = Outcome::LookupFailed { error: "permission denied".to_string() };
    assert_eq!(
        failure_record(&outcome),
        Some(LogRecord {
            level: Level::Error,
            line: "Spawn of subprocess failed: permission denied".to_string(),
        })
    );
}

#[test]
fn other_outcomes_leave_no_record() {
    assert_eq!(failure_record(&Outcome::Exists), None);
    assert_eq!(failure_record(&Outcome::NotFound), None);
}

#[test]
fn scenario_existing_image() {
    let checker = ImageChecker::new("crane");
    let action = dispatch(&checker, Request::Exists(slug("docker.io/alpine")));
    let query = match action {
        Action::Spawn { slug, .. } => slug,
        Action::Respond(_) => panic!("an existence request runs the lookup"),
    };
    assert_eq!(query, slug("docker.io/alpine"));
    let (outcome, reply, record) = conclude(&query, ProcessEnd::Exited { code: Some(0) });
    assert_eq!(outcome, Outcome::Exists);
    assert_eq!(reply.status, 200);
    assert_eq!(reply.body, "ok");
    assert_eq!(record, None);
}

#[test]
fn scenario_missing_image() {
    let query = slug("docker.io/this-image-does-not-exist-xyz");
    let (outcome, reply, record) = conclude(&query, ProcessEnd::Exited { code: Some(1) });
    assert_eq!(outcome, Outcome::NotFound);
    assert_eq!(reply.status, 404);
    assert!(reply.body.contains("docker.io/this-image-does-not-exist-xyz"));
    assert_eq!(reply.body, "Image docker.io/this-image-does-not-exist-xyz does not exist");
    assert_eq!(record, None);
}

#[test]
fn scenario_missing_executable() {
    let checker = ImageChecker::new("not-existent");
    let action = dispatch(&checker, Request::Exists(slug("docker.io/non-existent")));
    let query = match action {
        Action::Spawn { invocation, slug } => {
            assert_eq!(invocation.program, "not-existent");
            slug
        }
        Action::Respond(_) => panic!("an existence request runs the lookup"),
    };
    let end = ProcessEnd::SpawnFailed { error: "No such file or directory (os error 2)".to_string() };
    let (outcome, reply, record) = conclude(&query, end);
    assert_eq!(
        outcome,
        Outcome::LookupFailed { error: "No such file or directory (os error 2)".to_string() }
    );
    assert_eq!(reply, Reply { status: 500, body: String::new() });
    assert_eq!(
        record,
        Some(LogRecord {
            level: Level::Error,
            line: "Spawn of subprocess failed: No such file or directory (os error 2)".to_string(),
        })
    );
}
