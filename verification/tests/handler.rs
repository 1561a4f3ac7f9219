use bucket_proxy::config::{AddressSetting, Configuration, Environment};
use bucket_proxy::handler::{failure_status, index, route, serve, FetchOutcome, FetchRequest, Route};
use bucket_proxy::response::{
    Body, ErrorPayload, Header, Response, INTERNAL_SERVER_ERROR, NOT_FOUND, OK,
};

fn configuration(bucket: &str, cache_control: Option<&str>) -> Configuration {
    let env = Environment {
        bucket: Some(String::from(bucket)),
        endpoint: None,
        access_key_id: false,
        secret_access_key: false,
        address: AddressSetting::Unset,
        port: None,
        cache_control: cache_control.map(String::from),
    };
    Configuration::load(env).unwrap()
}

fn header(name: &str, value: &str) -> Header {
    Header { name: String::from(name), value: String::from(value) }
}

fn found(content_type: Option<&str>) -> FetchOutcome {
    FetchOutcome::Found { content_type: content_type.map(String::from) }
}

fn failed(cause: &str) -> FetchOutcome {
    FetchOutcome::Failed { cause: String::from(cause) }
}

fn failure(status: u16, cause: &str) -> Response {
    Response {
        status,
        headers: vec![header("Content-Type", "application/json")],
        body: Body::Error(ErrorPayload { code: status, msg: String::from(cause) }),
    }
}

#[test]
fn statuses_have_their_numbers() {
    assert_eq!(OK, 200);
    assert_eq!(NOT_FOUND, 404);
    assert_eq!(INTERNAL_SERVER_ERROR, 500);
}

#[test]
fn route_sends_the_root_to_the_health_check() {
    assert_eq!(route(String::new()), Route::Health);
}

#[test]
fn route_sends_every_other_path_to_the_store() {
    assert_eq!(route(String::from("logo.png")), Route::Object { key: String::from("logo.png") });
    assert_eq!(route(String::from("missing.png")), Route::Object { key: String::from("missing.png") });
    assert_eq!(route(String::from(" ")), Route::Object { key: String::from(" ") });
}

#[test]
fn route_keeps_slashes_in_the_key() {
    assert_eq!(route(String::from("a/b/c.txt")), Route::Object { key: String::from("a/b/c.txt") });
    assert_eq!(route(String::from("/")), Route::Object { key: String::from("/") });
    assert_eq!(route(String::from("dir/")), Route::Object { key: String::from("dir/") });
}

#[test]
fn fetch_request_names_the_configured_bucket_and_the_key() {
    let config = configuration("assets", None);
    let request = FetchRequest::new(&config, String::from("logo.png"));
    assert_eq!(request.bucket(), "assets");
    assert_eq!(request.key(), "logo.png");
}

#[test]
fn fetch_request_leaves_the_key_as_it_is() {
    let config = configuration("assets", None);
    for key in ["", "img/2024/logo.png", "/", "a b", "%2e%2e", "caf\u{e9}.txt", "..", "x?y=z"] {
        let request = FetchRequest::new(&config, String::from(key));
        assert_eq!(request.bucket(), "assets");
        assert_eq!(request.key(), key);
    }
}

#[test]
fn serve_passes_a_found_object_on_under_its_content_type() {
    let config = configuration("assets", None);
    assert_eq!(
        serve(&config, found(Some("image/png"))),
        Response { status: 200, headers: vec![header("Content-Type", "image/png")], body: Body::Object }
    );
}

#[test]
fn serve_falls_back_to_octet_stream() {
    let config = configuration("assets", None);
    assert_eq!(
        serve(&config, found(None)),
        Response {
            status: 200,
            headers: vec![header("Content-Type", "application/octet-stream")],
            body: Body::Object,
        }
    );
}

#[test]
fn serve_keeps_an_empty_content_type() {
    let config = configuration("assets", None);
    assert_eq!(
        serve(&config, found(Some(""))),
        Response { status: 200, headers: vec![header("Content-Type", "")], body: Body::Object }
    );
}

#[test]
fn serve_adds_the_cache_header_when_enabled() {
    let config = configuration("assets", Some("true"));
    assert_eq!(
        serve(&config, found(Some("image/png"))),
        Response {
            status: 200,
            headers: vec![
                header("Cache-Control", "public, max-age=31536000"),
                header("Content-Type", "image/png"),
            ],
            body: Body::Object,
        }
    );
    let config = configuration("assets", Some("TRUE"));
    assert_eq!(
        serve(&config, found(None)),
        Response {
            status: 200,
            headers: vec![
                header("Cache-Control", "public, max-age=31536000"),
                header("Content-Type", "application/octet-stream"),
            ],
            body: Body::Object,
        }
    );
}

#[test]
fn serve_leaves_the_cache_header_out_when_disabled() {
    for setting in [None, Some("false"), Some("1"), Some("")] {
        let config = configuration("assets", setting);
        let response = serve(&config, found(Some("text/css")));
        assert_eq!(response.status, 200);
        assert!(response.headers.iter().all(|h| h.name != "Cache-Control"), "{:?}", setting);
    }
}

#[test]
fn serve_answers_a_missing_key_with_not_found() {
    let config = configuration("assets", None);
    let cause = "NoSuchKey: The specified key does not exist.";
    assert_eq!(serve(&config, failed(cause)), failure(404, cause));
    assert_eq!(serve(&config, failed("NoSuchKey")), failure(404, "NoSuchKey"));
    let cause = "service error: NoSuchKey (request id 4442587FB7D0A2F9)";
    assert_eq!(serve(&config, failed(cause)), failure(404, cause));
}

#[test]
fn serve_answers_every_other_failure_with_internal_error() {
    let config = configuration("assets", None);
    for cause in [
        "",
        "AccessDenied: Access Denied",
        "NoSuchBucket: The specified bucket does not exist",
        "dispatch failure",
        "connection refused",
        "request has timed out",
        "nosuchkey",
        "No Such Key",
        "NoSuchKe",
    ] {
        assert_eq!(serve(&config, failed(cause)), failure(500, cause), "{:?}", cause);
    }
}

#[test]
fn serve_never_adds_the_cache_header_to_a_failure() {
    let config = configuration("assets", Some("true"));
    assert_eq!(serve(&config, failed("NoSuchKey")), failure(404, "NoSuchKey"));
    assert_eq!(serve(&config, failed("AccessDenied")), failure(500, "AccessDenied"));
    for cause in ["NoSuchKey", "AccessDenied"] {
        let response = serve(&config, failed(cause));
        assert!(response.headers.iter().all(|h| h.name != "Cache-Control"), "{:?}", cause);
    }
}

#[test]
fn serve_sends_every_failure_as_json() {
    for setting in [None, Some("true")] {
        let config = configuration("assets", setting);
        for cause in ["NoSuchKey: gone", "AccessDenied", ""] {
            let response = serve(&config, failed(cause));
            assert_eq!(response.headers, vec![header("Content-Type", "application/json")], "{:?}", cause);
        }
    }
}

#[test]
fn index_names_no_content_type() {
    assert!(index().headers.is_empty());
}

#[test]
fn serve_repeats_the_status_in_the_payload() {
    let config = configuration("assets", None);
    for cause in ["NoSuchKey: gone", "boom"] {
        let response = serve(&config, failed(cause));
        match response.body {
            Body::Error(payload) => {
                assert_eq!(payload.code, response.status);
                assert_eq!(payload.msg, cause);
            }
            other => panic!("{:?}", other),
        }
    }
}

#[test]
fn failure_status_looks_for_the_marker() {
    assert_eq!(failure_status("NoSuchKey"), 404);
    assert_eq!(failure_status("xNoSuchKeyx"), 404);
    assert_eq!(failure_status("NoSuchKey: The specified key does not exist."), 404);
    assert_eq!(failure_status(""), 500);
    assert_eq!(failure_status("NoSuchBucket"), 500);
    assert_eq!(failure_status("NOSUCHKEY"), 500);
    assert_eq!(failure_status("NoSuch Key"), 500);
}

#[test]
fn index_reports_that_the_server_is_running() {
    assert_eq!(
        index(),
        Response { status: 200, headers: vec![], body: Body::Text(String::from("Server is running")) }
    );
}

#[test]
fn index_is_always_the_same() {
    assert_eq!(index(), index());
}

#[test]
fn logo_is_served_and_missing_is_not_found() {
    let config = configuration("assets", None);

    let logo = match route(String::from("logo.png")) {
        Route::Object { key } => FetchRequest::new(&config, key),
        Route::Health => panic!("logo.png is no health check"),
    };
    assert_eq!(logo.bucket(), "assets");
    assert_eq!(logo.key(), "logo.png");
    let response = serve(&config, found(Some("image/png")));
    assert_eq!(response.status, 200);
    assert_eq!(response.headers, vec![header("Content-Type", "image/png")]);
    assert_eq!(response.body, Body::Object);

    let missing = match route(String::from("missing.png")) {
        Route::Object { key } => FetchRequest::new(&config, key),
        Route::Health => panic!("missing.png is no health check"),
    };
    assert_eq!(missing.bucket(), "assets");
    assert_eq!(missing.key(), "missing.png");
    let response = serve(&config, failed("NoSuchKey: The specified key does not exist."));
    assert_eq!(response.status, 404);
    match response.body {
        Body::Error(payload) => {
            assert_eq!(payload.code, 404);
            assert!(payload.msg.contains("NoSuchKey"));
        }
        other => panic!("{:?}", other),
    }
}
