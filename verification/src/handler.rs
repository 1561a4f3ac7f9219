//! Request handling: which path asks for what, what to fetch for it, and how
//! the outcome of the fetch is answered.
//!
//! A request runs in three steps. [`route`] tells the health check from a
//! request for an object. For an object, [`FetchRequest::new`] names what to
//! fetch; the caller fetches it and reports a [`FetchOutcome`]. [`serve`] turns
//! the outcome into the response.

use vstd::prelude::*;
use crate::config::Configuration;
use crate::response::{
    Body, BodyView, ErrorPayload, ErrorPayloadView, Header, HeaderView, Response, ResponseView,
    INTERNAL_SERVER_ERROR, NOT_FOUND, OK,
};
use crate::text::{contains, has_substring, text_of};

verus! {

/// What a request path asks for.
#[derive(Debug, PartialEq, Eq)]
pub enum Route {
    /// The health check.
    Health,
    /// The object stored under `key`.
    Object { key: String },
}

/// Mathematical content of a [`Route`].
pub enum RouteView {
    Health,
    Object { key: Seq<char> },
}

impl View for Route {
    type V = RouteView;

    open spec fn view(&self) -> RouteView {
        match self {
            Route::Health => RouteView::Health,
            Route::Object { key } => RouteView::Object { key: key@ },
        }
    }
}

/// What the path with the tail `tail` asks for, the tail being all that
/// follows the leading slash. The bare root is the health check; every other
/// path names an object by its whole tail, further slashes included.
pub open spec fn route_for(tail: Seq<char>) -> RouteView {
    if tail.len() == 0 {
        RouteView::Health
    } else {
        RouteView::Object { key: tail }
    }
}

/// Tells what a request asks for from the tail of its path.
pub fn route(tail: String) -> (route: Route)
    ensures
        route@ == route_for(tail@),
{
    if tail.as_str().is_empty() {
        Route::Health
    } else {
        Route::Object { key: tail }
    }
}

/// One fetch from the object store: a key in the configured bucket.
#[derive(Debug, PartialEq, Eq)]
pub struct FetchRequest {
    bucket: String,
    key: String,
}

/// Mathematical content of a [`FetchRequest`].
pub struct FetchRequestView {
    pub bucket: Seq<char>,
    pub key: Seq<char>,
}

impl View for FetchRequest {
    type V = FetchRequestView;

    closed spec fn view(&self) -> FetchRequestView {
        FetchRequestView { bucket: self.bucket@, key: self.key@ }
    }
}

impl FetchRequest {
    #[verifier::type_invariant]
    spec fn well_formed(&self) -> bool {
        self.bucket@.len() > 0
    }

    /// The fetch for `key`: the configured bucket, and the key as it was
    /// asked for, unchanged and unchecked.
    pub fn new(config: &Configuration, key: String) -> (request: FetchRequest)
        ensures
            request@ == (FetchRequestView { bucket: config@.bucket, key: key@ }),
    {
        FetchRequest { bucket: config.bucket().to_owned(), key }
    }

    /// The bucket to fetch from. Never empty.
    pub fn bucket(&self) -> (bucket: &str)
        ensures
            bucket@ == self@.bucket,
            bucket@.len() > 0,
    {
        proof {
            use_type_invariant(self);
        }
        self.bucket.as_str()
    }

    /// The key to fetch.
    pub fn key(&self) -> (key: &str)
        ensures
            key@ == self@.key,
    {
        self.key.as_str()
    }
}

/// How a fetch ended.
#[derive(Debug, PartialEq, Eq)]
pub enum FetchOutcome {
    /// The store has the object. `content_type` is the type that the store
    /// records for it, if it records one.
    Found { content_type: Option<String> },
    /// The fetch failed. `cause` is the description of the innermost error.
    Failed { cause: String },
}

/// Mathematical content of a [`FetchOutcome`].
pub enum FetchOutcomeView {
    Found { content_type: Option<Seq<char>> },
    Failed { cause: Seq<char> },
}

impl View for FetchOutcome {
    type V = FetchOutcomeView;

    open spec fn view(&self) -> FetchOutcomeView {
        match self {
            FetchOutcome::Found { content_type } => FetchOutcomeView::Found {
                content_type: text_of(*content_type),
            },
            FetchOutcome::Failed { cause } => FetchOutcomeView::Failed { cause: cause@ },
        }
    }
}

/// A failure is an absent object exactly when its description holds the
/// store's marker for a key that does not exist.
pub open spec fn is_not_found(cause: Seq<char>) -> bool {
    has_substring(cause, "NoSuchKey"@)
}

/// The status that a failure is answered with.
pub open spec fn failure_status_for(cause: Seq<char>) -> u16 {
    if is_not_found(cause) {
        NOT_FOUND
    } else {
        INTERNAL_SERVER_ERROR
    }
}

/// The header that lets caches keep a response for one year.
pub open spec fn cache_control_header() -> HeaderView {
    HeaderView { name: "Cache-Control"@, value: "public, max-age=31536000"@ }
}

/// The content type of an object: the one the store records, else that of
/// arbitrary bytes.
pub open spec fn content_type_for(recorded: Option<Seq<char>>) -> Seq<char> {
    match recorded {
        Some(content_type) => content_type,
        None => "application/octet-stream"@,
    }
}

/// The headers of the response that carries an object.
pub open spec fn object_headers(
    cache_control_enabled: bool,
    recorded: Option<Seq<char>>,
) -> Seq<HeaderView> {
    let content_type = HeaderView { name: "Content-Type"@, value: content_type_for(recorded) };
    if cache_control_enabled {
        seq![cache_control_header(), content_type]
    } else {
        seq![content_type]
    }
}

/// The headers of the response to a failed fetch: its payload is JSON, and
/// it says so. It never carries the cache header, so that no failure is kept
/// by a cache.
pub open spec fn failure_headers() -> Seq<HeaderView> {
    seq![HeaderView { name: "Content-Type"@, value: "application/json"@ }]
}

/// The response to a request for an object, given how the fetch ended.
pub open spec fn response_for(cache_control_enabled: bool, outcome: FetchOutcomeView) -> ResponseView {
    match outcome {
        FetchOutcomeView::Found { content_type } => ResponseView {
            status: OK,
            headers: object_headers(cache_control_enabled, content_type),
            body: BodyView::Object,
        },
        FetchOutcomeView::Failed { cause } => ResponseView {
            status: failure_status_for(cause),
            headers: failure_headers(),
            body: BodyView::Error(
                ErrorPayloadView { code: failure_status_for(cause), msg: cause },
            ),
        },
    }
}

/// The response to the health check.
pub open spec fn health_response() -> ResponseView {
    ResponseView { status: OK, headers: Seq::empty(), body: BodyView::Text("Server is running"@) }
}

/// The status that a failure with the description `cause` is answered with.
pub fn failure_status(cause: &str) -> (status: u16)
    ensures
        status == failure_status_for(cause@),
{
    if contains(cause, "NoSuchKey") {
        NOT_FOUND
    } else {
        INTERNAL_SERVER_ERROR
    }
}

/// Answers a request for an object, given how the fetch ended.
///
/// An object that was found is passed on with status 200 under its content
/// type, with the cache header where the configuration asks for it. A failure
/// is answered with status 404 where the object does not exist and 500
/// otherwise, under the content type of JSON and without the cache header,
/// and with a payload that repeats the status and the cause.
pub fn serve(config: &Configuration, outcome: FetchOutcome) -> (response: Response)
    ensures
        response@ == response_for(config@.cache_control_enabled, outcome@),
{
    match outcome {
        FetchOutcome::Found { content_type } => {
            let mut headers: Vec<Header> = Vec::new();
            if config.cache_control_enabled() {
                headers.push(
                    Header {
                        name: "Cache-Control".to_owned(),
                        value: "public, max-age=31536000".to_owned(),
                    },
                );
            }
            let value = match content_type {
                Some(recorded) => recorded,
                None => "application/octet-stream".to_owned(),
            };
            headers.push(Header { name: "Content-Type".to_owned(), value });
            let response = Response { status: OK, headers, body: Body::Object };
            assert(response@.headers =~= object_headers(
                config@.cache_control_enabled,
                outcome@->content_type,
            ));
            response
        },
        FetchOutcome::Failed { cause } => {
            let status = failure_status(cause.as_str());
            let mut headers: Vec<Header> = Vec::new();
            headers.push(
                Header { name: "Content-Type".to_owned(), value: "application/json".to_owned() },
            );
            let response = Response {
                status,
                headers,
                body: Body::Error(ErrorPayload { code: status, msg: cause }),
            };
            assert(response@.headers =~= failure_headers());
            response
        },
    }
}

/// Answers the health check. The answer is always the same: nothing is asked
/// of the object store and nothing is read from the configuration.
pub fn index() -> (response: Response)
    ensures
        response@ == health_response(),
{
    let response = Response {
        status: OK,
        headers: Vec::new(),
        body: Body::Text("Server is running".to_owned()),
    };
    assert(response@.headers =~= Seq::empty());
    response
}

/// The bare root is the health check, whose answer is fixed. Every other path
/// asks the store for the object named by its whole tail.
pub proof fn lemma_only_the_root_is_the_health_check(tail: Seq<char>)
    ensures
        tail.len() == 0 ==> route_for(tail) == RouteView::Health,
        tail.len() > 0 ==> route_for(tail) == (RouteView::Object { key: tail }),
        health_response().status == 200,
        health_response().body == BodyView::Text("Server is running"@),
{
}

/// An object that the store has is answered with status 200 and the object's
/// own bytes, under exactly one content type: the one the store records for
/// it, or that of arbitrary bytes where it records none. The cache setting
/// changes none of this.
pub proof fn lemma_found_object_is_passed_on(
    cache_control_enabled: bool,
    recorded: Option<Seq<char>>,
)
    ensures
        ({
            let response = response_for(
                cache_control_enabled,
                FetchOutcomeView::Found { content_type: recorded },
            );
            &&& response.status == 200
            &&& response.body == BodyView::Object
            &&& response.has_header_with("Content-Type"@, content_type_for(recorded))
            &&& forall|i: int|
                0 <= i < response.headers.len() && (#[trigger] response.headers[i]).name
                    == "Content-Type"@ ==> response.headers[i].value == content_type_for(recorded)
        }),
{
    reveal_strlit("Content-Type");
    reveal_strlit("Cache-Control");
    let response = response_for(
        cache_control_enabled,
        FetchOutcomeView::Found { content_type: recorded },
    );
    let at = if cache_control_enabled {
        1int
    } else {
        0int
    };
    assert(response.headers[at] == (HeaderView {
        name: "Content-Type"@,
        value: content_type_for(recorded),
    }));
    assert("Cache-Control"@[1] != "Content-Type"@[1]);
}

/// A failure whose cause says that the key does not exist is answered with
/// status 404, the one header `Content-Type: application/json`, and a payload
/// that holds 404 and the cause as it was reported.
pub proof fn lemma_absent_object_is_not_found(cache_control_enabled: bool, cause: Seq<char>)
    requires
        is_not_found(cause),
    ensures
        response_for(cache_control_enabled, FetchOutcomeView::Failed { cause }) == (ResponseView {
            status: 404,
            headers: seq![HeaderView { name: "Content-Type"@, value: "application/json"@ }],
            body: BodyView::Error(ErrorPayloadView { code: 404, msg: cause }),
        }),
{
}

/// Every other failure is answered with status 500, the one header
/// `Content-Type: application/json`, and a payload that holds 500 and the
/// cause as it was reported.
pub proof fn lemma_other_failure_is_internal_error(cache_control_enabled: bool, cause: Seq<char>)
    requires
        !is_not_found(cause),
    ensures
        response_for(cache_control_enabled, FetchOutcomeView::Failed { cause }) == (ResponseView {
            status: 500,
            headers: seq![HeaderView { name: "Content-Type"@, value: "application/json"@ }],
            body: BodyView::Error(ErrorPayloadView { code: 500, msg: cause }),
        }),
{
}

/// Whatever the cache setting, a failure is answered with status 404 or 500,
/// says that its payload is JSON, repeats its status in the payload, and has
/// no cache header.
pub proof fn lemma_failure_is_sent_as_json(cache_control_enabled: bool, cause: Seq<char>)
    ensures
        ({
            let response = response_for(cache_control_enabled, FetchOutcomeView::Failed { cause });
            &&& response.status == 404 || response.status == 500
            &&& response.has_header_with("Content-Type"@, "application/json"@)
            &&& !response.has_header("Cache-Control"@)
            &&& response.body == BodyView::Error(
                ErrorPayloadView { code: response.status, msg: cause },
            )
        }),
{
    reveal_strlit("Content-Type");
    reveal_strlit("Cache-Control");
    let response = response_for(cache_control_enabled, FetchOutcomeView::Failed { cause });
    assert("Cache-Control"@[1] != "Content-Type"@[1]);
    assert(response.headers[0] == (HeaderView {
        name: "Content-Type"@,
        value: "application/json"@,
    }));
}

/// With the cache setting on, every response that carries an object has the
/// header `Cache-Control: public, max-age=31536000`. With the setting off, no
/// response to a request for an object has a header of that name. Failures
/// never have one, and neither does the answer to the health check.
pub proof fn lemma_cache_control_follows_setting(
    cache_control_enabled: bool,
    outcome: FetchOutcomeView,
)
    ensures
        ({
            let response = response_for(cache_control_enabled, outcome);
            &&& cache_control_enabled && outcome is Found ==> response.status == 200
                && response.has_header_with("Cache-Control"@, "public, max-age=31536000"@)
            &&& !cache_control_enabled || outcome is Failed ==> !response.has_header(
                "Cache-Control"@,
            )
        }),
        !health_response().has_header("Cache-Control"@),
{
    reveal_strlit("Content-Type");
    reveal_strlit("Cache-Control");
    let response = response_for(cache_control_enabled, outcome);
    assert("Cache-Control"@[1] != "Content-Type"@[1]);
    if cache_control_enabled && outcome is Found {
        assert(response.headers[0] == (HeaderView {
            name: "Cache-Control"@,
            value: "public, max-age=31536000"@,
        }));
    }
}

} // verus!
