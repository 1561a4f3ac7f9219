//! Responses as plain values: a status, header lines and a body, for the HTTP
//! layer to send as they stand.

use vstd::prelude::*;

verus! {

/// Status of a response that carries what was asked for.
pub const OK: u16 = 200;

/// Status of a response to a request for an object that the bucket lacks.
pub const NOT_FOUND: u16 = 404;

/// Status of a response to a request that failed for any other reason.
pub const INTERNAL_SERVER_ERROR: u16 = 500;

/// One header line.
#[derive(Debug, PartialEq, Eq)]
pub struct Header {
    pub name: String,
    pub value: String,
}

/// Mathematical content of a [`Header`].
pub struct HeaderView {
    pub name: Seq<char>,
    pub value: Seq<char>,
}

impl View for Header {
    type V = HeaderView;

    open spec fn view(&self) -> HeaderView {
        HeaderView { name: self.name@, value: self.value@ }
    }
}

/// What a failed request is answered with, sent as a JSON object with the
/// members `code` and `msg`.
#[derive(Debug, PartialEq, Eq)]
pub struct ErrorPayload {
    /// The status of the response that carries this payload.
    pub code: u16,
    /// Description of what went wrong.
    pub msg: String,
}

/// Mathematical content of an [`ErrorPayload`].
pub struct ErrorPayloadView {
    pub code: u16,
    pub msg: Seq<char>,
}

impl View for ErrorPayload {
    type V = ErrorPayloadView;

    open spec fn view(&self) -> ErrorPayloadView {
        ErrorPayloadView { code: self.code, msg: self.msg@ }
    }
}

/// What a response carries behind its headers.
#[derive(Debug, PartialEq, Eq)]
pub enum Body {
    /// A fixed text.
    Text(String),
    /// The bytes of the object that was fetched, passed on as they arrive and
    /// never gathered in memory.
    Object,
    /// A description of the failure.
    Error(ErrorPayload),
}

/// Mathematical content of a [`Body`].
pub enum BodyView {
    Text(Seq<char>),
    Object,
    Error(ErrorPayloadView),
}

impl View for Body {
    type V = BodyView;

    open spec fn view(&self) -> BodyView {
        match self {
            Body::Text(text) => BodyView::Text(text@),
            Body::Object => BodyView::Object,
            Body::Error(payload) => BodyView::Error(payload@),
        }
    }
}

/// A response, ready to be sent.
#[derive(Debug, PartialEq, Eq)]
pub struct Response {
    pub status: u16,
    pub headers: Vec<Header>,
    pub body: Body,
}

/// Mathematical content of a [`Response`].
pub struct ResponseView {
    pub status: u16,
    pub headers: Seq<HeaderView>,
    pub body: BodyView,
}

impl View for Response {
    type V = ResponseView;

    open spec fn view(&self) -> ResponseView {
        ResponseView {
            status: self.status,
            headers: self.headers@.map_values(|header: Header| header@),
            body: self.body@,
        }
    }
}

impl ResponseView {
    /// Some header line of the response has the name `name`.
    pub open spec fn has_header(self, name: Seq<char>) -> bool {
        exists|i: int| 0 <= i < self.headers.len() && (#[trigger] self.headers[i]).name == name
    }

    /// Some header line of the response has the name `name` and the value
    /// `value`.
    pub open spec fn has_header_with(self, name: Seq<char>, value: Seq<char>) -> bool {
        exists|i: int|
            0 <= i < self.headers.len() && (#[trigger] self.headers[i]) == (HeaderView {
                name,
                value,
            })
    }
}

} // verus!
