//! The HTTP face of the outcomes: status codes, headers and bodies.

use vstd::prelude::*;
use crate::link::{Link, LinkView};
use crate::mutator::{
    create, create_outcome, update, update_outcome, CreateOutcome, CreateOutcomeView,
    UpdateOutcome, UpdateOutcomeView,
};
use crate::resolver::{redirect_outcome, resolve, RedirectOutcome, RedirectOutcomeView};
use crate::store::{InsertReply, LookupReply, StoreErrorKind, UpdateReply};

verus! {

pub const STATUS_OK: u16 = 200;

pub const STATUS_CREATED: u16 = 201;

pub const STATUS_TEMPORARY_REDIRECT: u16 = 307;

pub const STATUS_NOT_FOUND: u16 = 404;

pub const STATUS_CONFLICT: u16 = 409;

pub const STATUS_INTERNAL_SERVER_ERROR: u16 = 500;

/// The caching policy sent with every redirect.
pub const DEFAULT_CACHE_CONTROL_HEADER_VALUE: &'static str =
    "public, max-age=300, s-maxage=300, stale-while-revalidate=300, stale-if-error=300";

pub const LOCATION_HEADER: &'static str = "Location";

pub const CACHE_CONTROL_HEADER: &'static str = "Cache-Control";

/// The body sent when the identifier is unknown.
pub const NOT_FOUND_BODY: &'static str = "not found";

/// The body sent when the identifier of a new link is taken.
pub const CONFLICT_BODY: &'static str = "conflict";

/// The body sent for a missed deadline or a failure of the store. It says
/// nothing of the cause.
pub const INTERNAL_ERROR_BODY: &'static str = "internal error";

/// The body sent by the liveness probe.
pub const HEALTHY_BODY: &'static str = "Service is healthy!";

/// One header line of a response.
#[derive(Debug, Clone, PartialEq, Eq)]
pub struct Header {
    pub name: String,
    pub value: String,
}

/// The mathematical value of a [`Header`].
pub struct HeaderView {
    pub name: Seq<char>,
    pub value: Seq<char>,
}

impl View for Header {
    type V = HeaderView;

    open spec fn view(&self) -> HeaderView {
        HeaderView { name: self.name@, value: self.value@ }
    }
}

/// What a response carries after its headers.
#[derive(Debug, Clone, PartialEq, Eq)]
pub enum Body {
    /// Nothing.
    Empty,
    /// Plain text.
    Text(String),
    /// A link, to be written as a JSON object.
    Json(Link),
}

/// The mathematical value of a [`Body`].
pub enum BodyView {
    Empty,
    Text(Seq<char>),
    Json(LinkView),
}

impl View for Body {
    type V = BodyView;

    open spec fn view(&self) -> BodyView {
        match self {
            Body::Empty => BodyView::Empty,
            Body::Text(text) => BodyView::Text(text@),
            Body::Json(link) => BodyView::Json(link@),
        }
    }
}

/// A response: status code, header lines in order, body.
#[derive(Debug, Clone, PartialEq, Eq)]
pub struct HttpResponse {
    pub status: u16,
    pub headers: Vec<Header>,
    pub body: Body,
}

/// The mathematical value of an [`HttpResponse`].
pub struct HttpResponseView {
    pub status: u16,
    pub headers: Seq<HeaderView>,
    pub body: BodyView,
}

impl View for HttpResponse {
    type V = HttpResponseView;

    open spec fn view(&self) -> HttpResponseView {
        HttpResponseView {
            status: self.status,
            headers: self.headers@.map_values(|header: Header| header@),
            body: self.body@,
        }
    }
}

/// A response without headers whose body is `text`.
pub open spec fn text_response(status: u16, text: Seq<char>) -> HttpResponseView {
    HttpResponseView { status, headers: Seq::empty(), body: BodyView::Text(text) }
}

/// The status code of each outcome of resolving an identifier.
pub open spec fn redirect_status(outcome: RedirectOutcomeView) -> u16 {
    match outcome {
        RedirectOutcomeView::Found(_) => STATUS_TEMPORARY_REDIRECT,
        RedirectOutcomeView::NotFound => STATUS_NOT_FOUND,
        RedirectOutcomeView::Timeout => STATUS_INTERNAL_SERVER_ERROR,
        RedirectOutcomeView::Storage(_) => STATUS_INTERNAL_SERVER_ERROR,
    }
}

/// The response to each outcome of resolving an identifier. A found link is
/// a temporary redirect to its target, with the caching policy and no body;
/// the others are text without headers.
pub open spec fn redirect_response(outcome: RedirectOutcomeView) -> HttpResponseView {
    match outcome {
        RedirectOutcomeView::Found(target_url) => HttpResponseView {
            status: STATUS_TEMPORARY_REDIRECT,
            headers: seq![
                HeaderView { name: LOCATION_HEADER@, value: target_url },
                HeaderView {
                    name: CACHE_CONTROL_HEADER@,
                    value: DEFAULT_CACHE_CONTROL_HEADER_VALUE@,
                },
            ],
            body: BodyView::Empty,
        },
        RedirectOutcomeView::NotFound => text_response(STATUS_NOT_FOUND, NOT_FOUND_BODY@),
        RedirectOutcomeView::Timeout => text_response(
            STATUS_INTERNAL_SERVER_ERROR,
            INTERNAL_ERROR_BODY@,
        ),
        RedirectOutcomeView::Storage(_) => text_response(
            STATUS_INTERNAL_SERVER_ERROR,
            INTERNAL_ERROR_BODY@,
        ),
    }
}

/// The status code of each outcome of creating a link.
pub open spec fn create_status(outcome: CreateOutcomeView) -> u16 {
    match outcome {
        CreateOutcomeView::Created(_) => STATUS_CREATED,
        CreateOutcomeView::Storage(error) => if error.kind == StoreErrorKind::UniqueViolation {
            STATUS_CONFLICT
        } else {
            STATUS_INTERNAL_SERVER_ERROR
        },
    }
}

/// The response to each outcome of creating a link. None has headers. A
/// created link is sent back as the body.
pub open spec fn create_response(outcome: CreateOutcomeView) -> HttpResponseView {
    match outcome {
        CreateOutcomeView::Created(link) => HttpResponseView {
            status: STATUS_CREATED,
            headers: Seq::empty(),
            body: BodyView::Json(link),
        },
        CreateOutcomeView::Storage(error) => if error.kind == StoreErrorKind::UniqueViolation {
            text_response(STATUS_CONFLICT, CONFLICT_BODY@)
        } else {
            text_response(STATUS_INTERNAL_SERVER_ERROR, INTERNAL_ERROR_BODY@)
        },
    }
}

/// The status code of each outcome of changing a target.
pub open spec fn update_status(outcome: UpdateOutcomeView) -> u16 {
    match outcome {
        UpdateOutcomeView::Updated => STATUS_OK,
        UpdateOutcomeView::NotFound => STATUS_NOT_FOUND,
        UpdateOutcomeView::Storage(_) => STATUS_INTERNAL_SERVER_ERROR,
    }
}

/// The response to each outcome of changing a target. None has headers.
pub open spec fn update_response(outcome: UpdateOutcomeView) -> HttpResponseView {
    match outcome {
        UpdateOutcomeView::Updated => HttpResponseView {
            status: STATUS_OK,
            headers: Seq::empty(),
            body: BodyView::Empty,
        },
        UpdateOutcomeView::NotFound => text_response(STATUS_NOT_FOUND, NOT_FOUND_BODY@),
        UpdateOutcomeView::Storage(_) => text_response(
            STATUS_INTERNAL_SERVER_ERROR,
            INTERNAL_ERROR_BODY@,
        ),
    }
}

/// Builds a response without headers whose body is `text`.
fn plain(status: u16, message: &str) -> (response: HttpResponse)
    ensures
        response@ == text_response(status, message@),
{
    let response = HttpResponse {
        status,
        headers: Vec::new(),
        body: Body::Text(message.to_owned()),
    };
    assert(response@.headers =~= Seq::empty());
    response
}

impl RedirectOutcome {
    /// The status code of the outcome.
    pub fn status(&self) -> (code: u16)
        ensures
            code == redirect_status(self@),
    {
        match self {
            RedirectOutcome::Found(_) => STATUS_TEMPORARY_REDIRECT,
            RedirectOutcome::NotFound => STATUS_NOT_FOUND,
            RedirectOutcome::Timeout => STATUS_INTERNAL_SERVER_ERROR,
            RedirectOutcome::Storage(_) => STATUS_INTERNAL_SERVER_ERROR,
        }
    }

    /// The response to the outcome.
    pub fn into_response(self) -> (response: HttpResponse)
        ensures
            response@ == redirect_response(self@),
            response.status == redirect_status(self@),
    {
        match self {
            RedirectOutcome::Found(target_url) => {
                let mut headers: Vec<Header> = Vec::new();
                headers.push(Header { name: LOCATION_HEADER.to_owned(), value: target_url });
                headers.push(
                    Header {
                        name: CACHE_CONTROL_HEADER.to_owned(),
                        value: DEFAULT_CACHE_CONTROL_HEADER_VALUE.to_owned(),
                    },
                );
                let response = HttpResponse {
                    status: STATUS_TEMPORARY_REDIRECT,
                    headers,
                    body: Body::Empty,
                };
                assert(response@.headers =~= redirect_response(self@).headers);
                response
            },
            RedirectOutcome::NotFound => plain(STATUS_NOT_FOUND, NOT_FOUND_BODY),
            RedirectOutcome::Timeout => plain(STATUS_INTERNAL_SERVER_ERROR, INTERNAL_ERROR_BODY),
            RedirectOutcome::Storage(_) => plain(STATUS_INTERNAL_SERVER_ERROR, INTERNAL_ERROR_BODY),
        }
    }
}

impl CreateOutcome {
    /// The status code of the outcome.
    pub fn status(&self) -> (code: u16)
        ensures
            code == create_status(self@),
    {
        match self {
            CreateOutcome::Created(_) => STATUS_CREATED,
            CreateOutcome::Storage(error) => match error.kind {
                StoreErrorKind::UniqueViolation => STATUS_CONFLICT,
                StoreErrorKind::Other => STATUS_INTERNAL_SERVER_ERROR,
            },
        }
    }

    /// The response to the outcome.
    pub fn into_response(self) -> (response: HttpResponse)
        ensures
            response@ == create_response(self@),
            response.status == create_status(self@),
    {
        match self {
            CreateOutcome::Created(link) => {
                let response = HttpResponse {
                    status: STATUS_CREATED,
                    headers: Vec::new(),
                    body: Body::Json(link),
                };
                assert(response@.headers =~= Seq::empty());
                response
            },
            CreateOutcome::Storage(error) => match error.kind {
                StoreErrorKind::UniqueViolation => plain(STATUS_CONFLICT, CONFLICT_BODY),
                StoreErrorKind::Other => plain(STATUS_INTERNAL_SERVER_ERROR, INTERNAL_ERROR_BODY),
            },
        }
    }
}

impl UpdateOutcome {
    /// The status code of the outcome.
    pub fn status(&self) -> (code: u16)
        ensures
            code == update_status(self@),
    {
        match self {
            UpdateOutcome::Updated => STATUS_OK,
            UpdateOutcome::NotFound => STATUS_NOT_FOUND,
            UpdateOutcome::Storage(_) => STATUS_INTERNAL_SERVER_ERROR,
        }
    }

    /// The response to the outcome.
    pub fn into_response(self) -> (response: HttpResponse)
        ensures
            response@ == update_response(self@),
            response.status == update_status(self@),
    {
        match self {
            UpdateOutcome::Updated => {
                let response = HttpResponse {
                    status: STATUS_OK,
                    headers: Vec::new(),
                    body: Body::Empty,
                };
                assert(response@.headers =~= Seq::empty());
                response
            },
            UpdateOutcome::NotFound => plain(STATUS_NOT_FOUND, NOT_FOUND_BODY),
            UpdateOutcome::Storage(_) => plain(STATUS_INTERNAL_SERVER_ERROR, INTERNAL_ERROR_BODY),
        }
    }
}

/// Answers a request for a short link, given the store's reply to the
/// lookup of its identifier.
pub fn redirect(reply: LookupReply) -> (response: HttpResponse)
    ensures
        response@ == redirect_response(redirect_outcome(reply@)),
{
    resolve(reply).into_response()
}

/// Answers a request to create `link`, given the store's reply to its
/// insert.
pub fn create_link(link: Link, reply: InsertReply) -> (response: HttpResponse)
    requires
        link@.storable(),
    ensures
        response@ == create_response(create_outcome(link@, reply@)),
{
    create(link, reply).into_response()
}

/// Answers a request to change a target, given the store's reply to the
/// update.
pub fn update_link(reply: UpdateReply) -> (response: HttpResponse)
    ensures
        response@ == update_response(update_outcome(reply@)),
{
    update(reply).into_response()
}

/// Answers the liveness probe.
pub fn health() -> (response: HttpResponse)
    ensures
        response@ == text_response(STATUS_OK, HEALTHY_BODY@),
{
    plain(STATUS_OK, HEALTHY_BODY)
}

} // verus!
