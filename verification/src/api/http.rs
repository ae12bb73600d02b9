//! Requests as plain values, and the turn-taking between a catalogue client
//! and whoever carries its requests out.
//!
//! A client never touches the network. It hands out a [`Step`]; the caller
//! performs it and reports an [`Event`]; the client answers with the next
//! step, until the step is [`Step::Finish`].

use vstd::prelude::*;
use super::error::SearchError;
use super::{MetadataResult, MetadataView};

verus! {

/// The status that tells a client its token is no longer accepted.
pub const UNAUTHORIZED: u16 = 401;

/// Whether a status code reports success: the codes from 200 to 299.
pub open spec fn is_success(code: u16) -> bool {
    200 <= code < 300
}

pub fn status_is_success(code: u16) -> (ok: bool)
    ensures
        ok == is_success(code),
{
    200 <= code && code < 300
}

#[derive(Debug, Clone, Copy, PartialEq, Eq, Structural)]
pub enum Method {
    Get,
    Post,
}

/// How a request proves who sends it.
#[derive(Debug, Clone)]
pub enum Credentials {
    Anonymous,
    /// An `Authorization: Bearer` header with this token.
    Bearer(String),
    /// HTTP Basic authentication.
    Basic { user: String, password: String },
}

pub enum CredentialsView {
    Anonymous,
    Bearer(Seq<char>),
    Basic { user: Seq<char>, password: Seq<char> },
}

impl View for Credentials {
    type V = CredentialsView;

    open spec fn view(&self) -> CredentialsView {
        match self {
            Credentials::Anonymous => CredentialsView::Anonymous,
            Credentials::Bearer(token) => CredentialsView::Bearer(token@),
            Credentials::Basic { user, password } => CredentialsView::Basic {
                user: user@,
                password: password@,
            },
        }
    }
}

/// One field of a form-encoded body.
#[derive(Debug, Clone)]
pub struct FormField {
    pub name: String,
    pub value: String,
}

impl View for FormField {
    type V = (Seq<char>, Seq<char>);

    open spec fn view(&self) -> (Seq<char>, Seq<char>) {
        (self.name@, self.value@)
    }
}

impl DeepView for FormField {
    type V = (Seq<char>, Seq<char>);

    open spec fn deep_view(&self) -> (Seq<char>, Seq<char>) {
        self@
    }
}

/// A request for the caller to send. A request with form fields carries them
/// as its form-encoded body; one without has no body.
#[derive(Debug, Clone)]
pub struct HttpRequest {
    pub method: Method,
    pub url: String,
    pub credentials: Credentials,
    pub form: Vec<FormField>,
}

pub struct HttpRequestView {
    pub method: Method,
    pub url: Seq<char>,
    pub credentials: CredentialsView,
    pub form: Seq<(Seq<char>, Seq<char>)>,
}

impl View for HttpRequest {
    type V = HttpRequestView;

    open spec fn view(&self) -> HttpRequestView {
        HttpRequestView {
            method: self.method,
            url: self.url@,
            credentials: self.credentials@,
            form: self.form.deep_view(),
        }
    }
}

/// What happened to the step a client last asked for, or [`Event::Begin`] to
/// start a search.
#[derive(Debug)]
pub enum Event<T> {
    /// Nothing has been done yet.
    Begin,
    /// The request could not be delivered, or no answer arrived.
    Unreachable,
    /// The answer's status code.
    Status(u16),
    /// The answer's body, read as the catalogue's schema; `None` if the body
    /// does not fit it.
    Body(Option<T>),
}

/// How a search ended: the records in the catalogue's order, or the failure.
pub type Outcome = Result<Vec<MetadataResult>, SearchError>;

/// An [`Outcome`] as plain text.
pub open spec fn outcome_view(outcome: Outcome) -> Result<Seq<MetadataView>, SearchError> {
    match outcome {
        Ok(records) => Ok(records.deep_view()),
        Err(error) => Err(error),
    }
}

/// What the caller is to do next.
#[derive(Debug)]
pub enum Step {
    /// Send this request and report [`Event::Status`] or
    /// [`Event::Unreachable`].
    Send(HttpRequest),
    /// Read the body of the answer just received and report [`Event::Body`].
    Decode,
    /// The search is over.
    Finish(Outcome),
}

pub enum StepView {
    Send(HttpRequestView),
    Decode,
    Finish(Result<Seq<MetadataView>, SearchError>),
}

impl View for Step {
    type V = StepView;

    open spec fn view(&self) -> StepView {
        match self {
            Step::Send(request) => StepView::Send(request@),
            Step::Decode => StepView::Decode,
            Step::Finish(outcome) => StepView::Finish(outcome_view(*outcome)),
        }
    }
}

} // verus!
