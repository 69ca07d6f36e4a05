//! The requests that the service answers, and what its answers mean.
//!
//! Each kind of request is a function that makes the address and the parameters to send. What
//! comes back is read by [`systems_answer`], for the requests that the service answers with a
//! list of systems, and by [`system_answer`], for those that it answers with one system: a
//! status and a body, which [`get`] reads, or the word of a transport that failed.

use vstd::prelude::*;
use vstd::string::StringExecFns;
use crate::decimal::{decimal_exceeds, decimal_over, is_decimal};
use crate::decode::{decoded_text, from_json, Decode};
use crate::error::{described, DecodeError, DecodeErrorView};
use crate::system::System;

verus! {

/// The address of the service's requests about one system.
pub const SYSTEM_URL: &'static str = "https://www.edsm.net/api-system-v1";

/// The address of the service's requests about many systems.
pub const SYSTEMS_URL: &'static str = "https://www.edsm.net/api-v1";

/// The greatest radius, in light years, that the service takes for a search in a sphere.
pub const MAX_RADIUS: u32 = 100;

/// What can go wrong with a request.
#[derive(Debug, Clone, PartialEq, Eq)]
pub enum Error {
    /// The service answered with a status other than success; the status.
    Edsm(u16),
    /// The request failed under way; what the transport said.
    Request(String),
    /// The service's answer is no record of the kind asked for.
    Decode(DecodeError),
    /// A distance is not written as a number in plain decimal notation; the text.
    InvalidNumber(String),
    /// A radius is greater than the service takes; the text.
    RadiusTooLarge(String),
}

/// The mathematical content of an [`Error`].
pub enum ErrorView {
    Edsm(u16),
    Request(Seq<char>),
    Decode(DecodeErrorView),
    InvalidNumber(Seq<char>),
    RadiusTooLarge(Seq<char>),
}

impl DeepView for Error {
    type V = ErrorView;

    open spec fn deep_view(&self) -> ErrorView {
        match self {
            Error::Edsm(status) => ErrorView::Edsm(*status),
            Error::Request(text) => ErrorView::Request(text@),
            Error::Decode(e) => ErrorView::Decode(e.deep_view()),
            Error::InvalidNumber(text) => ErrorView::InvalidNumber(text@),
            Error::RadiusTooLarge(text) => ErrorView::RadiusTooLarge(text@),
        }
    }
}

/// The content of a result: the value's view, or the error's.
pub open spec fn answer<T: DeepView>(r: Result<T, Error>) -> Result<T::V, ErrorView> {
    match r {
        Ok(x) => Ok(x.deep_view()),
        Err(e) => Err(e.deep_view()),
    }
}

/// The phrase that goes with a status by convention, if there is one.
pub uninterp spec fn canonical_reason(status: u16) -> Option<Seq<char>>;

/// `reqwest::StatusCode::from_u16`, then `canonical_reason`: the conventional phrase for the
/// status, or nothing where the number is no status or has no phrase. The result depends on
/// the number alone.
#[verifier::external_body]
pub(crate) fn status_reason(status: u16) -> (r: Option<String>)
    ensures
        r.deep_view() == canonical_reason(status),
{
    match reqwest::StatusCode::from_u16(status) {
        Ok(code) => code.canonical_reason().map(String::from),
        Err(_) => None,
    }
}

/// Whether a status is one of success: from 200 to 299.
pub open spec fn is_success(status: u16) -> bool {
    200 <= status <= 299
}

/// Tells whether a status is one of success.
pub fn status_is_success(status: u16) -> (r: bool)
    ensures
        r == is_success(status),
{
    200 <= status && status <= 299
}

/// What an error says in words, given the conventional phrase for its status.
pub open spec fn message_of(e: ErrorView, reason: Option<Seq<char>>) -> Seq<char> {
    match e {
        ErrorView::Edsm(_) => match reason {
            Some(phrase) => phrase,
            None => "???"@,
        },
        ErrorView::Request(text) => text,
        ErrorView::Decode(e) => described(e),
        ErrorView::InvalidNumber(text) => "not a number: "@ + text,
        ErrorView::RadiusTooLarge(text) => "radius too large: "@ + text,
    }
}

impl Error {
    /// The phrase for the error's status, where it has a status; what [`Error::message`] looks
    /// up.
    pub open spec fn reason(self) -> Option<Seq<char>> {
        match self {
            Error::Edsm(status) => canonical_reason(status),
            _ => None,
        }
    }

    /// The error in words, given the conventional phrase for its status: the phrase, or `???`
    /// where there is none, for a refusal by the service; what the transport said for a
    /// failure under way.
    pub fn message_with(&self, reason: Option<String>) -> (r: String)
        ensures
            r@ == message_of(self.deep_view(), reason.deep_view()),
    {
        match self {
            Error::Edsm(_) => match reason {
                Some(phrase) => phrase,
                None => "???".to_owned(),
            },
            Error::Request(text) => text.clone(),
            Error::Decode(e) => e.message(),
            Error::InvalidNumber(text) => "not a number: ".to_owned().concat(text.as_str()),
            Error::RadiusTooLarge(text) => "radius too large: ".to_owned().concat(
                text.as_str(),
            ),
        }
    }

    /// The error in words.
    pub fn message(&self) -> (r: String)
        ensures
            r@ == message_of(self.deep_view(), self.reason()),
    {
        match self {
            Error::Edsm(status) => self.message_with(status_reason(*status)),
            _ => self.message_with(None),
        }
    }

    /// The words of the error that lies under this one: what the transport said, for a failure
    /// under way, and nothing for a refusal by the service.
    pub fn source(&self) -> (r: Option<String>)
        ensures
            r.deep_view() == (match self.deep_view() {
                ErrorView::Request(text) => Some(text),
                ErrorView::Decode(e) => Some(described(e)),
                _ => None,
            }),
    {
        match self {
            Error::Request(text) => Some(text.clone()),
            Error::Decode(e) => Some(e.message()),
            _ => None,
        }
    }
}

/// A request to the service: the address, and the parameters of the query in their order.
#[derive(Debug, Clone, PartialEq, Eq)]
pub struct Request {
    pub path: String,
    pub params: Vec<(String, String)>,
}

/// The mathematical content of a [`Request`].
pub struct RequestView {
    pub path: Seq<char>,
    pub params: Seq<(Seq<char>, Seq<char>)>,
}

impl DeepView for Request {
    type V = RequestView;

    open spec fn deep_view(&self) -> RequestView {
        RequestView { path: self.path@, params: self.params.deep_view() }
    }
}

/// The address with the parameters as its query, as `url` writes it, if it writes one.
pub uninterp spec fn url_with_params(
    path: Seq<char>,
    params: Seq<(Seq<char>, Seq<char>)>,
) -> Option<Seq<char>>;

/// `reqwest::Url::parse_with_params`, then the text of the address: the address with each
/// parameter added to its query in order, or nothing where the address cannot be parsed. The
/// result depends on the address and the parameters alone.
#[verifier::external_body]
pub(crate) fn url_text(path: &str, params: &Vec<(String, String)>) -> (r: Option<String>)
    ensures
        r.deep_view() == url_with_params(path@, params.deep_view()),
{
    match reqwest::Url::parse_with_params(path, params) {
        Ok(url) => Some(String::from(url)),
        Err(_) => None,
    }
}

impl Request {
    /// The full address to get: the request's address with its parameters as the query.
    pub fn url(&self) -> (r: Option<String>)
        ensures
            r.deep_view() == url_with_params(self.path@, self.params.deep_view()),
    {
        url_text(self.path.as_str(), &self.params)
    }
}

/// One parameter of a query.
fn param(key: &str, value: &str) -> (r: (String, String))
    ensures
        r.deep_view() == (key@, value@),
{
    (key.to_owned(), value.to_owned())
}

/// The parameters that ask for every part of a system's description that the service leaves
/// out unless asked: the numbers, the place, the permit and the general information.
pub open spec fn show_all() -> Seq<(Seq<char>, Seq<char>)> {
    seq![
        ("showId"@, "1"@),
        ("showCoordinates"@, "1"@),
        ("showPermit"@, "1"@),
        ("showInformation"@, "1"@),
    ]
}

/// Adds the parameters that ask for every part of a system's description.
fn push_show_all(params: &mut Vec<(String, String)>)
    ensures
        final(params).deep_view() == old(params).deep_view() + show_all(),
{
    params.push(param("showId", "1"));
    params.push(param("showCoordinates", "1"));
    params.push(param("showPermit", "1"));
    params.push(param("showInformation", "1"));
    assert(params.deep_view() =~= old(params).deep_view() + show_all());
}

/// A request at `base` for `what`, with the system's name as the first parameter.
fn named_request(base: &str, what: &str, name: &str) -> (r: Request)
    ensures
        r.deep_view() == (RequestView {
            path: base@ + what@,
            params: seq![("systemName"@, name@)],
        }),
{
    let mut params: Vec<(String, String)> = Vec::new();
    params.push(param("systemName", name));
    assert(params.deep_view() =~= seq![("systemName"@, name@)]);
    Request { path: base.to_owned().concat(what), params }
}

/// The request for every system whose name begins with `query`.
pub open spec fn systems_request(query: Seq<char>) -> RequestView {
    RequestView {
        path: SYSTEMS_URL@ + "/systems"@,
        params: seq![("systemName"@, query)] + show_all(),
    }
}

/// Asks for the systems of a name. The service answers with one system where the name is that
/// of a system, and with every system whose name begins with it otherwise.
pub fn systems(query: &str) -> (r: Request)
    ensures
        r.deep_view() == systems_request(query@),
{
    let mut request = named_request(SYSTEMS_URL, "/systems", query);
    push_show_all(&mut request.params);
    request
}

/// The parameter for a distance, if one is given.
pub open spec fn distance_param(key: Seq<char>, distance: Option<Seq<char>>) -> Seq<
    (Seq<char>, Seq<char>),
> {
    match distance {
        Some(text) => seq![(key, text)],
        None => Seq::empty(),
    }
}

/// The request for the systems in a sphere round a system, or the reason why none is made. A
/// distance is a number in plain decimal notation. A radius above [`MAX_RADIUS`] is refused
/// here, before anything is sent.
pub open spec fn sphere_request(
    name: Seq<char>,
    radius: Option<Seq<char>>,
    min_radius: Option<Seq<char>>,
) -> Result<RequestView, ErrorView> {
    if radius is Some && !is_decimal(radius->0) {
        Err(ErrorView::InvalidNumber(radius->0))
    } else if radius is Some && decimal_exceeds(radius->0, MAX_RADIUS as nat) {
        Err(ErrorView::RadiusTooLarge(radius->0))
    } else if min_radius is Some && !is_decimal(min_radius->0) {
        Err(ErrorView::InvalidNumber(min_radius->0))
    } else {
        Ok(
            RequestView {
                path: SYSTEMS_URL@ + "/sphere-systems"@,
                params: seq![("systemName"@, name)] + distance_param("radius"@, radius)
                    + distance_param("minRadius"@, min_radius) + show_all(),
            },
        )
    }
}

/// Adds the parameter for a distance, if one is given and is a number.
fn push_distance(params: &mut Vec<(String, String)>, key: &str, distance: Option<&str>) -> (r:
    Result<(), Error>)
    ensures
        match r {
            Ok(_) => (distance matches Some(text) ==> is_decimal(text@))
                && final(params).deep_view() == old(params).deep_view()
                + distance_param(key@, distance.deep_view()),
            Err(e) => distance matches Some(text) && !is_decimal(text@) && e.deep_view()
                == ErrorView::InvalidNumber(text@),
        },
{
    match distance {
        Some(text) => {
            if decimal_over(text, 0).is_none() {
                return Err(Error::InvalidNumber(text.to_owned()));
            }
            params.push(param(key, text));
            assert(params.deep_view() =~= old(params).deep_view() + seq![(key@, text@)]);
        },
        None => {
            assert(params.deep_view() =~= old(params).deep_view() + Seq::empty());
        },
    }
    Ok(())
}

/// Asks for the systems in a sphere round a system: those no farther from it than `radius` and
/// no nearer than `min_radius`, in light years.
pub fn systems_sphere(name: &str, radius: Option<&str>, min_radius: Option<&str>) -> (r: Result<
    Request,
    Error,
>)
    ensures
        answer(r) == sphere_request(name@, radius.deep_view(), min_radius.deep_view()),
{
    let mut request = named_request(SYSTEMS_URL, "/sphere-systems", name);
    if let Some(text) = radius {
        match decimal_over(text, MAX_RADIUS) {
            None => {
                return Err(Error::InvalidNumber(text.to_owned()));
            },
            Some(true) => {
                return Err(Error::RadiusTooLarge(text.to_owned()));
            },
            Some(false) => {},
        }
    }
    push_distance(&mut request.params, "radius", radius)?;
    push_distance(&mut request.params, "minRadius", min_radius)?;
    push_show_all(&mut request.params);
    Ok(request)
}

/// The request for the systems in a cube round a system, or the reason why none is made.
pub open spec fn cube_request(name: Seq<char>, size: Option<Seq<char>>) -> Result<
    RequestView,
    ErrorView,
> {
    if size is Some && !is_decimal(size->0) {
        Err(ErrorView::InvalidNumber(size->0))
    } else {
        Ok(
            RequestView {
                path: SYSTEMS_URL@ + "/cube-systems"@,
                params: seq![("systemName"@, name)] + distance_param("size"@, size) + show_all(),
            },
        )
    }
}

/// Asks for the systems in a cube round a system, with edges of `size` light years.
pub fn systems_cube(name: &str, size: Option<&str>) -> (r: Result<Request, Error>)
    ensures
        answer(r) == cube_request(name@, size.deep_view()),
{
    let mut request = named_request(SYSTEMS_URL, "/cube-systems", name);
    push_distance(&mut request.params, "size", size)?;
    push_show_all(&mut request.params);
    Ok(request)
}

/// The request for one system.
pub open spec fn system_request(name: Seq<char>) -> RequestView {
    RequestView {
        path: SYSTEMS_URL@ + "/system"@,
        params: seq![("systemName"@, name)] + show_all(),
    }
}

/// Asks for one system.
pub fn system(name: &str) -> (r: Request)
    ensures
        r.deep_view() == system_request(name@),
{
    let mut request = named_request(SYSTEMS_URL, "/system", name);
    push_show_all(&mut request.params);
    request
}

/// The request for a report on one system: its traffic, its deaths or its bodies.
pub open spec fn report_request(what: Seq<char>, system_name: Seq<char>) -> RequestView {
    RequestView { path: SYSTEM_URL@ + what, params: seq![("systemName"@, system_name)] }
}

/// Asks for a system's traffic report.
pub fn traffic(system_name: &str) -> (r: Request)
    ensures
        r.deep_view() == report_request("/traffic"@, system_name@),
{
    named_request(SYSTEM_URL, "/traffic", system_name)
}

/// Asks for a system's report of deaths.
pub fn deaths(system_name: &str) -> (r: Request)
    ensures
        r.deep_view() == report_request("/deaths"@, system_name@),
{
    named_request(SYSTEM_URL, "/deaths", system_name)
}

/// Asks for a system with its bodies.
pub fn bodies(system_name: &str) -> (r: Request)
    ensures
        r.deep_view() == report_request("/bodies"@, system_name@),
{
    named_request(SYSTEM_URL, "/bodies", system_name)
}

/// The request for a system with its factions, with or without their histories.
pub open spec fn factions_request(system_name: Seq<char>, history: bool) -> RequestView {
    RequestView {
        path: SYSTEM_URL@ + "/factions"@,
        params: seq![
            ("systemName"@, system_name),
            ("showHistory"@, if history {
                "1"@
            } else {
                "0"@
            }),
        ],
    }
}

/// Asks for a system with its factions. With `history`, the service fills the histories of
/// each faction.
pub fn factions(system_name: &str, history: bool) -> (r: Request)
    ensures
        r.deep_view() == factions_request(system_name@, history),
{
    let mut request = named_request(SYSTEM_URL, "/factions", system_name);
    let flag = if history {
        "1"
    } else {
        "0"
    };
    let ghost before = request.params.deep_view();
    request.params.push(param("showHistory", flag));
    assert(request.params.deep_view() =~= before.push(("showHistory"@, flag@)));
    assert(request.params.deep_view() =~= factions_request(system_name@, history).params);
    request
}

/// What an answer of the service means: the record that the body decodes to, where the status
/// is a success; the status as an error otherwise, whatever the body holds.
pub open spec fn received<D: Decode>(status: u16, body: Seq<char>) -> Result<D::V, ErrorView> {
    if is_success(status) {
        match decoded_text::<D>(body) {
            Ok(record) => Ok(record),
            Err(e) => Err(ErrorView::Decode(e)),
        }
    } else {
        Err(ErrorView::Edsm(status))
    }
}

/// Reads an answer of the service. The body is looked at only where the status is a success.
pub fn get<D: Decode>(status: u16, body: &str) -> (r: Result<D, Error>)
    ensures
        answer(r) == received::<D>(status, body@),
        r matches Ok(record) ==> record.wf(),
{
    if status_is_success(status) {
        match from_json::<D>(body) {
            Ok(record) => Ok(record),
            Err(e) => Err(Error::Decode(e)),
        }
    } else {
        Err(Error::Edsm(status))
    }
}

/// What the outcome of a request means: what the answer means, where one came; what the
/// transport said, as an error, where none came.
pub open spec fn outcome_of<D: Decode>(outcome: Result<(u16, String), String>) -> Result<
    D::V,
    ErrorView,
> {
    match outcome {
        Ok((status, body)) => received::<D>(status, body@),
        Err(failure) => Err(ErrorView::Request(failure@)),
    }
}

/// Reads the outcome of a request: the status and the body of the answer, or what the
/// transport said where the request failed under way.
pub fn receive<D: Decode>(outcome: Result<(u16, String), String>) -> (r: Result<D, Error>)
    ensures
        answer(r) == outcome_of::<D>(outcome),
        r matches Ok(record) ==> record.wf(),
{
    match outcome {
        Ok((status, body)) => get::<D>(status, body.as_str()),
        Err(failure) => Err(Error::Request(failure)),
    }
}

/// Reads the outcome of a request for many systems, as [`systems`], [`systems_sphere`] and
/// [`systems_cube`] make them: the service answers these with a list of systems.
pub fn systems_answer(outcome: Result<(u16, String), String>) -> (r: Result<Vec<System>, Error>)
    ensures
        answer(r) == outcome_of::<Vec<System>>(outcome),
        r matches Ok(list) ==> list.wf(),
{
    receive::<Vec<System>>(outcome)
}

/// Reads the outcome of a request for one system, as [`system`], [`traffic`], [`deaths`],
/// [`bodies`] and [`factions`] make them: the service answers these with one system, filled
/// with what was asked for.
pub fn system_answer(outcome: Result<(u16, String), String>) -> (r: Result<System, Error>)
    ensures
        answer(r) == outcome_of::<System>(outcome),
        r matches Ok(system) ==> system.wf(),
{
    receive::<System>(outcome)
}

/// A radius above the greatest that the service takes is refused, whatever else is asked.
pub proof fn lemma_large_radius_is_refused(
    name: Seq<char>,
    radius: Seq<char>,
    min_radius: Option<Seq<char>>,
)
    requires
        is_decimal(radius),
        decimal_exceeds(radius, MAX_RADIUS as nat),
    ensures
        sphere_request(name, Some(radius), min_radius) == Err::<RequestView, ErrorView>(
            ErrorView::RadiusTooLarge(radius),
        ),
{
}

/// A status other than success is an error that keeps the status, whatever the body holds.
pub proof fn lemma_refusal_keeps_status<D: Decode>(status: u16, body: Seq<char>)
    requires
        !is_success(status),
    ensures
        received::<D>(status, body) == Err::<D::V, ErrorView>(ErrorView::Edsm(status)),
{
}

} // verus!
