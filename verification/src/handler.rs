//! The request handler's decisions, separated from the I/O that carries
//! them out.
//!
//! A query is first planned: a missing coordinate is answered immediately
//! with a descriptive text (latitude checked first), a complete query yields
//! the one upstream request, with `limit = 1`.  The driver performs that
//! request and hands the outcome back to [`conclude`], which renders the
//! first returned station — or a descriptive error: an empty result, a bad
//! URL, a transport failure and a refused RPC each have a reply of their
//! own, and none of them can abort the serving task.

use vstd::prelude::*;
use crate::render::{render_station, spec_rendered};
use crate::station::{Locale, Params, Station, spec_locale_of};
use crate::text::{spec_dec_digits, u16_to_dec};

verus! {

/// Why the upstream call itself failed.
#[derive(Clone, Copy, PartialEq, Eq, Structural, Debug)]
pub enum UpstreamError {
    /// The configured upstream URL could not be used as an origin.
    BadUrl,
    /// The upstream could not be reached, or the connection failed mid-call.
    Transport,
    /// The upstream answered the RPC with this non-OK status code.
    RpcStatus(u16),
}

/// The distinct ways "fetch the nearest station" can come back empty-handed.
#[derive(Clone, Copy, PartialEq, Eq, Structural, Debug)]
pub enum FetchError {
    /// The transport or the RPC itself failed.
    Upstream(UpstreamError),
    /// The call succeeded but returned no station at all.
    NoResult,
}

/// The one request the bridge sends upstream.  Coordinates are the raw
/// IEEE-754 bit patterns of the query's doubles, passed through untouched.
#[derive(Clone, Copy, PartialEq, Eq, Structural, Debug)]
pub struct NearbyRequest {
    pub latitude_bits: u64,
    pub longitude_bits: u64,
    /// How many results the upstream is asked for; the handler always asks
    /// for one, and still never trusts the answer's length.
    pub limit: Option<u32>,
}

/// What the handler decides to do with a query.
pub enum Step {
    /// Answer immediately with this text; no upstream call is made.
    Reply(String),
    /// Issue exactly this one upstream request, then conclude.
    Call(NearbyRequest),
}

/// The reply when the query lacks `latitude`.
pub open spec fn spec_latitude_missing_text() -> Seq<char> {
    "ERROR! The parameter `latitude` isn't present."@
}

/// The reply when the query lacks `longitude`.
pub open spec fn spec_longitude_missing_text() -> Seq<char> {
    "ERROR! The parameter `longitude` isn't present."@
}

/// The reply when the upstream answered with no station at all.
pub open spec fn spec_not_found_text() -> Seq<char> {
    "ERROR! No station was found around the given coordinates."@
}

/// The reply for each way the fetch can fail; each kind reads differently.
pub open spec fn spec_failure_text(e: FetchError) -> Seq<char> {
    match e {
        FetchError::NoResult => spec_not_found_text(),
        FetchError::Upstream(UpstreamError::BadUrl) => "ERROR! The upstream URL is malformed."@,
        FetchError::Upstream(UpstreamError::Transport) =>
            "ERROR! Couldn't reach the upstream station service."@,
        FetchError::Upstream(UpstreamError::RpcStatus(code)) =>
            "ERROR! The upstream call failed with status "@ + spec_dec_digits(code as nat) + "."@,
    }
}

/// The request a complete query is translated into: its own coordinates,
/// and a result limit of one.
pub open spec fn spec_planned_request(p: Params) -> NearbyRequest
    recommends
        p.latitude_bits is Some,
        p.longitude_bits is Some,
{
    NearbyRequest {
        latitude_bits: p.latitude_bits->0,
        longitude_bits: p.longitude_bits->0,
        limit: Some(1u32),
    }
}

/// Decide what to do with a query: reject a missing coordinate — latitude
/// checked first — or dispatch the one upstream request.
pub fn plan(p: &Params) -> (r: Step)
    ensures
        r is Call <==> (p.latitude_bits is Some && p.longitude_bits is Some),
        match r {
            Step::Reply(t) => if p.latitude_bits is None {
                t@ == spec_latitude_missing_text()
            } else {
                p.longitude_bits is None && t@ == spec_longitude_missing_text()
            },
            Step::Call(req) => req == spec_planned_request(*p),
        },
{
    match p.latitude_bits {
        Option::None => Step::Reply(
            String::from_str("ERROR! The parameter `latitude` isn't present."),
        ),
        Option::Some(lat) => match p.longitude_bits {
            Option::None => Step::Reply(
                String::from_str("ERROR! The parameter `longitude` isn't present."),
            ),
            Option::Some(lon) => Step::Call(
                NearbyRequest { latitude_bits: lat, longitude_bits: lon, limit: Some(1) },
            ),
        },
    }
}

/// The first station of the result sequence, or the distinct "no result"
/// condition when it is empty.
pub open spec fn spec_first_station(stations: Seq<Station>) -> Result<Station, FetchError> {
    if stations.len() == 0 {
        Err(FetchError::NoResult)
    } else {
        Ok(stations[0])
    }
}

/// Take the first station of the upstream's result sequence.  The upstream
/// may return fewer stations than asked for: an empty sequence is a
/// distinct condition, never an out-of-range access.
pub fn first_station(stations: Vec<Station>) -> (r: Result<Station, FetchError>)
    ensures
        r == spec_first_station(stations@),
{
    let mut stations = stations;
    if stations.len() == 0 {
        Err(FetchError::NoResult)
    } else {
        Ok(stations.remove(0))
    }
}

/// The fetch outcome as the handler sees it: a failed call keeps its cause,
/// a successful call is narrowed to its first station.
pub open spec fn spec_fetch_result(r: Result<Seq<Station>, UpstreamError>) -> Result<
    Station,
    FetchError,
> {
    match r {
        Ok(stations) => spec_first_station(stations),
        Err(e) => Err(FetchError::Upstream(e)),
    }
}

/// The text that answers one fetch outcome.
pub open spec fn spec_outcome_text(outcome: Result<Station, FetchError>, loc: Locale) -> Seq<
    char,
> {
    match outcome {
        Ok(st) => spec_rendered(st, loc),
        Err(e) => spec_failure_text(e),
    }
}

/// The result sequence of an upstream call, viewed mathematically.
pub open spec fn spec_view_outcome(o: Result<Vec<Station>, UpstreamError>) -> Result<
    Seq<Station>,
    UpstreamError,
> {
    match o {
        Ok(v) => Ok(v@),
        Err(e) => Err(e),
    }
}

/// Render the reply for one fetch failure.
pub fn failure_text(e: &FetchError) -> (r: String)
    ensures
        r@ == spec_failure_text(*e),
{
    match e {
        FetchError::NoResult => String::from_str(
            "ERROR! No station was found around the given coordinates.",
        ),
        FetchError::Upstream(UpstreamError::BadUrl) => String::from_str(
            "ERROR! The upstream URL is malformed.",
        ),
        FetchError::Upstream(UpstreamError::Transport) => String::from_str(
            "ERROR! Couldn't reach the upstream station service.",
        ),
        FetchError::Upstream(UpstreamError::RpcStatus(code)) => {
            let mut t = String::from_str("ERROR! The upstream call failed with status ");
            let num = u16_to_dec(*code);
            t.append(num.as_str());
            t.append(".");
            t
        },
    }
}

/// Turn the upstream call's outcome into the response text.  Every failure
/// becomes a descriptive reply; nothing here can panic the serving task.
pub fn conclude(outcome: Result<Vec<Station>, UpstreamError>, loc: Locale) -> (r: String)
    ensures
        r@ == spec_outcome_text(spec_fetch_result(spec_view_outcome(outcome)), loc),
{
    match outcome {
        Ok(stations) => match first_station(stations) {
            Ok(st) => render_station(&st, loc),
            Err(e) => failure_text(&e),
        },
        Err(e) => failure_text(&FetchError::Upstream(e)),
    }
}

/// The whole handler's response text, as a function of the query parameters
/// and — when a call is made at all — the upstream outcome.
pub open spec fn spec_response_text(p: Params, outcome: Result<Seq<Station>, UpstreamError>) -> Seq<
    char,
> {
    if p.latitude_bits is None {
        spec_latitude_missing_text()
    } else if p.longitude_bits is None {
        spec_longitude_missing_text()
    } else {
        spec_outcome_text(spec_fetch_result(outcome), spec_locale_of(p.en))
    }
}

/// For every valid coordinate pair the handler issues exactly one upstream
/// request — [`plan`] dispatches at most one [`Step::Call`] — and that
/// request asks for a single result.
pub proof fn lemma_valid_query_one_bounded_call(p: Params)
    requires
        p.latitude_bits is Some,
        p.longitude_bits is Some,
    ensures
        spec_planned_request(p).limit == Some(1u32),
        spec_planned_request(p).latitude_bits == p.latitude_bits->0,
        spec_planned_request(p).longitude_bits == p.longitude_bits->0,
{
}

/// The two coordinates are checked independently and latitude first: a query
/// without `latitude` is answered with the latitude reply whatever else it
/// carries, and no upstream outcome can change any missing-parameter reply.
pub proof fn lemma_latitude_checked_first(p: Params, o: Result<Seq<Station>, UpstreamError>)
    requires
        p.latitude_bits is None,
    ensures
        spec_response_text(p, o) == spec_latitude_missing_text(),
{
}

/// An upstream answer with no station yields the "not found" reply — never
/// an access into the empty sequence.
pub proof fn lemma_empty_result_not_found(p: Params, o: Result<Seq<Station>, UpstreamError>)
    requires
        p.latitude_bits is Some,
        p.longitude_bits is Some,
        o matches Ok(stations) && stations.len() == 0,
    ensures
        spec_response_text(p, o) == spec_not_found_text(),
{
}

/// A failed upstream call yields that failure's own reply, for every kind of
/// failure: the request is answered, not aborted.
pub proof fn lemma_upstream_failure_reported(p: Params, e: UpstreamError)
    requires
        p.latitude_bits is Some,
        p.longitude_bits is Some,
    ensures
        spec_response_text(p, Err(e)) == spec_failure_text(FetchError::Upstream(e)),
{
}

/// Repeating the same query against an unchanged upstream yields the same
/// text: the response is a function of the query and the upstream outcome
/// alone, and the handler keeps no state between requests.
pub proof fn lemma_response_idempotent(
    p1: Params,
    p2: Params,
    o1: Result<Seq<Station>, UpstreamError>,
    o2: Result<Seq<Station>, UpstreamError>,
)
    requires
        p1 == p2,
        o1 == o2,
    ensures
        spec_response_text(p1, o1) == spec_response_text(p2, o2),
{
}

} // verus!
