//! The routing pipeline as a state machine. The router decides; its caller
//! does the outside work that an action asks for and reports back with an
//! event.
//!
//! A request passes through host resolution, the lookup of its route set, the
//! loading of the route table, path matching, the setup of the backend and
//! the forwarding. Host resolution and path matching need no outside work, so
//! they happen inside a step; every other stage is a state that awaits the
//! event which ends it. Any step may end the request with a response of the
//! router's own.

use vstd::prelude::*;
use vstd::string::*;
use crate::backend::{descriptor_for, BackendDescriptor, BackendView};
use crate::lookup::{Lookup, LookupView};
use crate::reason::{Reason, ReasonView};
use crate::request::{optional_view, InboundRequest, RequestView};
use crate::table::{
    arranges, first_match, json_string_map, lemma_first_match_is_least, RouteTable, Routes,
    TableError,
};
use crate::text::{crop_letters, cropped};

verus! {

/// How a matched request is forwarded.
#[derive(Debug, PartialEq, Eq)]
pub struct ForwardPlan {
    /// The prefix that matched.
    pub prefix: String,
    /// The upstream host that the prefix maps to; the rewritten URL's host.
    pub upstream: String,
    /// The rewritten URL's path: what follows the prefix.
    pub rewritten_path: String,
    /// The connection to open.
    pub backend: BackendDescriptor,
}

/// A plan with its strings as sequences of characters.
pub struct PlanView {
    pub prefix: Seq<char>,
    pub upstream: Seq<char>,
    pub rewritten_path: Seq<char>,
    pub backend: BackendView,
}

impl View for ForwardPlan {
    type V = PlanView;

    open spec fn view(&self) -> PlanView {
        PlanView {
            prefix: self.prefix@,
            upstream: self.upstream@,
            rewritten_path: self.rewritten_path@,
            backend: self.backend@,
        }
    }
}

/// A rewritten path as the path and the query of a URL: what stands before
/// its first `?` is the path, and what stands behind it is the query.
pub open spec fn path_and_query(target: Seq<char>) -> (Seq<char>, Option<Seq<char>>) {
    match target.index_of_first('?') {
        Some(at) => (target.take(at), Some(target.skip(at + 1))),
        None => (target, None),
    }
}

impl ForwardPlan {
    /// The rewritten path as the path and the query of the outbound URL.
    pub fn path_and_query(&self) -> (parts: (String, Option<String>))
        ensures
            parts.0@ == path_and_query(self@.rewritten_path).0,
            optional_view(parts.1) == path_and_query(self@.rewritten_path).1,
    {
        let target = self.rewritten_path.as_str();
        let n: usize = target.unicode_len();
        let mut at: usize = 0;
        for c in it: target.chars()
            invariant
                it.seq() == target@,
                target@ == self@.rewritten_path,
                n == target@.len(),
                at == it.index(),
                forall|j: int| 0 <= j < at ==> target@[j] != '?',
        {
            if c == '?' {
                proof {
                    target@.index_of_first_ensures('?');
                    assert(target@[at as int] == '?');
                    assert(target@.subrange(0, at as int) =~= target@.take(at as int));
                    assert(target@.subrange(at + 1, n as int) =~= target@.skip(at + 1));
                }
                let path = String::from_str(target.substring_char(0, at));
                let query = String::from_str(target.substring_char(at + 1, n));
                return (path, Some(query));
            }
            at = at + 1;
        }
        proof {
            target@.index_of_first_ensures('?');
        }
        (String::from_str(target), None)
    }
}

/// Where a request stands: the outside work whose outcome is awaited.
#[derive(Debug, PartialEq, Eq)]
pub enum State {
    /// Nothing has happened yet; the request is awaited.
    Start,
    /// The route-set store has been asked for the request's host.
    LookupRouteSet { full_path: String, scheme: String },
    /// The table store has been asked for the route set's table.
    LoadTable { route_set_id: String, full_path: String, scheme: String },
    /// The backend is being set up.
    BuildBackend,
    /// The request has been sent upstream.
    Forward,
    /// The response has been decided.
    Done,
}

/// A state with its strings as sequences of characters.
pub enum StateView {
    Start,
    LookupRouteSet { full_path: Seq<char>, scheme: Seq<char> },
    LoadTable { route_set_id: Seq<char>, full_path: Seq<char>, scheme: Seq<char> },
    BuildBackend,
    Forward,
    Done,
}

impl View for State {
    type V = StateView;

    open spec fn view(&self) -> StateView {
        match self {
            State::Start => StateView::Start,
            State::LookupRouteSet { full_path, scheme } => StateView::LookupRouteSet {
                full_path: full_path@,
                scheme: scheme@,
            },
            State::LoadTable { route_set_id, full_path, scheme } => StateView::LoadTable {
                route_set_id: route_set_id@,
                full_path: full_path@,
                scheme: scheme@,
            },
            State::BuildBackend => StateView::BuildBackend,
            State::Forward => StateView::Forward,
            State::Done => StateView::Done,
        }
    }
}

/// What the caller reports.
#[derive(Debug, PartialEq, Eq)]
pub enum Event {
    /// A request has come in.
    Request(InboundRequest),
    /// The route-set store has answered.
    RouteSet(Lookup<String>),
    /// The table store has answered, with the table in its stored form.
    Table(Lookup<String>),
    /// The backend was set up, or could not be; the string is the cause.
    Backend(Result<(), String>),
    /// The upstream has answered with this status, or the request could not
    /// be sent; the string is the transport's error.
    Upstream(Result<u16, String>),
}

/// An event with its strings as sequences of characters.
pub enum EventView {
    Request(RequestView),
    RouteSet(LookupView<Seq<char>>),
    Table(LookupView<Seq<char>>),
    Backend(Result<(), Seq<char>>),
    Upstream(Result<u16, Seq<char>>),
}

impl View for Event {
    type V = EventView;

    open spec fn view(&self) -> EventView {
        match self {
            Event::Request(request) => EventView::Request(request@),
            Event::RouteSet(outcome) => EventView::RouteSet(outcome@),
            Event::Table(outcome) => EventView::Table(outcome@),
            Event::Backend(outcome) => EventView::Backend(
                match outcome {
                    Ok(_) => Ok(()),
                    Err(cause) => Err(cause@),
                },
            ),
            Event::Upstream(outcome) => EventView::Upstream(
                match outcome {
                    Ok(status) => Ok(*status),
                    Err(cause) => Err(cause@),
                },
            ),
        }
    }
}

/// What the router asks of its caller.
#[derive(Debug, PartialEq, Eq)]
pub enum Action {
    /// Ask the route-set store for the route set of this host.
    LookupRouteSet { host: String },
    /// Ask the table store for the table of this route set.
    LoadTable { route_set_id: String },
    /// Point the request at the plan's upstream and path, and set up the
    /// plan's backend.
    BuildBackend { plan: ForwardPlan },
    /// Send the request over the backend. With `pass_through` set, no shared
    /// cache is asked or filled.
    Forward { pass_through: bool },
    /// Answer with an empty response of the reason's status.
    Respond { reason: Reason },
    /// Answer with the upstream's response as it came; `status` is its status.
    Relay { status: u16 },
}

/// An action with its strings as sequences of characters.
pub enum ActionView {
    LookupRouteSet { host: Seq<char> },
    LoadTable { route_set_id: Seq<char> },
    BuildBackend { plan: PlanView },
    Forward { pass_through: bool },
    Respond { reason: ReasonView },
    Relay { status: u16 },
}

impl View for Action {
    type V = ActionView;

    open spec fn view(&self) -> ActionView {
        match self {
            Action::LookupRouteSet { host } => ActionView::LookupRouteSet { host: host@ },
            Action::LoadTable { route_set_id } => ActionView::LoadTable {
                route_set_id: route_set_id@,
            },
            Action::BuildBackend { plan } => ActionView::BuildBackend { plan: plan@ },
            Action::Forward { pass_through } => ActionView::Forward { pass_through: *pass_through },
            Action::Respond { reason } => ActionView::Respond { reason: reason@ },
            Action::Relay { status } => ActionView::Relay { status: *status },
        }
    }
}

/// The end of a request with a response of the router's own.
pub open spec fn ended(reason: ReasonView) -> (StateView, ActionView) {
    (StateView::Done, ActionView::Respond { reason })
}

/// The plan for a request that matched the route (`prefix`, `upstream`): the
/// rewritten path is the full path without the prefix's characters, and the
/// backend is that of the upstream under the request's scheme.
pub open spec fn plan_for(
    prefix: Seq<char>,
    upstream: Seq<char>,
    full_path: Seq<char>,
    scheme: Seq<char>,
) -> PlanView {
    PlanView {
        prefix,
        upstream,
        rewritten_path: cropped(full_path, prefix.len()),
        backend: descriptor_for(upstream, scheme),
    }
}

/// What follows from a route table: the plan of the first route that
/// matches, or the end of a request that no route matches.
pub open spec fn routed(routes: Routes, full_path: Seq<char>, scheme: Seq<char>) -> (
    StateView,
    ActionView,
) {
    match first_match(routes, full_path) {
        Some(i) => (
            StateView::BuildBackend,
            ActionView::BuildBackend {
                plan: plan_for(routes[i].0, routes[i].1, full_path, scheme),
            },
        ),
        None => ended(ReasonView::NoRouteMatched),
    }
}

/// What follows from a request: the lookup of its host's route set, or the
/// end of a request that names no host.
pub open spec fn on_request(request: RequestView) -> (StateView, ActionView) {
    match request.effective_host() {
        Some(host) => (
            StateView::LookupRouteSet { full_path: request.full_path(), scheme: request.scheme },
            ActionView::LookupRouteSet { host },
        ),
        None => ended(ReasonView::MissingHost),
    }
}

/// What follows from the route-set store's answer.
pub open spec fn on_route_set(
    full_path: Seq<char>,
    scheme: Seq<char>,
    outcome: LookupView<Seq<char>>,
) -> (StateView, ActionView) {
    match outcome {
        LookupView::Found(route_set_id) => (
            StateView::LoadTable { route_set_id, full_path, scheme },
            ActionView::LoadTable { route_set_id },
        ),
        LookupView::NotConfigured => ended(ReasonView::HostNotConfigured),
        LookupView::BackendUnavailable(cause) => ended(ReasonView::RouteSetStoreFailed(cause)),
    }
}

/// What follows from a decoded table, or from the refusal to decode it.
pub open spec fn on_decoded(
    decoded: Result<Routes, Seq<char>>,
    full_path: Seq<char>,
    scheme: Seq<char>,
) -> (StateView, ActionView) {
    match decoded {
        Ok(routes) => routed(routes, full_path, scheme),
        Err(cause) => ended(ReasonView::TableMalformed(cause)),
    }
}

/// What came out of the decoder, with its strings as sequences of
/// characters.
pub open spec fn decoded_view(decoded: Result<RouteTable, TableError>) -> Result<
    Routes,
    Seq<char>,
> {
    match decoded {
        Ok(table) => Ok(table@),
        Err(error) => Err(error.message@),
    }
}

/// `decoded` is a way in which `blob` may come out of the decoder: as some
/// arrangement of the entries it stands for, or with an error where it
/// stands for none.
pub open spec fn decodes_to(blob: Seq<char>, decoded: Result<Routes, Seq<char>>) -> bool {
    match decoded {
        Ok(routes) => json_string_map(blob) matches Some(entries) && arranges(routes, entries),
        Err(_) => json_string_map(blob) is None,
    }
}

/// The steps that may follow from a table in its stored form: those of the
/// ways in which the blob may come out of the decoder.
pub open spec fn on_blob(
    blob: Seq<char>,
    full_path: Seq<char>,
    scheme: Seq<char>,
    next: (StateView, ActionView),
) -> bool {
    exists|decoded: Result<Routes, Seq<char>>| #[trigger]
        decodes_to(blob, decoded) && next == on_decoded(decoded, full_path, scheme)
}

/// What follows from the setup of the backend.
pub open spec fn on_backend(outcome: Result<(), Seq<char>>) -> (StateView, ActionView) {
    match outcome {
        Ok(_) => (StateView::Forward, ActionView::Forward { pass_through: true }),
        Err(cause) => ended(ReasonView::BackendFailed(cause)),
    }
}

/// What follows from the attempt to send the request upstream.
pub open spec fn on_upstream(outcome: Result<u16, Seq<char>>) -> (StateView, ActionView) {
    match outcome {
        Ok(status) => (StateView::Done, ActionView::Relay { status }),
        Err(cause) => ended(ReasonView::SendFailed(cause)),
    }
}

/// The steps that the router may take from `state` on `event`. All but one
/// are determined. A stored table decodes to its entries in an order that the
/// blob does not fix, so there the step is that of one of its arrangements.
/// An event that the state does not await ends the request.
pub open spec fn step_allowed(state: StateView, event: EventView, next: (StateView, ActionView)) -> bool {
    match state {
        StateView::Start => match event {
            EventView::Request(request) => next == on_request(request),
            _ => next == ended(ReasonView::OutOfOrder),
        },
        StateView::LookupRouteSet { full_path, scheme } => match event {
            EventView::RouteSet(outcome) => next == on_route_set(full_path, scheme, outcome),
            _ => next == ended(ReasonView::OutOfOrder),
        },
        StateView::LoadTable { route_set_id, full_path, scheme } => match event {
            EventView::Table(LookupView::Found(blob)) => on_blob(blob, full_path, scheme, next),
            EventView::Table(LookupView::NotConfigured) => next == ended(
                ReasonView::RouteSetNotConfigured(route_set_id),
            ),
            EventView::Table(LookupView::BackendUnavailable(cause)) => next == ended(
                ReasonView::TableStoreFailed(cause),
            ),
            _ => next == ended(ReasonView::OutOfOrder),
        },
        StateView::BuildBackend => match event {
            EventView::Backend(outcome) => next == on_backend(outcome),
            _ => next == ended(ReasonView::OutOfOrder),
        },
        StateView::Forward => match event {
            EventView::Upstream(outcome) => next == on_upstream(outcome),
            _ => next == ended(ReasonView::OutOfOrder),
        },
        StateView::Done => next == ended(ReasonView::OutOfOrder),
    }
}

/// Ends the request with a response of the router's own.
fn end(reason: Reason) -> (next: (State, Action))
    ensures
        next@ == ended(reason@),
{
    (State::Done, Action::Respond { reason })
}

/// Matches the request's full path against the table and plans the
/// forwarding: the first route that matches gives the upstream, the
/// rewritten path is what follows the matched prefix, and the backend is
/// built for the upstream under the request's scheme. A path that no route
/// matches ends the request.
pub fn route(table: &RouteTable, full_path: &str, scheme: &str) -> (next: (State, Action))
    ensures
        next@ == routed(table@, full_path@, scheme@),
{
    proof {
        lemma_first_match_is_least(table@, full_path@);
    }
    match table.first_match(full_path) {
        Some((prefix, upstream)) => {
            let rewritten_path = crop_letters(full_path, prefix.unicode_len());
            let plan = ForwardPlan {
                prefix: String::from_str(prefix),
                upstream: String::from_str(upstream),
                rewritten_path: String::from_str(rewritten_path),
                backend: BackendDescriptor::build(upstream, scheme),
            };
            (State::BuildBackend, Action::BuildBackend { plan })
        },
        None => end(Reason::NoRouteMatched),
    }
}

/// Routes by a table as it came out of the decoder, and ends the request
/// where the decoder refused the blob.
pub fn route_decoded(decoded: Result<RouteTable, TableError>, full_path: &str, scheme: &str) -> (next:
    (State, Action))
    ensures
        next@ == on_decoded(decoded_view(decoded), full_path@, scheme@),
{
    match decoded {
        Ok(table) => route(&table, full_path, scheme),
        Err(error) => end(Reason::TableMalformed(error.message)),
    }
}

/// The step from `Start`.
fn step_from_start(event: Event) -> (next: (State, Action))
    ensures
        step_allowed(StateView::Start, event@, next@),
{
    match event {
        Event::Request(request) => match request.effective_host() {
            Ok(host) => {
                let host = String::from_str(host);
                let full_path = request.full_path();
                (
                    State::LookupRouteSet { full_path, scheme: request.scheme },
                    Action::LookupRouteSet { host },
                )
            },
            Err(_) => end(Reason::MissingHost),
        },
        _ => end(Reason::OutOfOrder),
    }
}

/// The step from `LookupRouteSet`.
fn step_from_lookup(full_path: String, scheme: String, event: Event) -> (next: (State, Action))
    ensures
        step_allowed(
            StateView::LookupRouteSet { full_path: full_path@, scheme: scheme@ },
            event@,
            next@,
        ),
{
    match event {
        Event::RouteSet(outcome) => match outcome {
            Lookup::Found(route_set_id) => (
                State::LoadTable { route_set_id: route_set_id.clone(), full_path, scheme },
                Action::LoadTable { route_set_id },
            ),
            Lookup::NotConfigured => end(Reason::HostNotConfigured),
            Lookup::BackendUnavailable(cause) => end(Reason::RouteSetStoreFailed(cause)),
        },
        _ => end(Reason::OutOfOrder),
    }
}

/// The step from `LoadTable`.
fn step_from_load(route_set_id: String, full_path: String, scheme: String, event: Event) -> (next: (
    State,
    Action,
))
    ensures
        step_allowed(
            StateView::LoadTable {
                route_set_id: route_set_id@,
                full_path: full_path@,
                scheme: scheme@,
            },
            event@,
            next@,
        ),
{
    match event {
        Event::Table(outcome) => match outcome {
            Lookup::Found(blob) => {
                let decoded = RouteTable::decode(blob.as_str());
                assert(decodes_to(blob@, decoded_view(decoded)));
                route_decoded(decoded, full_path.as_str(), scheme.as_str())
            },
            Lookup::NotConfigured => end(Reason::RouteSetNotConfigured(route_set_id)),
            Lookup::BackendUnavailable(cause) => end(Reason::TableStoreFailed(cause)),
        },
        _ => end(Reason::OutOfOrder),
    }
}

/// The step from `BuildBackend`.
fn step_from_build(event: Event) -> (next: (State, Action))
    ensures
        step_allowed(StateView::BuildBackend, event@, next@),
{
    match event {
        Event::Backend(outcome) => match outcome {
            Ok(_) => (State::Forward, Action::Forward { pass_through: true }),
            Err(cause) => end(Reason::BackendFailed(cause)),
        },
        _ => end(Reason::OutOfOrder),
    }
}

/// The step from `Forward`.
fn step_from_forward(event: Event) -> (next: (State, Action))
    ensures
        step_allowed(StateView::Forward, event@, next@),
{
    match event {
        Event::Upstream(outcome) => match outcome {
            Ok(status) => (State::Done, Action::Relay { status }),
            Err(cause) => end(Reason::SendFailed(cause)),
        },
        _ => end(Reason::OutOfOrder),
    }
}

/// Takes one step: from the state and the event that the caller reports to
/// the next state and the action that the caller is to perform. Once the
/// state is `Done`, the action was `Respond` or `Relay` and the request is
/// over.
pub fn step(state: State, event: Event) -> (next: (State, Action))
    ensures
        step_allowed(state@, event@, next@),
{
    match state {
        State::Start => step_from_start(event),
        State::LookupRouteSet { full_path, scheme } => step_from_lookup(full_path, scheme, event),
        State::LoadTable { route_set_id, full_path, scheme } => step_from_load(
            route_set_id,
            full_path,
            scheme,
            event,
        ),
        State::BuildBackend => step_from_build(event),
        State::Forward => step_from_forward(event),
        State::Done => end(Reason::OutOfOrder),
    }
}

} // verus!
