//! What holds of the router on every input, proved from the definitions that
//! the contracts of its functions are stated in.

use vstd::prelude::*;
use crate::backend::{descriptor_for, host_name_of};
use crate::pipeline::{
    path_and_query, plan_for, routed, step_allowed, ActionView, EventView, StateView,
};
use crate::reason::{ReasonView, STATUS_BAD_REQUEST};
use crate::request::RequestView;
use crate::table::{arranges, first_match, lemma_first_match_is_least, Routes};
use crate::text::{cropped, is_alphanumeric};

verus! {

/// A request that has neither a forwarded host nor a `Host` header is
/// answered at once, with the status 400.
pub proof fn law_missing_host_is_refused(request: RequestView, next: (StateView, ActionView))
    requires
        request.forwarded_host is None,
        request.host is None,
        step_allowed(StateView::Start, EventView::Request(request), next),
    ensures
        next == (StateView::Done, ActionView::Respond { reason: ReasonView::MissingHost }),
        ReasonView::MissingHost.status() == STATUS_BAD_REQUEST,
        STATUS_BAD_REQUEST == 400,
{
}

/// A forwarded host that is not empty is the host of record, whatever the
/// `Host` header says: the route set is looked up under it.
pub proof fn law_forwarded_host_takes_precedence(
    request: RequestView,
    next: (StateView, ActionView),
)
    requires
        request.forwarded_host is Some,
        request.forwarded_host->0.len() > 0,
        step_allowed(StateView::Start, EventView::Request(request), next),
    ensures
        request.effective_host() == request.forwarded_host,
        next.1 == (ActionView::LookupRouteSet { host: request.forwarded_host->0 }),
{
}

/// Without a forwarded host, or with an empty one, the `Host` header is the
/// host of record.
pub proof fn law_host_header_is_the_fallback(request: RequestView)
    requires
        request.forwarded_host is None || request.forwarded_host->0.len() == 0,
    ensures
        request.effective_host() == request.host,
{
}

/// The first prefix wins: of two routes whose prefixes both start the path,
/// the later one is never the match, and the match is the earlier one or a
/// route before it.
pub proof fn law_first_prefix_wins(routes: Routes, path: Seq<char>, earlier: int, later: int)
    requires
        0 <= earlier < later < routes.len(),
        routes[earlier].0.is_prefix_of(path),
        routes[later].0.is_prefix_of(path),
    ensures
        first_match(routes, path) is Some,
        first_match(routes, path)->0 <= earlier,
        first_match(routes, path) != Some(later),
{
    lemma_first_match_is_least(routes, path);
}

/// A path that no prefix starts is matched by no route, in whatever order
/// the entries stand, and the request is refused with the status 400.
pub proof fn law_no_prefix_no_route(
    entries: Map<Seq<char>, Seq<char>>,
    routes: Routes,
    path: Seq<char>,
    scheme: Seq<char>,
)
    requires
        arranges(routes, entries),
        forall|prefix: Seq<char>| #[trigger]
            entries.dom().contains(prefix) ==> !prefix.is_prefix_of(path),
    ensures
        routed(routes, path, scheme) == (
            StateView::Done,
            ActionView::Respond { reason: ReasonView::NoRouteMatched },
        ),
        ReasonView::NoRouteMatched.status() == 400,
{
    lemma_first_match_is_least(routes, path);
    if first_match(routes, path) is Some {
        let i = first_match(routes, path)->0;
        assert(entries.contains_pair(routes[i].0, routes[i].1));
        assert(entries.dom().contains(routes[i].0));
    }
}

/// Where exactly one prefix of a table starts the path, the order of the
/// entries does not matter: every arrangement of the table routes the
/// request by that prefix.
pub proof fn law_single_match_is_order_free(
    entries: Map<Seq<char>, Seq<char>>,
    routes: Routes,
    path: Seq<char>,
    scheme: Seq<char>,
    prefix: Seq<char>,
)
    requires
        arranges(routes, entries),
        entries.dom().contains(prefix),
        prefix.is_prefix_of(path),
        forall|other: Seq<char>| #[trigger]
            entries.dom().contains(other) && other.is_prefix_of(path) ==> other == prefix,
    ensures
        routed(routes, path, scheme) == (
            StateView::BuildBackend,
            ActionView::BuildBackend { plan: plan_for(prefix, entries[prefix], path, scheme) },
        ),
{
    lemma_first_match_is_least(routes, path);
    let at = choose|i: int| 0 <= i < routes.len() && (#[trigger] routes[i]).0 == prefix;
    assert(routes[at].0.is_prefix_of(path));
    let i = first_match(routes, path)->0;
    assert(entries.contains_pair(routes[i].0, routes[i].1));
    assert(entries.dom().contains(routes[i].0));
}

/// The rewritten path is the full path without the characters of the
/// matched prefix: put behind the prefix, it gives the full path again. A
/// prefix that is the whole path leaves the empty path.
pub proof fn law_rewrite_strips_the_prefix(routes: Routes, path: Seq<char>, scheme: Seq<char>)
    requires
        first_match(routes, path) is Some,
    ensures
        ({
            let route = routes[first_match(routes, path)->0];
            let plan = plan_for(route.0, route.1, path, scheme);
            &&& routed(routes, path, scheme) == (
                StateView::BuildBackend,
                ActionView::BuildBackend { plan },
            )
            &&& plan.prefix + plan.rewritten_path == path
            &&& plan.rewritten_path.len() == path.len() - plan.prefix.len()
            &&& plan.prefix == path ==> plan.rewritten_path == Seq::<char>::empty()
        }),
{
    lemma_first_match_is_least(routes, path);
    let route = routes[first_match(routes, path)->0];
    assert(route.0 + cropped(path, route.0.len()) =~= path);
    if route.0 == path {
        assert(cropped(path, route.0.len()) =~= Seq::<char>::empty());
    }
}

/// The path and the query that a rewritten path is split into give it back
/// when they are joined with a `?`, and a path without a `?` that is joined
/// with a query is split into the two again.
pub proof fn law_path_and_query_are_the_rewritten_path(target: Seq<char>, request: RequestView)
    ensures
        (RequestView {
            path: path_and_query(target).0,
            query: path_and_query(target).1,
            ..request
        }).full_path() == target,
        !request.path.contains('?') ==> path_and_query(request.full_path()) == (
            request.path,
            request.query,
        ),
{
    target.index_of_first_ensures('?');
    match target.index_of_first('?') {
        Some(at) => {
            assert(target.take(at) + seq!['?'] + target.skip(at + 1) =~= target);
        },
        None => {},
    }
    if !request.path.contains('?') {
        let full = request.full_path();
        full.index_of_first_ensures('?');
        match request.query {
            Some(query) => {
                let at = request.path.len() as int;
                assert(full[at] == '?');
                assert forall|j: int| 0 <= j < at implies full[j] != '?' by {
                    assert(full[j] == request.path[j]);
                }
                assert(full.index_of_first('?') == Some(at));
                assert(full.take(at) =~= request.path);
                assert(full.skip(at + 1) =~= query);
            },
            None => {},
        }
    }
}

/// How far a state is along the pipeline.
pub open spec fn progress(state: StateView) -> nat {
    match state {
        StateView::Start => 0,
        StateView::LookupRouteSet { .. } => 1,
        StateView::LoadTable { .. } => 2,
        StateView::BuildBackend => 3,
        StateView::Forward => 4,
        StateView::Done => 5,
    }
}

/// Every step moves a request forward, so that a request is over after five
/// steps at most. It is over exactly when the action names the response:
/// one of the router's own, with the status 200, 400 or 500, or the
/// upstream's.
pub proof fn law_every_step_advances(
    state: StateView,
    event: EventView,
    next: (StateView, ActionView),
)
    requires
        step_allowed(state, event, next),
    ensures
        state != StateView::Done ==> progress(next.0) > progress(state),
        next.0 == StateView::Done <==> next.1 is Respond || next.1 is Relay,
        next.1 matches ActionView::Respond { reason } ==> reason.status() == 200
            || reason.status() == 400 || reason.status() == 500,
{
}

/// Cropping counts characters: it removes as many as asked for, and all of
/// them where fewer are there.
pub proof fn law_crop_removes_leading_characters(head: Seq<char>, tail: Seq<char>, pos: nat)
    ensures
        cropped(head + tail, head.len()) == tail,
        pos >= head.len() ==> cropped(head, pos) == Seq::<char>::empty(),
{
    assert(cropped(head + tail, head.len()) =~= tail);
    if pos >= head.len() {
        assert(cropped(head, pos) =~= Seq::<char>::empty());
    }
}

/// A backend's name holds letters and digits only, in the order in which the
/// host has them, and a host made of letters and digits is its own name.
pub proof fn law_backend_name_is_alphanumeric(host: Seq<char>)
    ensures
        forall|i: int|
            0 <= i < host_name_of(host).len() ==> is_alphanumeric(#[trigger] host_name_of(host)[i]),
        host_name_of(host).len() <= host.len(),
        (forall|i: int| 0 <= i < host.len() ==> is_alphanumeric(#[trigger] host[i]))
            ==> host_name_of(host) == host,
{
    let keep = |c: char| is_alphanumeric(c);
    host.lemma_filter_len(keep);
    assert forall|i: int| 0 <= i < host_name_of(host).len() implies is_alphanumeric(
        #[trigger] host_name_of(host)[i],
    ) by {
        host.lemma_filter_pred(keep, i);
    }
    if forall|i: int| 0 <= i < host.len() ==> is_alphanumeric(#[trigger] host[i]) {
        lemma_filter_keeps_all(host, keep);
    }
}

/// A filter that every element passes changes nothing.
proof fn lemma_filter_keeps_all(s: Seq<char>, keep: spec_fn(char) -> bool)
    requires
        forall|i: int| 0 <= i < s.len() ==> keep(#[trigger] s[i]),
    ensures
        s.filter(keep) == s,
    decreases s.len(),
{
    reveal(Seq::filter);
    if s.len() > 0 {
        lemma_filter_keeps_all(s.drop_last(), keep);
        assert(s.drop_last().push(s.last()) =~= s);
    }
}

/// TLS is on exactly for the scheme `https`. The name asked for in the
/// handshake is then the upstream host, and there is none otherwise. The
/// `Host` header is overridden with the upstream host in either case.
pub proof fn law_tls_exactly_for_https(upstream: Seq<char>, scheme: Seq<char>)
    ensures
        descriptor_for(upstream, scheme).tls <==> scheme == "https"@,
        descriptor_for(upstream, scheme).tls ==> descriptor_for(upstream, scheme).sni_hostname
            == Some(upstream),
        !descriptor_for(upstream, scheme).tls ==> descriptor_for(upstream, scheme).sni_hostname
            is None,
        descriptor_for(upstream, scheme).override_host == upstream,
        descriptor_for(upstream, scheme).host == upstream,
{
}

} // verus!
