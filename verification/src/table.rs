//! Route tables: ordered lists of path prefixes, each with the upstream host
//! that serves the paths under it.

use vstd::prelude::*;
use vstd::string::*;
use crate::text::{str_eq, str_starts_with};

verus! {

/// A route table as a sequence of (prefix, upstream host) pairs, in the order
/// in which the table is walked.
pub type Routes = Seq<(Seq<char>, Seq<char>)>;

/// No prefix occurs twice.
pub open spec fn distinct_prefixes(routes: Routes) -> bool {
    forall|i: int, j: int| 0 <= i < j < routes.len() ==> routes[i].0 != routes[j].0
}

/// `routes` lists the entries of `entries`, each exactly once, in some order.
pub open spec fn arranges(routes: Routes, entries: Map<Seq<char>, Seq<char>>) -> bool {
    &&& distinct_prefixes(routes)
    &&& forall|i: int|
        0 <= i < routes.len() ==> entries.contains_pair((#[trigger] routes[i]).0, routes[i].1)
    &&& forall|prefix: Seq<char>| #[trigger]
        entries.dom().contains(prefix) ==> exists|i: int|
            0 <= i < routes.len() && (#[trigger] routes[i]).0 == prefix
}

/// The position of the first route whose prefix is a literal prefix of
/// `path`, if there is one.
pub open spec fn first_match(routes: Routes, path: Seq<char>) -> Option<int>
    decreases routes.len(),
{
    if routes.len() == 0 {
        None
    } else if routes[0].0.is_prefix_of(path) {
        Some(0)
    } else {
        match first_match(routes.drop_first(), path) {
            Some(i) => Some(i + 1),
            None => None,
        }
    }
}

/// `first_match` is the least position that matches: it is `Some(i)` exactly
/// when route `i` matches and no earlier route does, and `None` exactly when
/// no route matches.
pub proof fn lemma_first_match_is_least(routes: Routes, path: Seq<char>)
    ensures
        match first_match(routes, path) {
            Some(i) => {
                &&& 0 <= i < routes.len()
                &&& routes[i].0.is_prefix_of(path)
                &&& forall|j: int| 0 <= j < i ==> !(#[trigger] routes[j]).0.is_prefix_of(path)
            },
            None => forall|j: int|
                0 <= j < routes.len() ==> !(#[trigger] routes[j]).0.is_prefix_of(path),
        },
    decreases routes.len(),
{
    if routes.len() > 0 && !routes[0].0.is_prefix_of(path) {
        let rest = routes.drop_first();
        lemma_first_match_is_least(rest, path);
        let bound = match first_match(rest, path) {
            Some(i) => i + 1,
            None => routes.len() as int,
        };
        assert forall|j: int| 0 <= j < bound implies !(#[trigger] routes[j]).0.is_prefix_of(
            path,
        ) by {
            if j > 0 {
                assert(routes[j] == rest[j - 1]);
            }
        }
    }
}

/// A position that matches, with no match before it, is the first match.
pub proof fn lemma_least_is_first_match(routes: Routes, path: Seq<char>, i: int)
    requires
        0 <= i < routes.len(),
        routes[i].0.is_prefix_of(path),
        forall|j: int| 0 <= j < i ==> !(#[trigger] routes[j]).0.is_prefix_of(path),
    ensures
        first_match(routes, path) == Some(i),
{
    lemma_first_match_is_least(routes, path);
}

/// Whether some route of `routes` has this prefix.
pub open spec fn has_prefix(routes: Routes, prefix: Seq<char>) -> bool {
    exists|i: int| 0 <= i < routes.len() && (#[trigger] routes[i]).0 == prefix
}

/// `routes` with one more route at its end, unless its prefix is taken.
pub open spec fn with_route(routes: Routes, prefix: Seq<char>, upstream: Seq<char>) -> Routes {
    if has_prefix(routes, prefix) {
        routes
    } else {
        routes.push((prefix, upstream))
    }
}

/// The flat object of strings that a JSON text stands for: the map from its
/// keys to their values, or `None` where the text is no JSON object whose
/// values are all strings. A key that the text gives twice keeps its last
/// value.
pub uninterp spec fn json_string_map(text: Seq<char>) -> Option<Map<Seq<char>, Seq<char>>>;

/// The error that `serde_json` reports for a text it cannot decode.
#[verifier::external_type_specification]
#[verifier::external_body]
pub struct ExJsonError(serde_json::Error);

/// `serde_json::from_str` at the type of a hash map from strings to strings,
/// with the map's entries handed out as a list. The decoder accepts exactly
/// the texts on which `json_string_map` is defined, and the list then holds
/// each entry of that map once. The order of the list is that in which the
/// hash map is walked, of which nothing is claimed.
#[verifier::external_body]
fn parse_string_map(text: &str) -> (parsed: Result<Vec<(String, String)>, serde_json::Error>)
    ensures
        match parsed {
            Ok(pairs) => json_string_map(text@) matches Some(entries) && arranges(
                pairs.deep_view(),
                entries,
            ),
            Err(_) => json_string_map(text@) is None,
        },
{
    let decoded: Result<std::collections::HashMap<String, String>, serde_json::Error> =
        serde_json::from_str(text);
    decoded.map(|entries| entries.into_iter().collect())
}

/// The `Display` text of a `serde_json::Error`. Nothing is claimed of it.
#[verifier::external_body]
fn json_error_text(error: &serde_json::Error) -> (message: String) {
    error.to_string()
}

/// Why a blob was refused as a route table.
#[derive(Debug, PartialEq, Eq)]
pub struct TableError {
    /// The decoder's account of what is wrong with the blob.
    pub message: String,
}

/// An ordered route table.
#[derive(Debug, PartialEq, Eq)]
pub struct RouteTable {
    routes: Vec<(String, String)>,
}

impl View for RouteTable {
    type V = Routes;

    closed spec fn view(&self) -> Routes {
        self.routes.deep_view()
    }
}

impl RouteTable {
    /// A prefix stands in a table once, as a key does in a map.
    #[verifier::type_invariant]
    spec fn prefixes_are_distinct(&self) -> bool {
        distinct_prefixes(self.routes.deep_view())
    }

    /// The table without routes.
    pub fn new() -> (table: RouteTable)
        ensures
            table@ == Routes::empty(),
    {
        let table = RouteTable { routes: Vec::new() };
        assert(table@ =~= Routes::empty());
        table
    }

    /// Whether a route with this prefix stands in the table.
    pub fn contains_prefix(&self, prefix: &str) -> (found: bool)
        ensures
            found == has_prefix(self@, prefix@),
    {
        let n: usize = self.routes.len();
        let mut i: usize = 0;
        while i < n
            invariant
                n == self@.len(),
                n == self.routes.len(),
                i <= n,
                forall|j: int| 0 <= j < i ==> (#[trigger] self@[j]).0 != prefix@,
            decreases n - i,
        {
            if str_eq(self.routes[i].0.as_str(), prefix) {
                assert(self@[i as int].0 == prefix@);
                return true;
            }
            i = i + 1;
        }
        false
    }

    /// The table with one more route at its end. A table that already holds a
    /// route with the same prefix is returned as it is.
    pub fn with_route(self, prefix: String, upstream: String) -> (table: RouteTable)
        ensures
            table@ == with_route(self@, prefix@, upstream@),
    {
        proof {
            use_type_invariant(&self);
        }
        if self.contains_prefix(prefix.as_str()) {
            return self;
        }
        let ghost before = self@;
        let mut routes = self.routes;
        routes.push((prefix, upstream));
        assert(routes.deep_view() =~= before.push((prefix@, upstream@)));
        RouteTable { routes }
    }

    /// Decodes a route table from its stored form, a JSON object that maps
    /// each path prefix to an upstream host. The table holds each entry of
    /// the object once; their order is not fixed by the blob. Anything but a
    /// flat object of strings is refused.
    pub fn decode(blob: &str) -> (decoded: Result<RouteTable, TableError>)
        ensures
            match decoded {
                Ok(table) => json_string_map(blob@) matches Some(entries) && arranges(
                    table@,
                    entries,
                ),
                Err(_) => json_string_map(blob@) is None,
            },
    {
        match parse_string_map(blob) {
            Ok(routes) => Ok(RouteTable { routes }),
            Err(error) => Err(TableError { message: json_error_text(&error) }),
        }
    }

    /// The number of routes.
    pub fn len(&self) -> (n: usize)
        ensures
            n == self@.len(),
    {
        self.routes.len()
    }

    /// Route `i` in table order, as its prefix and its upstream host; `None`
    /// where the table has no such route.
    pub fn get(&self, i: usize) -> (route: Option<(&str, &str)>)
        ensures
            match route {
                Some((prefix, upstream)) => {
                    &&& i < self@.len()
                    &&& prefix@ == self@[i as int].0
                    &&& upstream@ == self@[i as int].1
                },
                None => i >= self@.len(),
            },
    {
        if i < self.routes.len() {
            Some((self.routes[i].0.as_str(), self.routes[i].1.as_str()))
        } else {
            None
        }
    }

    /// Finds the first route, in table order, whose prefix `full_path` starts
    /// with, and gives its prefix and its upstream host. No longest-prefix
    /// rule applies: among overlapping prefixes the one that stands first
    /// wins.
    pub fn first_match(&self, full_path: &str) -> (found: Option<(&str, &str)>)
        ensures
            match first_match(self@, full_path@) {
                Some(i) => found matches Some((prefix, upstream)) && prefix@ == self@[i].0
                    && upstream@ == self@[i].1,
                None => found is None,
            },
    {
        let n: usize = self.routes.len();
        let mut i: usize = 0;
        while i < n
            invariant
                n == self@.len(),
                n == self.routes.len(),
                i <= n,
                forall|j: int| 0 <= j < i ==> !(#[trigger] self@[j]).0.is_prefix_of(full_path@),
            decreases n - i,
        {
            let prefix = self.routes[i].0.as_str();
            if str_starts_with(full_path, prefix) {
                proof {
                    lemma_least_is_first_match(self@, full_path@, i as int);
                }
                return Some((prefix, self.routes[i].1.as_str()));
            }
            i = i + 1;
        }
        proof {
            lemma_first_match_is_least(self@, full_path@);
        }
        None
    }
}

} // verus!
