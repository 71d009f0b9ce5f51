//! Static content, resolved once at process start and read-only afterwards.

use vstd::prelude::*;
use vstd::string::*;
use crate::request::Route;
use crate::request::lemma_map_of_last;
use crate::request::map_of;

verus! {

/// The body served when a route's content is missing from the table.
pub open spec fn spec_missing_content() -> Seq<char> {
    "Error reading file"@
}

/// The views of a route/content entry list.
pub open spec fn entries_view(es: Seq<(Route, String)>) -> Seq<(Route, Seq<char>)> {
    es.map(|i: int, e: (Route, String)| (e.0, e.1@))
}

/// Pre-loaded HTML text keyed by route.  The table is filled before the
/// accept loop starts and only read afterwards.
pub struct ContentTable {
    pub entries: Vec<(Route, String)>,
}

impl View for ContentTable {
    type V = Map<Route, Seq<char>>;

    open spec fn view(&self) -> Map<Route, Seq<char>> {
        map_of(entries_view(self.entries@))
    }
}

/// The text the table serves for a route: its entry, or the fixed
/// placeholder when the route has none.
pub open spec fn spec_content(m: Map<Route, Seq<char>>, route: Route) -> Seq<char> {
    if m.contains_key(route) {
        m[route]
    } else {
        spec_missing_content()
    }
}

impl ContentTable {
    /// An empty table.
    pub fn new() -> (r: ContentTable)
        ensures
            r@ == Map::<Route, Seq<char>>::empty(),
    {
        ContentTable { entries: Vec::new() }
    }

    /// Associate `text` with `route`, replacing any earlier association.
    pub fn insert(&mut self, route: Route, text: String)
        ensures
            final(self)@ == old(self)@.insert(route, text@),
    {
        let ghost prev = entries_view(self.entries@);
        self.entries.push((route, text));
        proof {
            assert(entries_view(self.entries@).drop_last() =~= prev);
            assert(entries_view(self.entries@).last() == (route, self.entries@.last().1@));
        }
    }

    /// The content for a route; a missing entry degrades to the fixed
    /// placeholder text rather than failing the request.
    pub fn content(&self, route: Route) -> (r: String)
        ensures
            r@ == spec_content(self@, route),
    {
        let ghost es = entries_view(self.entries@);
        let n = self.entries.len();
        let mut i: usize = n;
        while i > 0
            invariant
                i <= n,
                n == self.entries.len(),
                es == entries_view(self.entries@),
                forall|j: int| i <= j < n ==> es[j].0 != route,
            decreases i,
        {
            i -= 1;
            if self.entries[i].0 == route {
                proof {
                    lemma_map_of_last(es, route);
                    assert(es[i as int].0 == route);
                }
                return self.entries[i].1.clone();
            }
        }
        proof {
            lemma_map_of_last(es, route);
        }
        String::from_str("Error reading file")
    }
}

} // verus!
