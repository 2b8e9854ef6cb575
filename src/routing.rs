//! A routing table of known (application, operation) destinations.
use crate::collaborators::AppRouter;
use vstd::prelude::*;

verus! {

/// A fixed list of (application, operation) pairs that transactions may name.
pub struct RouteTable {
    routes: Vec<(String, String)>,
}

/// Whether two strings hold the same text, comparing their UTF-8 bytes.
pub(crate) fn same_text(a: &str, b: &str) -> (r: bool)
    ensures
        r == (a@ == b@),
{
    let r = crate::keys::bytes_eq(a.as_bytes(), b.as_bytes());
    proof {
        vstd::utf8::encode_utf8_decode_utf8(a@);
        vstd::utf8::encode_utf8_decode_utf8(b@);
    }
    r
}

impl RouteTable {
    /// The pairs in the table, in the order they were added.
    pub closed spec fn pairs(&self) -> Seq<(Seq<char>, Seq<char>)> {
        self.routes@.map_values(|p: (String, String)| (p.0@, p.1@))
    }

    /// A table with no routes.
    pub fn new() -> (r: RouteTable)
        ensures
            r.pairs() == Seq::<(Seq<char>, Seq<char>)>::empty(),
    {
        let r = RouteTable { routes: Vec::new() };
        assert(r.pairs() =~= Seq::<(Seq<char>, Seq<char>)>::empty());
        r
    }

    /// Adds the destination (`app_name`, `operation`).
    pub fn add(&mut self, app_name: &str, operation: &str)
        ensures
            final(self).pairs() == old(self).pairs().push((app_name@, operation@)),
    {
        self.routes.push((app_name.to_string(), operation.to_string()));
        assert(self.pairs() =~= old(self).pairs().push((app_name@, operation@)));
    }
}

impl AppRouter for RouteTable {
    open spec fn routes(&self, app_name: Seq<char>, operation: Seq<char>) -> bool {
        self.pairs().contains((app_name, operation))
    }

    fn is_exist(&self, app_name: &str, operation: &str) -> (r: bool) {
        let mut i: usize = 0;
        while i < self.routes.len()
            invariant
                i <= self.pairs().len(),
                self.pairs().len() == self.routes@.len(),
                forall|j: int| 0 <= j < i ==> #[trigger] self.pairs()[j] != (app_name@, operation@),
            decreases self.routes@.len() - i,
        {
            if same_text(self.routes[i].0.as_str(), app_name) && same_text(
                self.routes[i].1.as_str(),
                operation,
            ) {
                assert(self.pairs()[i as int] == (app_name@, operation@));
                return true;
            }
            i = i + 1;
        }
        false
    }
}

} // verus!
