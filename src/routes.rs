use vstd::prelude::*;
use vstd::string::StringExecFns;
use crate::types::RequestMethod;

verus! {

/// One registered route: a path and a method.
#[derive(Debug)]
pub struct RouteKey {
    pub path: String,
    pub method: RequestMethod,
}

impl RouteKey {
    pub open spec fn view(&self) -> (Seq<char>, RequestMethod) {
        (self.path@, self.method)
    }
}

/// A second registration of a (path, method) pair that is already taken.
#[derive(Debug)]
pub struct RouteConflict {
    pub path: String,
    pub method: RequestMethod,
}

/// The server-side table of routes, in registration order; no
/// (path, method) pair appears twice.
#[derive(Debug)]
pub struct RouteTable {
    routes: Vec<RouteKey>,
}

/// Whether no pair occurs twice in `s`.
pub open spec fn all_distinct(s: Seq<(Seq<char>, RequestMethod)>) -> bool {
    forall|i: int, j: int| 0 <= i < s.len() && 0 <= j < s.len() && i != j ==> s[i] != s[j]
}

impl View for RouteTable {
    type V = Seq<(Seq<char>, RequestMethod)>;

    closed spec fn view(&self) -> Seq<(Seq<char>, RequestMethod)> {
        self.routes@.map_values(|k: RouteKey| k@)
    }
}

impl RouteTable {
    pub open spec fn wf(&self) -> bool {
        all_distinct(self@)
    }

    /// An empty table.
    pub fn new() -> (r: RouteTable)
        ensures
            r@ == Seq::<(Seq<char>, RequestMethod)>::empty(),
            r.wf(),
    {
        let r = RouteTable { routes: Vec::new() };
        assert(r@ =~= Seq::<(Seq<char>, RequestMethod)>::empty());
        r
    }

    /// The number of registered routes.
    pub fn len(&self) -> (r: usize)
        ensures
            r == self@.len(),
    {
        self.routes.len()
    }

    /// Whether `method` is already registered at `path`.
    pub fn contains(&self, path: &str, method: RequestMethod) -> (r: bool)
        ensures
            r == self@.contains((path@, method)),
    {
        let p = String::from_str(path);
        let mut i: usize = 0;
        while i < self.routes.len()
            invariant
                0 <= i <= self.routes.len(),
                p@ == path@,
                forall|j: int| 0 <= j < i ==> self@[j] != (path@, method),
            decreases self.routes.len() - i,
        {
            if self.routes[i].method == method && self.routes[i].path == p {
                assert(self@[i as int] == (path@, method));
                return true;
            }
            i += 1;
        }
        false
    }

    /// Registers `method` at `path`. A pair that is already registered is
    /// refused with a conflict and leaves the table unchanged; the first
    /// registration is never overridden.
    pub fn register(&mut self, path: &str, method: RequestMethod) -> (r: Result<(), RouteConflict>)
        requires
            old(self).wf(),
        ensures
            final(self).wf(),
            r is Err <==> old(self)@.contains((path@, method)),
            r is Ok ==> final(self)@ == old(self)@.push((path@, method)),
            final(self)@.contains((path@, method)),
            r is Err ==> final(self)@ == old(self)@ && r->Err_0.path@ == path@
                && r->Err_0.method == method,
    {
        if self.contains(path, method) {
            return Err(RouteConflict { path: String::from_str(path), method });
        }
        let key = RouteKey { path: String::from_str(path), method };
        self.routes.push(key);
        proof {
            let s = old(self)@;
            assert(self@ =~= s.push((path@, method)));
            assert(self@[s.len() as int] == (path@, method));
            assert forall|i: int, j: int|
                0 <= i < self@.len() && 0 <= j < self@.len() && i != j implies self@[i]
                != self@[j] by {
                if i < s.len() && j < s.len() {
                    assert(self@[i] == s[i] && self@[j] == s[j]);
                } else if i == s.len() {
                    assert(self@[j] == s[j]);
                } else {
                    assert(self@[i] == s[i]);
                }
            }
        }
        Ok(())
    }

    /// The registered (path, method) pairs, in registration order.
    pub fn routes(&self) -> (r: Vec<(String, RequestMethod)>)
        ensures
            r@.len() == self@.len(),
            forall|i: int| 0 <= i < r@.len() ==> (r@[i].0@, r@[i].1) == self@[i],
    {
        let mut out: Vec<(String, RequestMethod)> = Vec::new();
        let mut i: usize = 0;
        while i < self.routes.len()
            invariant
                0 <= i <= self.routes.len(),
                out@.len() == i,
                forall|j: int| 0 <= j < i ==> (out@[j].0@, out@[j].1) == self@[j],
            decreases self.routes.len() - i,
        {
            let p = String::from_str(self.routes[i].path.as_str());
            out.push((p, self.routes[i].method));
            i += 1;
        }
        out
    }
}

/// Two different request types with the same contract collide: whichever
/// is registered second is refused, whatever was registered in between.
pub proof fn lemma_colliding_registration_conflicts(
    routes: Seq<(Seq<char>, RequestMethod)>,
    between: Seq<(Seq<char>, RequestMethod)>,
    path: Seq<char>,
    method: RequestMethod,
)
    ensures
        (routes.push((path, method)) + between).contains((path, method)),
{
    let s = routes.push((path, method)) + between;
    assert(s[routes.len() as int] == (path, method));
}

/// On any table where a pair is not yet taken, registering the same path
/// with some method takes that pair exactly when the methods are equal: a
/// second registration at one path conflicts with the first exactly when
/// both use the same method.
pub proof fn lemma_same_path_conflicts_iff_same_method(
    routes: Seq<(Seq<char>, RequestMethod)>,
    path: Seq<char>,
    first: RequestMethod,
    second: RequestMethod,
)
    requires
        !routes.contains((path, second)),
    ensures
        routes.push((path, first)).contains((path, second)) <==> first == second,
{
    let s = routes.push((path, first));
    if first == second {
        assert(s[routes.len() as int] == (path, second));
    }
    if s.contains((path, second)) {
        let i = choose|i: int| 0 <= i < s.len() && s[i] == (path, second);
        if i < routes.len() {
            assert(routes[i] == (path, second));
        }
    }
}

} // verus!
