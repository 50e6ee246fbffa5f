//! Middleware as values, and the stacks that hold them.
use vstd::prelude::*;
use vstd::string::*;
use crate::text::str_eq;
use super::presets::{Cors, CorsView, TrimStrings};

verus! {

/// Any available middleware.
pub enum Middleware {
    Cors(Cors),
    TrimStrings(TrimStrings),
}

/// What a middleware is.
pub enum MiddlewareView {
    Cors(CorsView),
    TrimStrings,
}

impl View for Middleware {
    type V = MiddlewareView;

    open spec fn view(&self) -> MiddlewareView {
        match self {
            Middleware::Cors(c) => MiddlewareView::Cors(c@),
            Middleware::TrimStrings(_) => MiddlewareView::TrimStrings,
        }
    }
}

impl Clone for Middleware {
    fn clone(&self) -> (m: Self)
        ensures
            m@ == self@,
    {
        match self {
            Middleware::Cors(c) => Middleware::Cors(c.clone()),
            Middleware::TrimStrings(t) => Middleware::TrimStrings(*t),
        }
    }
}

impl From<Cors> for Middleware {
    fn from(cors: Cors) -> Self {
        Middleware::Cors(cors)
    }
}

impl From<TrimStrings> for Middleware {
    fn from(trim: TrimStrings) -> Self {
        Middleware::TrimStrings(trim)
    }
}

impl vstd::std_specs::convert::FromSpecImpl<Cors> for Middleware {
    open spec fn obeys_from_spec() -> bool {
        true
    }

    open spec fn from_spec(v: Cors) -> Middleware {
        Middleware::Cors(v)
    }
}

impl vstd::std_specs::convert::FromSpecImpl<TrimStrings> for Middleware {
    open spec fn obeys_from_spec() -> bool {
        true
    }

    open spec fn from_spec(v: TrimStrings) -> Middleware {
        Middleware::TrimStrings(v)
    }
}

pub open spec fn middleware_views(v: Seq<Middleware>) -> Seq<MiddlewareView> {
    v.map_values(|m: Middleware| m@)
}

/// Copies a list of middleware.
pub fn clone_middlewares(v: &Vec<Middleware>) -> (r: Vec<Middleware>)
    ensures
        middleware_views(r@) == middleware_views(v@),
{
    let mut r: Vec<Middleware> = Vec::new();
    let mut i: usize = 0;
    while i < v.len()
        invariant
            i <= v.len(),
            middleware_views(r@) =~= middleware_views(v@).take(i as int),
        decreases v.len() - i,
    {
        let ghost before = r@;
        r.push(v[i].clone());
        assert(middleware_views(r@) =~= middleware_views(before).push(v@[i as int]@));
        i = i + 1;
    }
    assert(middleware_views(v@).take(v.len() as int) =~= middleware_views(v@));
    r
}

/// The order in which a route wraps its middleware: the last one added is applied
/// innermost, so the first one added runs first on a request.
pub fn layering_order(middlewares: &Vec<Middleware>) -> (r: Vec<Middleware>)
    ensures
        middleware_views(r@) == middleware_views(middlewares@).reverse(),
{
    let mut r: Vec<Middleware> = Vec::new();
    let mut i: usize = middlewares.len();
    while i > 0
        invariant
            i <= middlewares.len(),
            middleware_views(r@) =~= middleware_views(middlewares@).subrange(i as int, middlewares.len() as int).reverse(),
        decreases i,
    {
        i = i - 1;
        let ghost before = r@;
        r.push(middlewares[i].clone());
        assert(middleware_views(r@) =~= middleware_views(before).push(middlewares@[i as int]@));
    }
    assert(middleware_views(middlewares@).subrange(0, middlewares.len() as int) =~= middleware_views(middlewares@));
    r
}

/// Named groups of middleware, as `(name, middleware)` pairs in declaration order.
pub type GroupsView = Seq<(Seq<char>, Seq<MiddlewareView>)>;

/// What a stack is: the global middleware, and the groups.
pub struct StackView {
    pub global: Seq<MiddlewareView>,
    pub groups: GroupsView,
}

/// The middleware of the first group called `name`, if any.
pub open spec fn find_group(groups: GroupsView, name: Seq<char>) -> Option<Seq<MiddlewareView>>
    decreases groups.len(),
{
    if groups.len() == 0 {
        None
    } else if groups[0].0 == name {
        Some(groups[0].1)
    } else {
        find_group(groups.drop_first(), name)
    }
}

/// The middleware configuration of an application.
pub struct MiddlewareStack {
    global: Vec<Middleware>,
    groups: Vec<(String, Vec<Middleware>)>,
}

pub open spec fn group_views(v: Seq<(String, Vec<Middleware>)>) -> GroupsView {
    v.map_values(|g: (String, Vec<Middleware>)| (g.0@, middleware_views(g.1@)))
}

impl View for MiddlewareStack {
    type V = StackView;

    closed spec fn view(&self) -> StackView {
        StackView { global: middleware_views(self.global@), groups: group_views(self.groups@) }
    }
}

impl MiddlewareStack {
    /// No middleware.
    pub fn new() -> (s: Self)
        ensures
            s@.global == Seq::<MiddlewareView>::empty(),
            s@.groups == GroupsView::empty(),
    {
        let s = MiddlewareStack { global: Vec::new(), groups: Vec::new() };
        assert(s@.global =~= Seq::<MiddlewareView>::empty());
        assert(s@.groups =~= GroupsView::empty());
        s
    }

    /// Adds a middleware run on every request.
    pub fn add(&mut self, middleware: Middleware)
        ensures
            final(self)@.global == old(self)@.global.push(middleware@),
            final(self)@.groups == old(self)@.groups,
    {
        let ghost m = middleware@;
        self.global.push(middleware);
        assert(middleware_views(self.global@) =~= middleware_views(old(self).global@).push(m));
    }

    /// Declares a named group of middleware.
    pub fn group(&mut self, name: &str, middlewares: Vec<Middleware>)
        ensures
            final(self)@.global == old(self)@.global,
            final(self)@.groups == old(self)@.groups.push((name@, middleware_views(middlewares@))),
    {
        let ghost g = (name@, middleware_views(middlewares@));
        self.groups.push((String::from_str(name), middlewares));
        assert(group_views(self.groups@) =~= group_views(old(self).groups@).push(g));
    }

    /// A copy of the global middleware.
    pub fn global(&self) -> (r: Vec<Middleware>)
        ensures
            middleware_views(r@) == self@.global,
    {
        clone_middlewares(&self.global)
    }

    /// A copy of the middleware of the first group called `name`, if any.
    pub fn group_middlewares(&self, name: &str) -> (r: Option<Vec<Middleware>>)
        ensures
            match find_group(self@.groups, name@) {
                None => r is None,
                Some(g) => r matches Some(v) && middleware_views(v@) == g,
            },
    {
        let ghost gs = self@.groups;
        let mut i: usize = 0;
        assert(gs.skip(0) =~= gs);
        while i < self.groups.len()
            invariant
                i <= self.groups.len(),
                gs == group_views(self.groups@),
                find_group(gs, name@) == find_group(gs.skip(i as int), name@),
            decreases self.groups.len() - i,
        {
            assert(gs.skip(i as int)[0] == gs[i as int]);
            assert(gs.skip(i as int).drop_first() =~= gs.skip(i + 1));
            if str_eq(self.groups[i].0.as_str(), name) {
                return Some(clone_middlewares(&self.groups[i].1));
            }
            i = i + 1;
        }
        assert(gs.skip(i as int) =~= GroupsView::empty());
        None
    }
}

/// Declaring another group under a name already in use changes nothing that a lookup
/// finds; a new name finds the new group.
pub proof fn first_group_wins(groups: GroupsView, name: Seq<char>, middlewares: Seq<MiddlewareView>, asked: Seq<char>)
    ensures
        find_group(groups.push((name, middlewares)), asked) == (match find_group(groups, asked) {
            Some(g) => Some(g),
            None => if asked == name { Some(middlewares) } else { None },
        }),
    decreases groups.len(),
{
    let pushed = groups.push((name, middlewares));
    if groups.len() == 0 {
        assert(pushed[0] == (name, middlewares));
        assert(pushed.drop_first() =~= GroupsView::empty());
        assert(find_group(pushed.drop_first(), asked) is None);
    } else {
        assert(pushed[0] == groups[0]);
        assert(pushed.drop_first() =~= groups.drop_first().push((name, middlewares)));
        first_group_wins(groups.drop_first(), name, middlewares, asked);
    }
}

} // verus!
