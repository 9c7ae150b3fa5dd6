//! The service as it is put together: its routes, catchers and attachments.
//!
//! Nothing here listens on a socket. A [`Rocket`] describes what is mounted
//! where, so that the wire contract can be stated and checked; the web framework
//! is set up from it.

use vstd::prelude::*;
use crate::text::views;

verus! {

/// The method of a request.
#[derive(Debug, Clone, Copy, PartialEq, Eq, Structural)]
pub enum Method {
    Get,
    Post,
    Patch,
    Delete,
}

/// One route: a method, the base it is mounted under, its path below the base
/// and the name of its handler.
#[derive(Debug)]
pub struct Route {
    pub method: Method,
    pub base: String,
    pub path: String,
    pub name: String,
}

/// The mathematical content of a [`Route`].
pub struct RouteView {
    pub method: Method,
    pub base: Seq<char>,
    pub path: Seq<char>,
    pub name: Seq<char>,
}

impl View for Route {
    type V = RouteView;

    open spec fn view(&self) -> RouteView {
        RouteView { method: self.method, base: self.base@, path: self.path@, name: self.name@ }
    }
}

/// The views of a list of routes.
pub open spec fn route_views(routes: Seq<Route>) -> Seq<RouteView> {
    Seq::new(routes.len(), |i: int| routes[i]@)
}

/// A route, as a value.
pub open spec fn route(method: Method, base: Seq<char>, path: Seq<char>, name: Seq<char>) -> RouteView {
    RouteView { method, base, path, name }
}

/// The service under construction.
#[derive(Debug)]
pub struct Rocket {
    routes: Vec<Route>,
    catchers: Vec<String>,
    fairings: Vec<String>,
    managed: Vec<String>,
}

impl Rocket {
    /// The routes, in the order they were mounted.
    pub closed spec fn routes(&self) -> Seq<RouteView> {
        route_views(self.routes@)
    }

    /// The bases that the default catcher is registered under.
    pub closed spec fn catchers(&self) -> Seq<Seq<char>> {
        views(self.catchers@)
    }

    /// The names of what is attached: the database pool, the login provider.
    pub closed spec fn fairings(&self) -> Seq<Seq<char>> {
        views(self.fairings@)
    }

    /// The names of the values that the service keeps for its handlers.
    pub closed spec fn managed(&self) -> Seq<Seq<char>> {
        views(self.managed@)
    }

    /// A service with nothing mounted.
    pub fn build() -> (rocket: Rocket)
        ensures
            rocket.routes() == Seq::<RouteView>::empty(),
            rocket.catchers() == Seq::<Seq<char>>::empty(),
            rocket.fairings() == Seq::<Seq<char>>::empty(),
            rocket.managed() == Seq::<Seq<char>>::empty(),
    {
        let rocket = Rocket {
            routes: Vec::new(),
            catchers: Vec::new(),
            fairings: Vec::new(),
            managed: Vec::new(),
        };
        assert(rocket.routes() =~= Seq::<RouteView>::empty());
        assert(rocket.catchers() =~= Seq::<Seq<char>>::empty());
        assert(rocket.fairings() =~= Seq::<Seq<char>>::empty());
        assert(rocket.managed() =~= Seq::<Seq<char>>::empty());
        rocket
    }

    /// Mounts one route under a base.
    pub fn mount(self, method: Method, base: &str, path: &str, name: &str) -> (rocket: Rocket)
        ensures
            rocket.routes() == self.routes().push(route(method, base@, path@, name@)),
            rocket.catchers() == self.catchers(),
            rocket.fairings() == self.fairings(),
            rocket.managed() == self.managed(),
    {
        let mut rocket = self;
        rocket.routes.push(
            Route { method, base: base.to_owned(), path: path.to_owned(), name: name.to_owned() },
        );
        assert(rocket.routes() =~= self.routes().push(route(method, base@, path@, name@)));
        rocket
    }

    /// Registers the default catcher under a base.
    pub fn register(self, base: &str) -> (rocket: Rocket)
        ensures
            rocket.catchers() == self.catchers().push(base@),
            rocket.routes() == self.routes(),
            rocket.fairings() == self.fairings(),
            rocket.managed() == self.managed(),
    {
        let mut rocket = self;
        rocket.catchers.push(base.to_owned());
        assert(rocket.catchers() =~= self.catchers().push(base@));
        rocket
    }

    /// Attaches something by name.
    pub fn attach(self, name: &str) -> (rocket: Rocket)
        ensures
            rocket.fairings() == self.fairings().push(name@),
            rocket.routes() == self.routes(),
            rocket.catchers() == self.catchers(),
            rocket.managed() == self.managed(),
    {
        let mut rocket = self;
        rocket.fairings.push(name.to_owned());
        assert(rocket.fairings() =~= self.fairings().push(name@));
        rocket
    }

    /// Keeps a value for the handlers, by name.
    pub fn manage(self, name: &str) -> (rocket: Rocket)
        ensures
            rocket.managed() == self.managed().push(name@),
            rocket.routes() == self.routes(),
            rocket.catchers() == self.catchers(),
            rocket.fairings() == self.fairings(),
    {
        let mut rocket = self;
        rocket.managed.push(name.to_owned());
        assert(rocket.managed() =~= self.managed().push(name@));
        rocket
    }

    /// How many routes are mounted.
    pub fn route_count(&self) -> (n: usize)
        ensures
            n == self.routes().len(),
    {
        self.routes.len()
    }

    /// The route at a place.
    pub fn route_at(&self, i: usize) -> (r: &Route)
        requires
            i < self.routes().len(),
        ensures
            r@ == self.routes()[i as int],
    {
        &self.routes[i]
    }

    /// The names of what is attached.
    pub fn fairing_names(&self) -> (names: &Vec<String>)
        ensures
            views(names@) == self.fairings(),
    {
        &self.fairings
    }

    /// The bases of the default catcher.
    pub fn catcher_bases(&self) -> (bases: &Vec<String>)
        ensures
            views(bases@) == self.catchers(),
    {
        &self.catchers
    }

    /// The names of the values kept for the handlers.
    pub fn managed_names(&self) -> (names: &Vec<String>)
        ensures
            views(names@) == self.managed(),
    {
        &self.managed
    }
}

/// The five routes of a resource under its base: list, fetch, create, patch and
/// delete.
pub open spec fn crud_routes(base: Seq<char>) -> Seq<RouteView> {
    seq![
        route(Method::Get, base, "/?<limit>&<page>"@, "get_all"@),
        route(Method::Get, base, "/<id>"@, "get_single"@),
        route(Method::Post, base, "/"@, "post"@),
        route(Method::Patch, base, "/<id>"@, "patch"@),
        route(Method::Delete, base, "/<id>"@, "delete"@),
    ]
}

/// Mounts the five routes of a resource under its base.
pub fn mount_crud(rocket: Rocket, base: &str) -> (mounted: Rocket)
    ensures
        mounted.routes() == rocket.routes() + crud_routes(base@),
        mounted.catchers() == rocket.catchers(),
        mounted.fairings() == rocket.fairings(),
        mounted.managed() == rocket.managed(),
{
    let mounted = rocket.mount(Method::Get, base, "/?<limit>&<page>", "get_all");
    let mounted = mounted.mount(Method::Get, base, "/<id>", "get_single");
    let mounted = mounted.mount(Method::Post, base, "/", "post");
    let mounted = mounted.mount(Method::Patch, base, "/<id>", "patch");
    let mounted = mounted.mount(Method::Delete, base, "/<id>", "delete");
    assert(mounted.routes() =~= rocket.routes() + crud_routes(base@));
    mounted
}

} // verus!
