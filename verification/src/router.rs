//! Routes: which handler answers a request with a given method and path.
//!
//! A route is a regular expression, a method and a handler. A router holds
//! routes in the order in which they were added, and a request goes to the
//! first route whose method is that of the request and whose expression
//! matches the path.

use regex::Regex;
use vstd::prelude::*;

verus! {

/// A compiled regular expression, `regex::Regex`.
#[verifier::external_type_specification]
#[verifier::external_body]
pub struct ExRegex(Regex);

/// The error of a pattern that does not compile, `regex::Error`.
#[verifier::external_type_specification]
#[verifier::external_body]
pub struct ExRegexError(regex::Error);

/// Whether `Regex::new` accepts the pattern.
pub uninterp spec fn pattern_compiles(pattern: Seq<char>) -> bool;

/// Whether the expression that `Regex::new` makes of `pattern` has a match
/// anywhere in `haystack`.
pub uninterp spec fn pattern_matches(pattern: Seq<char>, haystack: Seq<char>) -> bool;

/// Whether a compiled expression has a match anywhere in `haystack`, which is
/// what `Regex::is_match` answers.
pub uninterp spec fn regex_matches(regex: Regex, haystack: Seq<char>) -> bool;

/// `Regex::new` compiles a pattern with the default settings. Whether it
/// accepts the pattern depends on the pattern alone, and so does what the
/// expression it returns matches.
pub assume_specification[ Regex::new ](re: &str) -> (compiled: Result<Regex, regex::Error>)
    ensures
        compiled is Ok <==> pattern_compiles(re@),
        compiled matches Ok(regex) ==> forall|haystack: Seq<char>|
            #[trigger] regex_matches(regex, haystack) == pattern_matches(re@, haystack),
;

/// `Regex::is_match` tells whether the expression has a match anywhere in the
/// haystack. Its answer depends on the expression and the haystack alone.
pub assume_specification[ Regex::is_match ](regex: &Regex, haystack: &str) -> (found: bool)
    ensures
        found == regex_matches(*regex, haystack@),
;

/// The method of a request.
#[derive(Clone, Copy, Debug, PartialEq, Eq, Structural)]
pub enum Method {
    Options,
    Get,
    Post,
    Put,
    Delete,
    Head,
    Trace,
    Connect,
    Patch,
}

/// What went wrong with a route or a router.
#[derive(Debug)]
pub struct RouterError {
    pub details: String,
}

impl RouterError {
    /// An error that carries `msg`.
    pub fn new(msg: &str) -> (error: RouterError)
        ensures
            error.details@ == msg@,
    {
        RouterError { details: msg.to_owned() }
    }

    /// The message of the error.
    pub fn description(&self) -> (text: &str)
        ensures
            text@ == self.details@,
    {
        self.details.as_str()
    }
}

/// A regular expression, a method and the handler for the requests that fit
/// both.
pub struct Route<H> {
    /// The expression that the path of a request must match.
    pub regex: Regex,
    /// The method that a request must have.
    pub verb: Method,
    /// The handler of the requests that fit.
    pub handler: H,
}

/// A list of routes, and of routers below this one.
pub struct Router<H> {
    /// Routers below this one. They are kept, and not searched.
    pub child_routers: Vec<Router<H>>,
    /// The routes, in the order in which they were added.
    pub routes: Vec<Route<H>>,
}

impl<H: Copy> Route<H> {
    /// Whether the route takes a request with this method and path.
    pub open spec fn takes(&self, verb: Method, path: Seq<char>) -> bool {
        self.verb == verb && regex_matches(self.regex, path)
    }

    /// A route for the requests with method `verb` whose path matches the
    /// pattern `re`. A pattern that does not compile is refused.
    pub fn new(re: &str, verb: Method, handler: H) -> (route: Result<Route<H>, RouterError>)
        ensures
            route is Ok <==> pattern_compiles(re@),
            route matches Ok(made) ==> made.verb == verb && made.handler == handler,
            route matches Ok(made) ==> forall|method: Method, path: Seq<char>|
                #[trigger] made.takes(method, path) <==> method == verb && pattern_matches(
                    re@,
                    path,
                ),
            route matches Err(error) ==> error.details@ == "Invalid route"@,
    {
        match Regex::new(re) {
            Ok(regex) => Ok(Route { regex, verb, handler }),
            Err(_) => Err(RouterError::new("Invalid route")),
        }
    }

    /// The handler of the route, if the route takes a request with this
    /// method and path.
    pub fn is_match(&self, verb: &Method, path: &str) -> (handler: Option<H>)
        ensures
            handler == if self.takes(*verb, path@) {
                Some(self.handler)
            } else {
                None
            },
    {
        if self.verb != *verb {
            return None;
        }
        if !self.regex.is_match(path) {
            return None;
        }
        Some(self.handler)
    }
}

/// The place of the first of `routes` that takes the request, or the number
/// of routes where none does.
pub open spec fn first_taker<H: Copy>(routes: Seq<Route<H>>, verb: Method, path: Seq<char>) -> int
    decreases routes.len(),
{
    if routes.len() == 0 {
        0
    } else if routes[0].takes(verb, path) {
        0
    } else {
        1 + first_taker(routes.drop_first(), verb, path)
    }
}

/// The handler that `routes` give a request: that of the first route which
/// takes it.
pub open spec fn routed<H: Copy>(routes: Seq<Route<H>>, verb: Method, path: Seq<char>) -> Option<
    H,
> {
    let place = first_taker(routes, verb, path);
    if place < routes.len() {
        Some(routes[place].handler)
    } else {
        None
    }
}

/// `first_taker` is the place of a route that takes the request, before which
/// no route takes it; or there is no such route at all.
pub proof fn lemma_first_taker<H: Copy>(routes: Seq<Route<H>>, verb: Method, path: Seq<char>)
    ensures
        0 <= first_taker(routes, verb, path) <= routes.len(),
        first_taker(routes, verb, path) < routes.len() ==> routes[first_taker(
            routes,
            verb,
            path,
        )].takes(verb, path),
        forall|k: int|
            0 <= k < first_taker(routes, verb, path) ==> !(#[trigger] routes[k]).takes(verb, path),
    decreases routes.len(),
{
    if routes.len() > 0 && !routes[0].takes(verb, path) {
        let rest = routes.drop_first();
        lemma_first_taker(rest, verb, path);
        assert forall|k: int| 0 <= k < first_taker(routes, verb, path) implies !(
        #[trigger] routes[k]).takes(verb, path) by {
            if k > 0 {
                assert(routes[k] == rest[k - 1]);
            }
        }
    }
}

impl<H: Copy> Router<H> {
    /// A router without routes.
    pub fn new() -> (router: Router<H>)
        ensures
            router.routes@.len() == 0,
            router.child_routers@.len() == 0,
    {
        Router { child_routers: Vec::new(), routes: Vec::new() }
    }

    /// Adds `route` after the routes that the router has.
    pub fn add_route(&mut self, route: Route<H>)
        ensures
            final(self).routes@ == old(self).routes@.push(route),
            final(self).child_routers@ == old(self).child_routers@,
    {
        self.routes.push(route);
    }

    /// The handler for a request with this method and path: that of the first
    /// route, in the order in which the routes were added, that takes the
    /// request.
    pub fn route(&self, verb: &Method, path: &str) -> (handler: Option<H>)
        ensures
            handler == routed(self.routes@, *verb, path@),
    {
        let mut k: usize = 0;
        while k < self.routes.len()
            invariant
                k <= self.routes@.len(),
                forall|j: int| 0 <= j < k ==> !(#[trigger] self.routes@[j]).takes(*verb, path@),
            decreases self.routes@.len() - k,
        {
            match self.routes[k].is_match(verb, path) {
                Some(handler) => {
                    proof {
                        lemma_first_taker(self.routes@, *verb, path@);
                        let place = first_taker(self.routes@, *verb, path@);
                        if place > k {
                            assert(!self.routes@[k as int].takes(*verb, path@));
                        }
                        if place < k {
                            assert(self.routes@[place].takes(*verb, path@));
                        }
                    }
                    return Some(handler);
                },
                None => {},
            }
            k = k + 1;
        }
        proof {
            lemma_first_taker(self.routes@, *verb, path@);
            let place = first_taker(self.routes@, *verb, path@);
            if place < self.routes@.len() {
                assert(self.routes@[place].takes(*verb, path@));
            }
        }
        None
    }

    /// The router with `child` added below it.
    pub fn add_child(self, child: Router<H>) -> (router: Router<H>)
        ensures
            router.routes@ == self.routes@,
            router.child_routers@ == self.child_routers@.push(child),
    {
        let mut router = self;
        router.child_routers.push(child);
        router
    }
}

} // verus!
