//! The closed enumeration of navigable destinations, and the
//! membership test deciding which of them require a session.

use vstd::prelude::*;

verus! {

/// A navigable destination. Identity is structural: a route is a
/// variant together with its parameters, passed by value between the
/// router and the guard.
#[derive(Debug, PartialEq, Eq)]
pub enum Route {
    Home,
    Blog,
    BlogPostDetail { slug: String },
    About,
    Contact,
    Projects,
    Resume,
    Protected,
    Login,
    Callback,
}

impl Clone for Route {
    fn clone(&self) -> (other: Route)
        ensures
            other == *self,
    {
        match self {
            Route::Home => Route::Home,
            Route::Blog => Route::Blog,
            Route::BlogPostDetail { slug } => Route::BlogPostDetail { slug: slug.clone() },
            Route::About => Route::About,
            Route::Contact => Route::Contact,
            Route::Projects => Route::Projects,
            Route::Resume => Route::Resume,
            Route::Protected => Route::Protected,
            Route::Login => Route::Login,
            Route::Callback => Route::Callback,
        }
    }
}

/// Which routes are gated behind an authenticated session. Total over
/// the enumeration: every variant not listed as protected is free.
pub open spec fn spec_is_guarded(current: Route) -> bool {
    match current {
        Route::Protected => true,
        _ => false,
    }
}

/// Register the protected state of routes here.
pub fn is_guarded(current: &Route) -> (guarded: bool)
    ensures
        guarded == spec_is_guarded(*current),
{
    match current {
        Route::Protected => true,
        _ => false,
    }
}

/// Law: the guard membership test is a pure, total function. It is
/// defined on every route, and two evaluations on equal routes agree.
pub proof fn lemma_is_guarded_deterministic(a: Route, b: Route)
    requires
        a == b,
    ensures
        spec_is_guarded(a) == spec_is_guarded(b),
{
}

} // verus!
