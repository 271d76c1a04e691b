//! The route guard: gates navigation to protected destinations behind
//! a session check and restores the originally requested destination
//! after authentication.
//!
//! The guard itself never performs the asynchronous session check or
//! the navigation; it decides. Callers hand it the outcome of the
//! check and perform the navigation action it returns.

use vstd::prelude::*;

use crate::routes::{Route, is_guarded, spec_is_guarded};

verus! {

/// A navigation side effect the caller must perform: stay on the
/// current route, push a route onto the history, or replace the
/// current history entry (so the protected route does not remain in
/// back-history).
#[derive(Debug, PartialEq, Eq)]
pub enum NavAction {
    Stay,
    Push(Route),
    Replace(Route),
}

impl Clone for NavAction {
    fn clone(&self) -> (other: NavAction)
        ensures
            other == *self,
    {
        match self {
            NavAction::Stay => NavAction::Stay,
            NavAction::Push(r) => NavAction::Push(r.clone()),
            NavAction::Replace(r) => NavAction::Replace(r.clone()),
        }
    }
}

/// Guard state: at most one pending redirect target at a time.
/// Setting a new target overwrites any previous one (the most recent
/// protected-route visit wins); resolving consumes it.
pub struct GuardContext {
    next: Option<Route>,
}

/// What enforcing a route does to the pending target, and which
/// navigation it requests: nothing for a free route or an
/// authenticated visitor; otherwise the target is remembered and the
/// visitor is sent to the login route by a replace navigation.
pub open spec fn spec_enforce(pending: Option<Route>, current: Route, user_present: bool) -> (
    Option<Route>,
    NavAction,
) {
    if !spec_is_guarded(current) || user_present {
        (pending, NavAction::Stay)
    } else {
        (Some(current), NavAction::Replace(Route::Login))
    }
}

/// What resolving after authentication does: the pending target is
/// consumed, and navigation pushes it if there was one, the home
/// route otherwise.
pub open spec fn spec_resolve(pending: Option<Route>) -> (Option<Route>, NavAction) {
    match pending {
        Some(target) => (None, NavAction::Push(target)),
        None => (None, NavAction::Push(Route::Home)),
    }
}

impl GuardContext {
    /// The route the guard will redirect to after authentication, if
    /// an unauthenticated visit to a protected route set one.
    pub closed spec fn pending_target(&self) -> Option<Route> {
        self.next
    }

    /// A fresh guard holds no pending target.
    pub fn new() -> (guard: GuardContext)
        ensures
            guard.pending_target() is None,
    {
        GuardContext { next: None }
    }

    /// Remember `next` as the destination to restore after
    /// authentication, overwriting any previous one.
    pub fn set_next(&mut self, next: Route)
        ensures
            final(self).pending_target() == Some(next),
    {
        self.next = Some(next);
    }

    /// Consume the pending target and return the navigation to
    /// perform: push the target if one was set, push home otherwise.
    pub fn redirect_next_or_home(&mut self) -> (nav: NavAction)
        ensures
            (final(self).pending_target(), nav) == spec_resolve(old(self).pending_target()),
    {
        let next_maybe = self.next.take();
        if let Some(next) = next_maybe {
            NavAction::Push(next)
        } else {
            NavAction::Push(Route::Home)
        }
    }

    /// Declare a page view protected: given whether the session check
    /// found a user, either stay, or remember `next` and replace the
    /// current history entry with `redirect`.
    pub fn protected(&mut self, redirect: Route, next: Route, user_present: bool) -> (nav:
        NavAction)
        ensures
            user_present ==> final(self).pending_target() == old(self).pending_target() && nav
                == NavAction::Stay,
            !user_present ==> final(self).pending_target() == Some(next) && nav
                == NavAction::Replace(redirect),
    {
        if user_present {
            NavAction::Stay
        } else {
            self.set_next(next);
            NavAction::Replace(redirect)
        }
    }

    /// Enforce the guard on entry to `current`: a free route, or a
    /// guarded route with a user present, is left alone; a guarded
    /// route without a user is remembered and the visitor is sent to
    /// the login route by a replace navigation. A failed session
    /// check is handed in as `user_present == false`: the guard
    /// treats failure identically to "no user".
    pub fn enforce(&mut self, current: Route, user_present: bool) -> (nav: NavAction)
        ensures
            (final(self).pending_target(), nav) == spec_enforce(
                old(self).pending_target(),
                current,
                user_present,
            ),
    {
        if !is_guarded(&current) || user_present {
            NavAction::Stay
        } else {
            self.protected(Route::Login, current, false)
        }
    }
}

/// The lifecycle of one guarded navigation: a route is entered
/// unchecked; a protected route waits for the asynchronous session
/// check; the check settles into rendering or redirecting; and
/// performing the redirect starts the new (login) route unchecked
/// again.
#[derive(Debug, Clone, Copy, PartialEq, Eq)]
pub enum GuardPhase {
    Unchecked,
    Checking,
    Authorized,
    Redirecting,
}

/// Where entering a route moves the lifecycle: a free route is
/// authorized outright, a protected one must be checked first.
pub open spec fn spec_phase_on_entry(current: Route) -> GuardPhase {
    if spec_is_guarded(current) {
        GuardPhase::Checking
    } else {
        GuardPhase::Authorized
    }
}

/// Where the settled session check moves the lifecycle.
pub open spec fn spec_phase_settle(user_present: bool) -> GuardPhase {
    if user_present {
        GuardPhase::Authorized
    } else {
        GuardPhase::Redirecting
    }
}

impl GuardPhase {
    /// Enter a route.
    pub fn on_entry(current: &Route) -> (next: GuardPhase)
        ensures
            next == spec_phase_on_entry(*current),
    {
        if is_guarded(current) {
            GuardPhase::Checking
        } else {
            GuardPhase::Authorized
        }
    }

    /// Settle the pending session check. A failed check is handed in
    /// as `user_present == false`.
    pub fn settle(self, user_present: bool) -> (next: GuardPhase)
        requires
            self is Checking,
        ensures
            next == spec_phase_settle(user_present),
    {
        if user_present {
            GuardPhase::Authorized
        } else {
            GuardPhase::Redirecting
        }
    }

    /// Acknowledge the performed redirect: the login route the
    /// visitor lands on starts unchecked.
    pub fn redirect_performed(self) -> (next: GuardPhase)
        requires
            self is Redirecting,
        ensures
            next is Unchecked,
    {
        GuardPhase::Unchecked
    }
}

/// Law: entering a protected route always awaits the check; the
/// settled check authorizes exactly when a user is present, and
/// otherwise redirects, after which the new route is unchecked. A
/// free route never waits and never redirects.
pub proof fn lemma_phase_walk(current: Route, user_present: bool)
    ensures
        spec_is_guarded(current) ==> spec_phase_on_entry(current) is Checking,
        !spec_is_guarded(current) ==> spec_phase_on_entry(current) is Authorized,
        spec_phase_settle(user_present) is Authorized <==> user_present,
        spec_phase_settle(user_present) is Redirecting <==> !user_present,
{
}

/// Law: if a protected route is enforced while no session exists,
/// exactly one replace navigation to the login route is requested,
/// and the pending target afterwards is that route.
pub proof fn lemma_enforce_unauthenticated(pending: Option<Route>, current: Route)
    requires
        spec_is_guarded(current),
    ensures
        spec_enforce(pending, current, false).0 == Some(current),
        spec_enforce(pending, current, false).1 == NavAction::Replace(Route::Login),
{
}

/// Law: resolving after authentication consumes the pending target;
/// resolving again from the resulting state navigates home.
pub proof fn lemma_resolve_consumes_target(pending: Option<Route>)
    ensures
        spec_resolve(pending).0 is None,
        spec_resolve(spec_resolve(pending).0).1 == NavAction::Push(Route::Home),
{
}

/// Law: an unauthenticated visit to a protected route, followed by a
/// successful authentication, is redirected back to that route (not
/// home), by a replace navigation out and a push navigation back, and
/// leaves no pending target behind.
pub proof fn lemma_guard_round_trip(pending: Option<Route>, current: Route)
    requires
        spec_is_guarded(current),
    ensures
        ({
            let (afterward, out) = spec_enforce(pending, current, false);
            let (cleared, back) = spec_resolve(afterward);
            &&& out == NavAction::Replace(Route::Login)
            &&& back == NavAction::Push(current)
            &&& cleared is None
        }),
{
}

} // verus!
