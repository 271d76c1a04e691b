use portfolio_web::guard::{GuardContext, GuardPhase, NavAction};
use portfolio_web::routes::{is_guarded, Route};

#[test]
fn is_guarded_total_and_repeatable() {
    let all = vec![
        Route::Home,
        Route::Blog,
        Route::BlogPostDetail {
            slug: "a-post".to_string(),
        },
        Route::About,
        Route::Contact,
        Route::Projects,
        Route::Resume,
        Route::Protected,
        Route::Login,
        Route::Callback,
    ];
    for route in &all {
        let first = is_guarded(route);
        let second = is_guarded(route);
        assert_eq!(first, second);
        assert_eq!(first, matches!(route, Route::Protected));
    }
}

#[test]
fn enforce_unauthenticated_redirects_and_remembers() {
    let mut guard = GuardContext::new();
    let action = guard.enforce(Route::Protected, false);
    assert_eq!(action, NavAction::Replace(Route::Login));
    // The pending target is observable through the resolve step.
    let back = guard.redirect_next_or_home();
    assert_eq!(back, NavAction::Push(Route::Protected));
}

#[test]
fn enforce_free_route_is_a_no_op() {
    let mut guard = GuardContext::new();
    assert_eq!(guard.enforce(Route::Blog, false), NavAction::Stay);
    assert_eq!(guard.redirect_next_or_home(), NavAction::Push(Route::Home));
}

#[test]
fn enforce_with_session_is_a_no_op() {
    let mut guard = GuardContext::new();
    assert_eq!(guard.enforce(Route::Protected, true), NavAction::Stay);
    assert_eq!(guard.redirect_next_or_home(), NavAction::Push(Route::Home));
}

#[test]
fn resolve_after_auth_consumes_the_target() {
    let mut guard = GuardContext::new();
    guard.set_next(Route::Protected);
    assert_eq!(guard.redirect_next_or_home(), NavAction::Push(Route::Protected));
    // A second resolution finds nothing and navigates home.
    assert_eq!(guard.redirect_next_or_home(), NavAction::Push(Route::Home));
}

#[test]
fn guard_round_trip_returns_to_protected_not_home() {
    let mut guard = GuardContext::new();
    let out = guard.enforce(Route::Protected, false);
    assert_eq!(out, NavAction::Replace(Route::Login));
    let back = guard.redirect_next_or_home();
    assert_eq!(back, NavAction::Push(Route::Protected));
    assert_ne!(back, NavAction::Push(Route::Home));
}

#[test]
fn protected_view_redirects_without_session() {
    let mut guard = GuardContext::new();
    let action = guard.protected(Route::Login, Route::Protected, false);
    assert_eq!(action, NavAction::Replace(Route::Login));
    assert_eq!(guard.redirect_next_or_home(), NavAction::Push(Route::Protected));
}

#[test]
fn protected_view_stays_with_session() {
    let mut guard = GuardContext::new();
    let action = guard.protected(Route::Login, Route::Protected, true);
    assert_eq!(action, NavAction::Stay);
}

#[test]
fn guard_phases_walk_the_allowed_edges() {
    // A protected route awaits the check, then redirects without a
    // user, and the performed redirect leaves the new route unchecked.
    let entered = GuardPhase::on_entry(&Route::Protected);
    assert_eq!(entered, GuardPhase::Checking);
    let settled = entered.settle(false);
    assert_eq!(settled, GuardPhase::Redirecting);
    assert_eq!(settled.redirect_performed(), GuardPhase::Unchecked);
    // With a user present the route is simply authorized.
    assert_eq!(GuardPhase::on_entry(&Route::Protected).settle(true), GuardPhase::Authorized);
    // A free route never waits.
    assert_eq!(GuardPhase::on_entry(&Route::Blog), GuardPhase::Authorized);
}

#[test]
fn last_protected_visit_wins() {
    let mut guard = GuardContext::new();
    guard.set_next(Route::Blog);
    guard.set_next(Route::Protected);
    assert_eq!(guard.redirect_next_or_home(), NavAction::Push(Route::Protected));
}
