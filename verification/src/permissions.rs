//! The permission-request policy of the embedded web view.
//!
//! The host's web-rendering engine raises a permission request whenever an
//! embedded page asks for a browser-style capability. The shell answers each
//! request independently: a user-media (camera or microphone) request is
//! granted and the event reported as handled; every other kind is passed
//! through to the host's default handling. The interceptor that applies this
//! policy is installed on one platform only; elsewhere the bootstrap installs
//! nothing and the host's defaults apply to every request.

use vstd::prelude::*;

verus! {

/// A category of permission request raised by the embedded web view.
/// Categories the policy does not single out fall under `Other` and are
/// passed through, so the policy fails open to the host's default.
#[derive(Clone, Copy, Debug, PartialEq, Eq, Structural)]
pub enum PermissionKind {
    /// Camera or microphone access requested by a page.
    UserMedia,
    /// Access to the device's location.
    Geolocation,
    /// Leave to show desktop notifications.
    Notification,
    /// Enumeration of the attached media devices.
    DeviceInfo,
    /// Exclusive capture of the pointer.
    PointerLock,
    /// A media key system for protected playback.
    MediaKeySystem,
    /// Any category not singled out above.
    Other,
}

/// What the interceptor does with one request.
#[derive(Clone, Copy, Debug, PartialEq, Eq, Structural)]
pub enum PermissionOutcome {
    /// The request is granted and the event reported as handled, which
    /// suppresses the host's default prompt.
    Granted,
    /// Nothing is done to the request and the event is reported as not
    /// handled, so the host's default policy applies.
    PassedThrough,
}

/// The platform the shell was started on, as the bootstrap resolves it.
#[derive(Clone, Copy, Debug, PartialEq, Eq, Structural)]
pub enum Platform {
    /// The one platform whose web-rendering engine exposes the
    /// permission-request signal the interceptor attaches to.
    Linux,
    /// Any other platform.
    Unsupported,
}

/// Which interceptor the bootstrap installs.
#[derive(Clone, Copy, Debug, PartialEq, Eq, Structural)]
pub enum InterceptorStrategy {
    /// Attach the auto-grant policy to the web view's permission events.
    AutoGrantMedia,
    /// Install nothing: every request keeps the host's default handling.
    NoOp,
}

/// The auto-grant policy: a user-media request is granted, anything else
/// is passed through.
pub open spec fn media_policy(kind: PermissionKind) -> PermissionOutcome {
    match kind {
        PermissionKind::UserMedia => PermissionOutcome::Granted,
        _ => PermissionOutcome::PassedThrough,
    }
}

/// The strategy the bootstrap selects for a platform: the auto-grant
/// interceptor on the one platform that supports it, nothing elsewhere.
pub open spec fn strategy_of(platform: Platform) -> InterceptorStrategy {
    match platform {
        Platform::Linux => InterceptorStrategy::AutoGrantMedia,
        Platform::Unsupported => InterceptorStrategy::NoOp,
    }
}

/// What one permission request comes to under a strategy.
pub open spec fn outcome_of(strategy: InterceptorStrategy, kind: PermissionKind) -> PermissionOutcome {
    match strategy {
        InterceptorStrategy::AutoGrantMedia => media_policy(kind),
        InterceptorStrategy::NoOp => PermissionOutcome::PassedThrough,
    }
}

impl PermissionOutcome {
    /// Whether the request is granted.
    pub fn grants(&self) -> (b: bool)
        ensures
            b == (*self is Granted),
    {
        match self {
            PermissionOutcome::Granted => true,
            PermissionOutcome::PassedThrough => false,
        }
    }

    /// Whether the event is reported to the engine as handled. The policy
    /// handles exactly the events it grants: a grant must suppress the
    /// default prompt, and a pass-through must leave it in place.
    pub fn marks_handled(&self) -> (b: bool)
        ensures
            b == (*self is Granted),
    {
        match self {
            PermissionOutcome::Granted => true,
            PermissionOutcome::PassedThrough => false,
        }
    }
}

/// Answers one permission request under the auto-grant policy. Grants if
/// and only if the request is a user-media request; every other kind is
/// passed through, untouched.
pub fn decide_permission(kind: PermissionKind) -> (out: PermissionOutcome)
    ensures
        out == media_policy(kind),
        out is Granted <==> kind is UserMedia,
{
    match kind {
        PermissionKind::UserMedia => PermissionOutcome::Granted,
        _ => PermissionOutcome::PassedThrough,
    }
}

/// Resolves the interceptor for the platform the shell started on: the
/// auto-grant interceptor exactly on the one supported platform.
pub fn select_strategy(platform: Platform) -> (s: InterceptorStrategy)
    ensures
        s == strategy_of(platform),
        s is AutoGrantMedia <==> platform is Linux,
{
    match platform {
        Platform::Linux => InterceptorStrategy::AutoGrantMedia,
        Platform::Unsupported => InterceptorStrategy::NoOp,
    }
}

/// Answers one permission request under the installed strategy. Each
/// request is classified on its own: no state carries over between calls.
pub fn handle_permission_request(strategy: InterceptorStrategy, kind: PermissionKind) -> (out: PermissionOutcome)
    ensures
        out == outcome_of(strategy, kind),
        out is Granted <==> strategy is AutoGrantMedia && kind is UserMedia,
{
    match strategy {
        InterceptorStrategy::AutoGrantMedia => decide_permission(kind),
        InterceptorStrategy::NoOp => PermissionOutcome::PassedThrough,
    }
}

/// Where the interceptor is active, a user-media request is granted and the
/// event handled, and a request of any other kind is passed through with no
/// grant issued.
pub proof fn lemma_active_interceptor_grants_media_only(platform: Platform, kind: PermissionKind)
    requires
        strategy_of(platform) is AutoGrantMedia,
    ensures
        outcome_of(strategy_of(platform), kind) is Granted <==> kind is UserMedia,
        kind !is UserMedia ==> outcome_of(strategy_of(platform), kind) is PassedThrough,
{
}

/// On every platform but the supported one, no interceptor is installed and
/// no request of any kind is auto-granted: each keeps the host's default
/// handling.
pub proof fn lemma_no_interceptor_elsewhere(platform: Platform, kind: PermissionKind)
    requires
        platform !is Linux,
    ensures
        strategy_of(platform) is NoOp,
        outcome_of(strategy_of(platform), kind) is PassedThrough,
{
}

} // verus!
