//! The request authentication pipeline.
//!
//! Per request it runs: extract the bearer credential from the
//! authorization header, validate the token, map the route to the
//! permission it requires (most routes require none), and, where one is
//! required, ask the permission resolver.  Any failure rejects the
//! request; the three token failure causes collapse into one uniform
//! `Unauthorized` message so a caller cannot tell them apart.  A resolver
//! fault is surfaced as its own error — admission never fails open.
//!
//! The resolver query is the host's I/O; the pipeline is split around it.
//! `begin_request` takes the request up to the permission question and
//! `finish_request` turns the resolver's answer into the final outcome, so
//! every decision in between is verified.

use vstd::prelude::*;
use crate::errors::{AppError, AppErrorView};
use crate::ids::{parse_uuid, spec_parse_uuid, UuidValue};
use crate::rbac::RbacSnapshot;
use crate::strutil::{spec_starts_with, starts_with};
use crate::token::{spec_validate, validate, Claims, TokenError};

verus! {

/// The request methods the route table distinguishes.
#[derive(Debug, Clone, Copy, PartialEq, Eq, Structural)]
pub enum HttpMethod {
    Get,
    Post,
    Put,
    Delete,
    Other,
}

/// The static route-to-permission table: only the administrative mutation
/// routes under the user-role assignment collection require a named
/// permission; every other authenticated route is permission-exempt.
pub open spec fn spec_required_permission(path: Seq<char>, method: HttpMethod) -> Option<
    Seq<char>,
> {
    if spec_starts_with(path, "/api/user_roles"@) {
        match method {
            HttpMethod::Post => Some("admin.create_user_role"@),
            HttpMethod::Delete => Some("admin.delete_user_role"@),
            _ => None,
        }
    } else {
        None
    }
}

pub fn required_permission(path: &str, method: &HttpMethod) -> (r: Option<&'static str>)
    ensures
        match r {
            Some(p) => spec_required_permission(path@, *method) == Some(p@),
            None => spec_required_permission(path@, *method) is None,
        },
{
    if starts_with(path, "/api/user_roles") {
        match method {
            HttpMethod::Post => Some("admin.create_user_role"),
            HttpMethod::Delete => Some("admin.delete_user_role"),
            _ => None,
        }
    } else {
        None
    }
}

/// Take the credential out of an authorization header value: everything
/// after the `Bearer ` scheme prefix.
pub fn extract_bearer_token(header: &str) -> (r: Option<&str>)
    ensures
        spec_starts_with(header@, "Bearer "@) ==> (r matches Some(t) && t@ == header@.subrange(
            7,
            header@.len() as int,
        )),
        !spec_starts_with(header@, "Bearer "@) ==> r is None,
{
    proof {
        reveal_strlit("Bearer ");
    }
    if starts_with(header, "Bearer ") {
        Some(header.substring_char(7, header.unicode_len()))
    } else {
        None
    }
}

/// The validated identity attached to an admitted request.
#[derive(Debug, Clone, PartialEq, Eq)]
pub struct AuthContext {
    pub user_id: UuidValue,
    pub claims: Claims,
}

pub struct AuthContextView {
    pub user_id: UuidValue,
    pub sub: Seq<char>,
    pub exp: u64,
}

impl View for AuthContext {
    type V = AuthContextView;

    open spec fn view(&self) -> AuthContextView {
        AuthContextView { user_id: self.user_id, sub: self.claims.sub@, exp: self.claims.exp }
    }
}

/// Where `begin_request` leaves a request: admitted outright, or waiting
/// on the resolver's answer for one named permission.
#[derive(Debug, Clone, PartialEq, Eq)]
pub enum GateStep {
    Admitted(AuthContext),
    NeedsPermission { context: AuthContext, permission: String },
}

pub enum GateStepView {
    Admitted(AuthContextView),
    NeedsPermission { context: AuthContextView, permission: Seq<char> },
}

impl View for GateStep {
    type V = GateStepView;

    open spec fn view(&self) -> GateStepView {
        match self {
            GateStep::Admitted(c) => GateStepView::Admitted(c@),
            GateStep::NeedsPermission { context, permission } => GateStepView::NeedsPermission {
                context: context@,
                permission: permission@,
            },
        }
    }
}

pub open spec fn header_view(header: Option<&str>) -> Option<Seq<char>> {
    match header {
        Some(h) => Some(h@),
        None => None,
    }
}

/// Everything the pipeline decides before the resolver is asked, as one
/// function of the request, the secret and the clock.
pub open spec fn spec_gate_begin(
    header: Option<Seq<char>>,
    path: Seq<char>,
    method: HttpMethod,
    secret: Seq<char>,
    now: u64,
) -> Result<GateStepView, AppErrorView> {
    match header {
        Option::None => Err(AppErrorView::Unauthorized("Missing Authorization header"@)),
        Option::Some(h) => if !spec_starts_with(h, "Bearer "@) {
            Err(AppErrorView::Unauthorized("Invalid Authorization header"@))
        } else {
            let token = h.subrange(7, h.len() as int);
            match spec_validate(token, secret, now) {
                Result::Err(_) => Err(AppErrorView::Unauthorized("Invalid or expired token"@)),
                Result::Ok((sub, exp)) => match spec_parse_uuid(sub) {
                    Option::None => Err(AppErrorView::Unauthorized("Invalid user ID in token"@)),
                    Option::Some(uid) => {
                        let context = AuthContextView { user_id: uid, sub: sub, exp: exp };
                        match spec_required_permission(path, method) {
                            Option::None => Ok(GateStepView::Admitted(context)),
                            Option::Some(p) => Ok(
                                GateStepView::NeedsPermission { context, permission: p },
                            ),
                        }
                    },
                },
            }
        },
    }
}

pub open spec fn gate_begin_view(r: Result<GateStep, AppError>) -> Result<
    GateStepView,
    AppErrorView,
> {
    match r {
        Ok(s) => Ok(s@),
        Err(e) => Err(e@),
    }
}

/// Run a request through the pipeline up to the permission question.
pub fn begin_request(
    header: Option<&str>,
    path: &str,
    method: &HttpMethod,
    secret: &str,
    now: u64,
) -> (r: Result<GateStep, AppError>)
    ensures
        gate_begin_view(r) == spec_gate_begin(header_view(header), path@, *method, secret@, now),
{
    let h = match header {
        Some(h) => h,
        None => {
            return Err(AppError::Unauthorized(String::from_str("Missing Authorization header")));
        },
    };
    let token = match extract_bearer_token(h) {
        Some(t) => t,
        None => {
            return Err(AppError::Unauthorized(String::from_str("Invalid Authorization header")));
        },
    };
    let claims = match validate(token, secret, now) {
        Ok(c) => c,
        Err(_) => {
            return Err(AppError::Unauthorized(String::from_str("Invalid or expired token")));
        },
    };
    let user_id = match parse_uuid(claims.sub.as_str()) {
        Some(u) => u,
        None => {
            return Err(AppError::Unauthorized(String::from_str("Invalid user ID in token")));
        },
    };
    let context = AuthContext { user_id, claims };
    match required_permission(path, method) {
        None => Ok(GateStep::Admitted(context)),
        Some(p) => Ok(
            GateStep::NeedsPermission { context, permission: String::from_str(p) },
        ),
    }
}

/// Turn the resolver's answer into the request's outcome.  The request is
/// admitted exactly when the resolver affirmed the permission: a denial is
/// `Forbidden`, and a resolver fault stays an error of its own — it is
/// neither coerced into `Forbidden` nor admitted.
pub fn finish_request(context: AuthContext, lookup: Result<bool, AppError>) -> (r: Result<
    AuthContext,
    AppError,
>)
    ensures
        r is Ok <==> (lookup matches Ok(b) && b),
        (lookup matches Ok(b) && b) ==> r == Ok::<AuthContext, AppError>(context),
        (lookup matches Ok(b) && !b) ==> (r matches Err(e) && e@ == AppErrorView::Forbidden),
        lookup matches Err(e) ==> r == Err::<AuthContext, AppError>(e),
{
    match lookup {
        Ok(true) => Ok(context),
        Ok(false) => Err(AppError::Forbidden),
        Err(e) => Err(e),
    }
}

/// Every token failure looks the same from outside: whether the token is
/// undecodable, carries a wrong signature, or has expired, the request is
/// rejected with one uniform message, so a caller cannot probe which step
/// failed.
pub proof fn lemma_token_failures_indistinguishable(
    header: Seq<char>,
    path: Seq<char>,
    method: HttpMethod,
    secret: Seq<char>,
    now: u64,
)
    requires
        spec_starts_with(header, "Bearer "@),
        spec_validate(header.subrange(7, header.len() as int), secret, now) is Err,
    ensures
        spec_gate_begin(Some(header), path, method, secret, now) == Err::<
            GateStepView,
            AppErrorView,
        >(AppErrorView::Unauthorized("Invalid or expired token"@)),
{
}

/// The whole pipeline against one consistent snapshot of the relations, as
/// one function of the request, the secret, the clock and the snapshot.
pub open spec fn spec_authorize(
    header: Option<Seq<char>>,
    path: Seq<char>,
    method: HttpMethod,
    secret: Seq<char>,
    now: u64,
    snapshot: RbacSnapshot,
) -> Result<AuthContextView, AppErrorView> {
    match spec_gate_begin(header, path, method, secret, now) {
        Result::Err(e) => Err(e),
        Result::Ok(GateStepView::Admitted(context)) => Ok(context),
        Result::Ok(GateStepView::NeedsPermission { context, permission }) => {
            if snapshot.spec_has_permission(context.user_id, permission) {
                Ok(context)
            } else {
                Err(AppErrorView::Forbidden)
            }
        },
    }
}

/// Token validity is necessary but not sufficient on a route that names a
/// permission: admission there means the header carried a bearer token,
/// the token's signature and expiry passed, the subject is the admitted
/// identity, and the snapshot affirms the named permission — the mandatory
/// second step after token validation.
pub proof fn lemma_admission_needs_token_and_permission(
    header: Option<Seq<char>>,
    path: Seq<char>,
    method: HttpMethod,
    secret: Seq<char>,
    now: u64,
    snapshot: RbacSnapshot,
    p: Seq<char>,
    context: AuthContextView,
)
    requires
        spec_required_permission(path, method) == Some(p),
        spec_authorize(header, path, method, secret, now, snapshot) == Ok::<
            AuthContextView,
            AppErrorView,
        >(context),
    ensures
        header matches Some(h) && spec_starts_with(h, "Bearer "@) && spec_validate(
            h.subrange(7, h.len() as int),
            secret,
            now,
        ) == Ok::<(Seq<char>, u64), TokenError>((context.sub, context.exp)),
        context.exp > now,
        spec_parse_uuid(context.sub) == Some(context.user_id),
        snapshot.spec_has_permission(context.user_id, p),
{
    let h = header->0;
    let token = h.subrange(7, h.len() as int);
    assert(spec_validate(token, secret, now) is Ok);
}

pub open spec fn authorize_view(r: Result<AuthContext, AppError>) -> Result<
    AuthContextView,
    AppErrorView,
> {
    match r {
        Ok(c) => Ok(c@),
        Err(e) => Err(e@),
    }
}

/// Run a request through the whole pipeline, resolving permissions
/// against the given snapshot.
pub fn authorize_request(
    header: Option<&str>,
    path: &str,
    method: &HttpMethod,
    secret: &str,
    now: u64,
    snapshot: &RbacSnapshot,
) -> (r: Result<AuthContext, AppError>)
    ensures
        authorize_view(r) == spec_authorize(
            header_view(header),
            path@,
            *method,
            secret@,
            now,
            *snapshot,
        ),
{
    match begin_request(header, path, method, secret, now) {
        Err(e) => Err(e),
        Ok(GateStep::Admitted(context)) => Ok(context),
        Ok(GateStep::NeedsPermission { context, permission }) => {
            let allowed = snapshot.has_permission(&context.user_id, permission.as_str());
            finish_request(context, Ok(allowed))
        },
    }
}

} // verus!
