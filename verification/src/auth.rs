//! The authentication gate: a stage before every protected handler that
//! lets a request pass with the identity of its token, or answers it at
//! once. It reads no record and changes nothing.

use vstd::prelude::*;
use crate::models::{optional_text, Claims, ClaimsView};
use crate::reply::{failed, refused, Reply, ReplyView, Status};
use crate::text::without_prefix;
use crate::token::{carried_claims, read_token, reading_view, secret_of, signing_secret};

verus! {

/// What the auth gate decides of a request.
#[derive(Debug, Clone, PartialEq, Eq)]
pub enum Gate {
    /// The request goes on to its handler, with the verified identity.
    Continue { claims: Claims },
    /// The request is answered here; its handler is not called.
    Reject { reply: Reply },
}

/// The decision of the auth gate, as contracts see it.
pub ghost enum GateView {
    Continue { claims: ClaimsView },
    Reject { reply: ReplyView },
}

impl View for Gate {
    type V = GateView;

    open spec fn view(&self) -> GateView {
        match *self {
            Gate::Continue { claims } => GateView::Continue { claims: claims@ },
            Gate::Reject { reply } => GateView::Reject { reply: reply@ },
        }
    }
}

/// The token that an `Authorization` header carries: what follows
/// `Bearer ` in it. A request without the header, or with a header of
/// another form, carries none.
pub open spec fn bearer_token(authorization: Option<Seq<char>>) -> Option<Seq<char>> {
    match authorization {
        Some(header) => if "Bearer "@.is_prefix_of(header) {
            Some(header.subrange("Bearer "@.len() as int, header.len() as int))
        } else {
            None
        },
        None => None,
    }
}

/// The answer to a request that carries no token.
pub open spec fn token_required() -> ReplyView {
    refused(Status::Unauthorized, "Token is required"@)
}

/// The answer to a request whose token does not verify, for the reason `error`.
pub open spec fn invalid_token(error: Seq<char>) -> ReplyView {
    failed(Status::BadRequest, "Invalid token"@, error)
}

/// What the auth gate decides once the token was read.
pub open spec fn admitted(decoded: Result<ClaimsView, Seq<char>>) -> GateView {
    match decoded {
        Ok(claims) => GateView::Continue { claims },
        Err(error) => GateView::Reject { reply: invalid_token(error) },
    }
}

/// The header's text, where there is a header.
pub open spec fn header_text(authorization: Option<&str>) -> Option<Seq<char>> {
    match authorization {
        Some(header) => Some(header@),
        None => None,
    }
}

/// Makes the auth gate. It holds no state of its own.
#[derive(Debug, Clone, Copy, PartialEq, Eq)]
pub struct AuthMiddlewareFactory;

impl AuthMiddlewareFactory {
    /// Builds the auth gate that verifies tokens under the configured secret, or
    /// under the default secret where none is configured.
    pub fn new_transform(&self, configured: Option<String>) -> (gate: AuthMiddleware)
        ensures
            gate.secret@ == secret_of(optional_text(configured)),
    {
        AuthMiddleware { secret: signing_secret(configured) }
    }
}

/// The auth gate: it verifies tokens under one secret.
#[derive(Debug, Clone, PartialEq, Eq)]
pub struct AuthMiddleware {
    pub secret: String,
}

impl AuthMiddleware {
    /// The token that the `Authorization` header carries, where it carries one.
    pub fn bearer<'a>(authorization: Option<&'a str>) -> (token: Option<&'a str>)
        ensures
            match token {
                Some(text) => Some(text@),
                None => None,
            } == bearer_token(header_text(authorization)),
    {
        match authorization {
            None => None,
            Some(header) => {
                let rest = without_prefix(header, "Bearer ");
                proof {
                    match rest {
                        Some(tail) => {
                            assert("Bearer "@.is_prefix_of(header@));
                            assert(header@.subrange("Bearer "@.len() as int, header@.len() as int) =~= tail@);
                        },
                        None => {},
                    }
                }
                rest
            },
        }
    }

    /// Decides a request from what reading its token gave: the claims let
    /// it pass; a failure answers it as a bad request that names the reason.
    pub fn decide(decoded: Result<Claims, String>) -> (gate: Gate)
        ensures
            gate@ == admitted(reading_view(decoded)),
    {
        match decoded {
            Ok(claims) => Gate::Continue { claims },
            Err(error) => Gate::Reject { reply: Reply::fail(Status::BadRequest, "Invalid token", error) },
        }
    }

    /// Decides a request by its `Authorization` header. A request without
    /// a bearer token is answered as unauthorized. Otherwise the token is
    /// read once, under the secret of this stage: where its signature and
    /// expiry hold, the request passes with the claims that the token
    /// carries; where they do not, it is answered as a bad request that
    /// names the reason. Whether a token has expired depends on the clock,
    /// so it is not stated which tokens pass; a request that passes, passes
    /// with the claims of its token and no others.
    pub fn call(&self, authorization: Option<&str>) -> (gate: Gate)
        ensures
            bearer_token(header_text(authorization)) is None ==> gate@ == (GateView::Reject {
                reply: token_required(),
            }),
            bearer_token(header_text(authorization)) is Some ==> exists|decoded: Result<ClaimsView, Seq<char>>|
                gate@ == #[trigger] admitted(decoded),
            gate@ matches GateView::Continue { claims } ==> bearer_token(header_text(authorization)) is Some
                && carried_claims(bearer_token(header_text(authorization))->0, self.secret@) == Some(claims),
    {
        match Self::bearer(authorization) {
            None => Gate::Reject { reply: Reply::refuse(Status::Unauthorized, "Token is required") },
            Some(token) => {
                let decoded = read_token(token, self.secret.as_str());
                let ghost seen = reading_view(decoded);
                let gate = Self::decide(decoded);
                assert(gate@ == admitted(seen));
                gate
            },
        }
    }
}

/// The auth gate never lets a request pass without a token, and every request
/// that it answers itself is answered as a client error.
pub proof fn gate_rejects_with_client_errors(decoded: Result<ClaimsView, Seq<char>>)
    ensures
        token_required().status.is_client_error(),
        admitted(decoded) matches GateView::Reject { reply } ==> reply.status.is_client_error(),
        admitted(decoded) is Continue <==> decoded is Ok,
{
}

} // verus!
