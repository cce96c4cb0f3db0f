use content_backend::auth::{AuthMiddleware, AuthMiddlewareFactory, Gate};
use content_backend::models::Claims;
use content_backend::reply::{Body, Reply, Status};
use content_backend::token::issue_token;

fn claims(exp: i64) -> Claims {
    Claims {
        id: 7,
        email: "bob@example.org".to_string(),
        firstname: "Bob".to_string(),
        lastname: "Ray".to_string(),
        exp: exp as usize,
    }
}

fn now() -> i64 {
    chrono::Utc::now().timestamp()
}

fn token_required() -> Gate {
    Gate::Reject {
        reply: Reply {
            status: Status::Unauthorized,
            body: Body::Message { success: false, message: "Token is required".to_string() },
        },
    }
}

#[test]
fn a_request_without_a_token_is_unauthorized() {
    let gate = AuthMiddlewareFactory.new_transform(Some("k".to_string()));
    assert_eq!(gate.call(None), token_required());
    assert_eq!(gate.call(Some("")), token_required());
    assert_eq!(gate.call(Some("Basic abc")), token_required());
    assert_eq!(gate.call(Some("bearer abc")), token_required());
    assert_eq!(gate.call(Some("Bearer")), token_required());
}

#[test]
fn bearer_is_what_follows_the_prefix() {
    assert_eq!(AuthMiddleware::bearer(Some("Bearer abc.def")), Some("abc.def"));
    assert_eq!(AuthMiddleware::bearer(Some("Bearer ")), Some(""));
    assert_eq!(AuthMiddleware::bearer(Some("Bearer  x")), Some(" x"));
    assert_eq!(AuthMiddleware::bearer(Some(" Bearer x")), None);
    assert_eq!(AuthMiddleware::bearer(None), None);
}

#[test]
fn a_valid_token_passes_with_its_claims() {
    let gate = AuthMiddlewareFactory.new_transform(Some("k".to_string()));
    let issued = claims(now() + 3600);
    let header = format!("Bearer {}", issue_token(&issued, "k").unwrap());
    assert_eq!(gate.call(Some(&header)), Gate::Continue { claims: issued });
}

#[test]
fn an_expired_token_is_a_bad_request() {
    let gate = AuthMiddlewareFactory.new_transform(Some("k".to_string()));
    let header = format!("Bearer {}", issue_token(&claims(now() - 3600), "k").unwrap());
    assert_eq!(
        gate.call(Some(&header)),
        Gate::Reject {
            reply: Reply {
                status: Status::BadRequest,
                body: Body::Failure { message: "Invalid token".to_string(), error: "ExpiredSignature".to_string() },
            },
        }
    );
}

#[test]
fn a_token_under_another_secret_is_a_bad_request() {
    let gate = AuthMiddlewareFactory.new_transform(Some("k".to_string()));
    let header = format!("Bearer {}", issue_token(&claims(now() + 3600), "other").unwrap());
    assert_eq!(
        gate.call(Some(&header)),
        Gate::Reject {
            reply: Reply {
                status: Status::BadRequest,
                body: Body::Failure { message: "Invalid token".to_string(), error: "InvalidSignature".to_string() },
            },
        }
    );
}

#[test]
fn the_default_secret_is_used_where_none_is_configured() {
    let gate = AuthMiddlewareFactory.new_transform(None);
    assert_eq!(gate.secret, "supersecretkey");
    let issued = claims(now() + 60);
    let header = format!("Bearer {}", issue_token(&issued, "supersecretkey").unwrap());
    assert_eq!(gate.call(Some(&header)), Gate::Continue { claims: issued });
}

#[test]
fn the_decision_follows_the_reading() {
    assert_eq!(AuthMiddleware::decide(Ok(claims(5))), Gate::Continue { claims: claims(5) });
    assert_eq!(
        AuthMiddleware::decide(Err("why".to_string())),
        Gate::Reject {
            reply: Reply {
                status: Status::BadRequest,
                body: Body::Failure { message: "Invalid token".to_string(), error: "why".to_string() },
            },
        }
    );
}

#[test]
fn statuses_have_their_numbers() {
    let numbers: Vec<u16> = [
        Status::Success,
        Status::Created,
        Status::BadRequest,
        Status::Unauthorized,
        Status::Forbidden,
        Status::NotFound,
        Status::InternalServerError,
    ]
    .iter()
    .map(|status| status.code())
    .collect();
    assert_eq!(numbers, vec![200, 201, 400, 401, 403, 404, 500]);
}

#[test]
fn a_request_that_passes_carries_the_claims_of_its_token() {
    let gate = AuthMiddlewareFactory.new_transform(Some("k".to_string()));
    let ann = Claims { id: 1, email: "ann@example.org".to_string(), ..claims(now() + 600) };
    let bob = Claims { id: 2, ..claims(now() + 600) };
    for issued in [ann, bob] {
        let header = format!("Bearer {}", issue_token(&issued, "k").unwrap());
        match gate.call(Some(&header)) {
            Gate::Continue { claims } => assert_eq!(claims, issued),
            other => panic!("{:?}", other),
        }
    }
}
