use nickel_jwt_session::claims::{ClaimSet, ClaimValue};
use nickel_jwt_session::codec::{sign, verify};
use nickel_jwt_session::context::{RequestContext, ResponseContext};
use nickel_jwt_session::error::TokenError;
use nickel_jwt_session::middleware::{check_window, state_for, RequestState, SessionMiddleware};
use nickel_jwt_session::session::{SessionRequestExtensions, SessionResponseExtensions};
use nickel_jwt_session::transport::{get_cookie, SetCookie, TokenLocation};

const NOW: u64 = 1_700_000_000;

fn token_with_window(start: Option<u64>, end: Option<u64>, key: &[u8]) -> String {
    let claims = ClaimSet::new(None, Some("carl".to_owned()), start, end, vec![]).unwrap();
    sign(&claims, key).unwrap()
}

fn request_with(token: &str) -> RequestContext {
    RequestContext::new(vec![("jwt".to_owned(), token.to_owned())], None)
}

fn state_at(middleware: &SessionMiddleware, token: &str, now: u64) -> (RequestState, Option<String>) {
    let mut request = request_with(token);
    let mut response = ResponseContext::new();
    let state = middleware.invoke_at(&mut request, &mut response, now);
    (state, request.authorized_user())
}

#[test]
fn expiry() {
    let middleware = SessionMiddleware::new("s1");
    let expired = token_with_window(None, Some(NOW - 1), b"s1");
    assert_eq!(state_at(&middleware, &expired, NOW), (RequestState::Expired, None));
    assert_eq!(middleware.check(&expired, NOW), Err(TokenError::Expired));
    let fresh = token_with_window(None, Some(NOW + 3600), b"s1");
    assert_eq!(
        state_at(&middleware, &fresh, NOW),
        (RequestState::Verified, Some("carl".to_owned()))
    );
}

#[test]
fn not_yet_valid() {
    let middleware = SessionMiddleware::new("s1");
    let early = token_with_window(Some(NOW + 3600), None, b"s1");
    assert_eq!(state_at(&middleware, &early, NOW), (RequestState::NotYetValid, None));
    assert_eq!(middleware.check(&early, NOW), Err(TokenError::NotYetValid));
}

#[test]
fn the_window_includes_both_ends() {
    let middleware = SessionMiddleware::new("s1");
    let token = token_with_window(Some(100), Some(200), b"s1");
    assert_eq!(state_at(&middleware, &token, 99).0, RequestState::NotYetValid);
    assert_eq!(state_at(&middleware, &token, 100).0, RequestState::Verified);
    assert_eq!(state_at(&middleware, &token, 200).0, RequestState::Verified);
    assert_eq!(state_at(&middleware, &token, 201).0, RequestState::Expired);
}

#[test]
fn a_token_without_a_window_always_holds() {
    let middleware = SessionMiddleware::new("s1");
    let token = token_with_window(None, None, b"s1");
    assert_eq!(state_at(&middleware, &token, 0).0, RequestState::Verified);
    assert_eq!(state_at(&middleware, &token, u64::MAX).0, RequestState::Verified);
}

#[test]
fn check_window_gives_the_claims_back() {
    let claims = ClaimSet::new(None, None, Some(5), Some(6), vec![]).unwrap();
    assert_eq!(check_window(claims.clone(), 5), Ok(claims.clone()));
    assert_eq!(check_window(claims.clone(), 4), Err(TokenError::NotYetValid));
    assert_eq!(check_window(claims, 7), Err(TokenError::Expired));
}

#[test]
fn every_outcome_has_its_state() {
    let claims = ClaimSet::new(None, None, None, None, vec![]).unwrap();
    assert_eq!(state_for(&Ok(claims)), RequestState::Verified);
    assert_eq!(state_for(&Err(TokenError::Malformed)), RequestState::Malformed);
    assert_eq!(state_for(&Err(TokenError::BadSignature)), RequestState::SignatureInvalid);
    assert_eq!(state_for(&Err(TokenError::NotYetValid)), RequestState::NotYetValid);
    assert_eq!(state_for(&Err(TokenError::Expired)), RequestState::Expired);
}

#[test]
fn no_token_is_no_error() {
    let middleware = SessionMiddleware::new("s1");
    let mut request = RequestContext::new(vec![("other".to_owned(), "x".to_owned())], None);
    let mut response = ResponseContext::new();
    assert_eq!(middleware.invoke_at(&mut request, &mut response, NOW), RequestState::NoToken);
    assert_eq!(request.authorized_user(), None);
    assert_eq!(request.valid_custom_claims(), None);
    assert!(request.session().is_none());
}

#[test]
fn codec_failures_leave_the_request_without_a_user() {
    let middleware = SessionMiddleware::new("s1");
    assert_eq!(state_at(&middleware, "garbage", NOW), (RequestState::Malformed, None));
    let foreign = token_with_window(None, None, b"s2");
    assert_eq!(state_at(&middleware, &foreign, NOW), (RequestState::SignatureInvalid, None));
}

#[test]
fn the_response_learns_the_configuration_in_every_case() {
    let middleware = SessionMiddleware::new("s1").expiration_time(7);
    for cookies in [vec![], vec![("jwt".to_owned(), "garbage".to_owned())]] {
        let mut request = RequestContext::new(cookies, None);
        let mut response = ResponseContext::new();
        assert!(response.config().is_none());
        middleware.invoke_at(&mut request, &mut response, NOW);
        assert_eq!(response.config().unwrap().token_lifetime(), 7);
        assert_eq!(response.cookie(), &None);
    }
}

#[test]
fn first_cookie_of_the_name_wins() {
    let cookies = vec![
        ("JWT".to_owned(), "capital".to_owned()),
        ("jwt2".to_owned(), "longer".to_owned()),
        ("jwt".to_owned(), "first".to_owned()),
        ("jwt".to_owned(), "second".to_owned()),
    ];
    assert_eq!(get_cookie(&cookies, "jwt"), Some("first".to_owned()));
    assert_eq!(get_cookie(&cookies, "JWT"), Some("capital".to_owned()));
    assert_eq!(get_cookie(&cookies, "jw"), None);
    assert_eq!(get_cookie(&vec![], "jwt"), None);
}

#[test]
fn header_location_reads_the_raw_header() {
    let middleware = SessionMiddleware::new("s1").using(TokenLocation::AuthorizationHeader);
    let token = token_with_window(None, None, b"s1");
    let mut request = RequestContext::new(
        vec![("jwt".to_owned(), "ignored".to_owned())],
        Some(token.clone()),
    );
    let mut response = ResponseContext::new();
    assert_eq!(middleware.invoke_at(&mut request, &mut response, NOW), RequestState::Verified);
    assert_eq!(request.authorized_user(), Some("carl".to_owned()));
    // No scheme is stripped: that is left to the caller.
    let mut request = RequestContext::new(vec![], Some(format!("Bearer {}", token)));
    assert_eq!(middleware.invoke_at(&mut request, &mut response, NOW), RequestState::Malformed);
    let mut request = request_with(&token);
    assert_eq!(middleware.invoke_at(&mut request, &mut response, NOW), RequestState::NoToken);
}

#[test]
fn header_location_writes_nothing() {
    let middleware = SessionMiddleware::new("s1").using(TokenLocation::AuthorizationHeader);
    let mut request = RequestContext::new(vec![], None);
    let mut response = ResponseContext::new();
    middleware.invoke_at(&mut request, &mut response, NOW);
    assert_eq!(response.login_at(Some("carl"), vec![], NOW), Ok(()));
    assert_eq!(response.cookie(), &None);
    assert_eq!(response.logout(), Ok(()));
    assert_eq!(response.cookie(), &None);
}

#[test]
fn transport_write_and_clear() {
    let location = TokenLocation::Cookie("sid".to_owned());
    let mut response = ResponseContext::new();
    location.write(&mut response, "tok".to_owned(), 30);
    assert_eq!(
        response.cookie(),
        &Some(SetCookie { name: "sid".to_owned(), value: "tok".to_owned(), max_age: 30 })
    );
    location.clear(&mut response);
    assert_eq!(
        response.cookie(),
        &Some(SetCookie { name: "sid".to_owned(), value: "".to_owned(), max_age: 0 })
    );
    let request = RequestContext::new(vec![("sid".to_owned(), "v".to_owned())], None);
    assert_eq!(location.read(&request), Some("v".to_owned()));
    assert_eq!(TokenLocation::AuthorizationHeader.read(&request), None);
}

#[test]
fn minted_claims_follow_the_configuration() {
    let middleware = SessionMiddleware::new("s1").issuer("example.org").expiration_time(60);
    let claims = middleware.mint(Some("carl"), vec![], 1000).unwrap();
    assert_eq!(claims.issuer(), &Some("example.org".to_owned()));
    assert_eq!(claims.subject(), &Some("carl".to_owned()));
    assert_eq!(claims.issued_not_before(), Some(1000));
    assert_eq!(claims.expires_at(), Some(1060));
    assert!(claims.custom_claims().is_empty());
    let token = middleware.make_token(Some("carl"), vec![], 1000).unwrap();
    assert_eq!(verify(&token, b"s1"), Ok(claims));
}

#[test]
fn no_token_where_the_expiry_cannot_be_written() {
    let middleware = SessionMiddleware::new("s1").expiration_time(2);
    assert!(middleware.mint(None, vec![], u64::MAX - 2).is_some());
    assert!(middleware.mint(None, vec![], u64::MAX - 1).is_none());
    assert_eq!(middleware.make_token(Some("carl"), vec![], u64::MAX), None);
    let mut request = RequestContext::new(vec![], None);
    let mut response = ResponseContext::new();
    middleware.invoke_at(&mut request, &mut response, NOW);
    assert_eq!(response.login_at(Some("carl"), vec![], u64::MAX), Ok(()));
    assert_eq!(response.cookie(), &None);
}

#[test]
fn end_to_end_login_then_request() {
    let middleware = SessionMiddleware::new("s1").expiration_time(60);
    let mut request = RequestContext::new(vec![], None);
    let mut response = ResponseContext::new();
    middleware.invoke_at(&mut request, &mut response, NOW);
    assert_eq!(response.login_at(Some("carl"), vec![], NOW), Ok(()));
    let cookie = response.cookie().as_ref().unwrap();
    assert_eq!(cookie.name, "jwt");
    assert_eq!(cookie.max_age, 60);

    let mut next = RequestContext::new(vec![(cookie.name.clone(), cookie.value.clone())], None);
    let mut next_response = ResponseContext::new();
    assert_eq!(middleware.invoke_at(&mut next, &mut next_response, NOW), RequestState::Verified);
    assert_eq!(next.authorized_user(), Some("carl".to_owned()));
    assert_eq!(next.valid_custom_claims(), Some(vec![]));
}

#[test]
fn end_to_end_request_after_expiry() {
    let middleware = SessionMiddleware::new("s1").expiration_time(60);
    let mut request = RequestContext::new(vec![], None);
    let mut response = ResponseContext::new();
    middleware.invoke_at(&mut request, &mut response, NOW);
    assert_eq!(response.login_at(Some("carl"), vec![], NOW), Ok(()));
    let cookie = response.cookie().as_ref().unwrap();

    let mut at_the_end = RequestContext::new(vec![(cookie.name.clone(), cookie.value.clone())], None);
    let mut next_response = ResponseContext::new();
    assert_eq!(
        middleware.invoke_at(&mut at_the_end, &mut next_response, NOW + 60),
        RequestState::Verified
    );
    let mut late = RequestContext::new(vec![(cookie.name.clone(), cookie.value.clone())], None);
    assert_eq!(middleware.invoke_at(&mut late, &mut next_response, NOW + 61), RequestState::Expired);
    assert_eq!(late.authorized_user(), None);
}

#[test]
fn end_to_end_logout() {
    let middleware = SessionMiddleware::new("s1").expiration_time(60);
    let mut request = RequestContext::new(vec![], None);
    let mut response = ResponseContext::new();
    middleware.invoke_at(&mut request, &mut response, NOW);
    response.clear_jwt_user();
    let cookie = response.cookie().as_ref().unwrap();
    assert_eq!(cookie.name, "jwt");
    assert_eq!(cookie.value, "");
    assert_eq!(cookie.max_age, 0);
}

#[test]
fn end_to_end_login_with_claims() {
    let middleware = SessionMiddleware::new("s1").expiration_time(60);
    let mut request = RequestContext::new(vec![], None);
    let mut response = ResponseContext::new();
    middleware.invoke_at(&mut request, &mut response, NOW);
    let admin = vec![("admin".to_owned(), ClaimValue::Bool(true))];
    assert_eq!(response.login_at(Some("carl"), admin.clone(), NOW), Ok(()));
    let cookie = response.cookie().as_ref().unwrap();

    let mut next = RequestContext::new(vec![(cookie.name.clone(), cookie.value.clone())], None);
    let mut next_response = ResponseContext::new();
    middleware.invoke_at(&mut next, &mut next_response, NOW + 1);
    assert_eq!(next.valid_custom_claims(), Some(admin.clone()));
    assert_eq!(next.custom_claims_or(vec![]), admin);
    assert_eq!(next.authorized_user(), Some("carl".to_owned()));
}

#[test]
fn login_with_claims_only_names_no_user() {
    let middleware = SessionMiddleware::new("s1");
    let mut request = RequestContext::new(vec![], None);
    let mut response = ResponseContext::new();
    middleware.invoke_at(&mut request, &mut response, NOW);
    let claims = vec![("user".to_owned(), ClaimValue::Text("carl".to_owned()))];
    assert_eq!(response.login_at(None, claims.clone(), NOW), Ok(()));
    let cookie = response.cookie().as_ref().unwrap();
    assert_eq!(cookie.max_age, 24 * 60 * 60);

    let mut next = RequestContext::new(vec![(cookie.name.clone(), cookie.value.clone())], None);
    let mut next_response = ResponseContext::new();
    assert_eq!(middleware.invoke_at(&mut next, &mut next_response, NOW), RequestState::Verified);
    assert_eq!(next.authorized_user(), None);
    assert_eq!(next.valid_custom_claims(), Some(claims));
}

#[test]
fn without_a_configuration_nothing_is_set() {
    let mut response = ResponseContext::new();
    assert_eq!(response.login_at(Some("carl"), vec![], NOW), Err(TokenError::MissingConfig));
    assert_eq!(response.logout(), Err(TokenError::MissingConfig));
    response.set_jwt_user("carl");
    response.set_jwt_user_and_custom_claims("carl", vec![]);
    response.set_jwt_custom_claims(vec![]);
    response.clear_jwt_user();
    assert_eq!(response.cookie(), &None);
}

#[test]
fn login_by_the_clock_is_accepted_by_the_clock() {
    let middleware = SessionMiddleware::new("s1").issuer("example.org");
    let mut request = RequestContext::new(vec![], None);
    let mut response = ResponseContext::new();
    assert_eq!(middleware.invoke(&mut request, &mut response), RequestState::NoToken);
    response.set_jwt_user("carl");
    let cookie = response.cookie().as_ref().unwrap();
    let claims = verify(&cookie.value, b"s1").unwrap();
    assert_eq!(claims.issuer(), &Some("example.org".to_owned()));
    let start = claims.issued_not_before().unwrap();
    assert!(start > 1_600_000_000);
    assert_eq!(claims.expires_at(), Some(start + 24 * 60 * 60));

    let mut next = RequestContext::new(vec![(cookie.name.clone(), cookie.value.clone())], None);
    let mut next_response = ResponseContext::new();
    assert_eq!(middleware.invoke(&mut next, &mut next_response), RequestState::Verified);
    assert_eq!(next.authorized_user(), Some("carl".to_owned()));
}

#[test]
fn custom_claims_fall_back_without_a_session() {
    let request = RequestContext::new(vec![], None);
    let fallback = vec![("guest".to_owned(), ClaimValue::Bool(true))];
    assert_eq!(request.custom_claims_or(fallback.clone()), fallback);
}

#[test]
fn a_later_token_replaces_the_session_and_a_failure_keeps_it() {
    let middleware = SessionMiddleware::new("s1");
    let token = token_with_window(None, None, b"s1");
    let mut request = request_with(&token);
    let mut response = ResponseContext::new();
    assert_eq!(middleware.invoke_at(&mut request, &mut response, NOW), RequestState::Verified);
    let other = SessionMiddleware::new("s2");
    let mut other_response = ResponseContext::new();
    assert_eq!(
        other.invoke_at(&mut request, &mut other_response, NOW),
        RequestState::SignatureInvalid
    );
    assert_eq!(request.authorized_user(), Some("carl".to_owned()));
}

#[test]
fn no_token_for_claims_that_no_claim_set_holds() {
    let middleware = SessionMiddleware::new("s1");
    let unordered = || {
        vec![
            ("b".to_owned(), ClaimValue::Bool(true)),
            ("a".to_owned(), ClaimValue::Bool(true)),
        ]
    };
    let reserved = || vec![("sub".to_owned(), ClaimValue::Text("root".to_owned()))];
    assert!(middleware.mint(Some("carl"), unordered(), NOW).is_none());
    assert!(middleware.mint(Some("carl"), reserved(), NOW).is_none());
    assert_eq!(middleware.make_token(Some("carl"), reserved(), NOW), None);
    let mut response = ResponseContext::configured(&middleware);
    assert_eq!(response.login_at(Some("carl"), unordered(), NOW), Ok(()));
    assert_eq!(response.login_at(Some("carl"), reserved(), NOW), Ok(()));
    assert_eq!(response.cookie(), &None);
}

#[test]
fn a_token_with_a_list_of_roles_authenticates() {
    let middleware = SessionMiddleware::new("s1");
    let roles = vec![("roles".to_owned(), ClaimValue::Json("[\"admin\",\"editor\"]".to_owned()))];
    let token = middleware.make_token(Some("carl"), roles.clone(), NOW).unwrap();
    let mut request = request_with(&token);
    let mut response = ResponseContext::new();
    assert_eq!(middleware.invoke_at(&mut request, &mut response, NOW), RequestState::Verified);
    assert_eq!(request.authorized_user(), Some("carl".to_owned()));
    assert_eq!(request.valid_custom_claims(), Some(roles));
}
