use nickel_jwt_session::middleware::SessionMiddleware;

#[test]
fn it_works() {}

#[test]
fn new_middleware_has_the_documented_defaults() {
    let middleware = SessionMiddleware::new("secret");
    assert_eq!(middleware.token_lifetime(), 24 * 60 * 60);
    assert_eq!(
        middleware.token_location(),
        &nickel_jwt_session::transport::TokenLocation::Cookie("jwt".to_owned())
    );
}
