//! What a handler asks of a request, and what it tells a response.
//!
//! On the request a handler learns who the user is. On the response it logs
//! a user in, which sets the cookie that carries a fresh token, or out,
//! which sets a cookie that makes the client forget it. A response that
//! the middleware has not seen knows of no configuration, and is left as it
//! is.

use crate::claims::{clone_custom, clone_text, custom_view, text_view, ClaimValue, ClaimValueView};
use crate::clock::current_numeric_date;
use crate::context::{RequestContext, RequestView, ResponseContext, ResponseView};
use crate::error::TokenError;
use crate::middleware::{issued, name_view};
use crate::transport::{after_clear, after_write};
use vstd::prelude::*;
use vstd::utf8::decode_utf8;

verus! {

/// The user of a request: the one its session names, if it has a session
/// and the session names one.
pub open spec fn user_of(request: RequestView) -> Option<Seq<char>> {
    match request.session {
        Some(session) => session.identity,
        None => None,
    }
}

/// The application-defined claims of a request, if it has a session.
pub open spec fn claims_of(request: RequestView) -> Option<Seq<(Seq<char>, ClaimValueView)>> {
    match request.session {
        Some(session) => Some(session.claims),
        None => None,
    }
}

/// Optional application-defined claims as contracts see them.
pub open spec fn claims_view(claims: Option<Vec<(String, ClaimValue)>>) -> Option<
    Seq<(Seq<char>, ClaimValueView)>,
> {
    match claims {
        Some(c) => Some(custom_view(c@)),
        None => None,
    }
}

/// The response after a login at a given second. A response without a
/// configuration stays as it is, and so does one for which no token can be
/// issued. Else the token is written to the configured location, to be
/// kept for as long as it holds.
pub open spec fn after_login(
    response: ResponseView,
    subject: Option<Seq<char>>,
    custom_claims: Seq<(Seq<char>, ClaimValueView)>,
    now: u64,
) -> ResponseView {
    match response.config {
        None => response,
        Some(config) => match issued(config, subject, custom_claims, now) {
            None => response,
            Some(token) => ResponseView {
                set_cookie: after_write(
                    config.location,
                    response.set_cookie,
                    decode_utf8(token),
                    config.expiration_time,
                ),
                ..response
            },
        },
    }
}

/// The response after a logout. A response without a configuration stays
/// as it is. Else the configured location is cleared.
pub open spec fn after_logout(response: ResponseView) -> ResponseView {
    match response.config {
        None => response,
        Some(config) => ResponseView {
            set_cookie: after_clear(config.location, response.set_cookie),
            ..response
        },
    }
}

impl<'a> ResponseContext<'a> {
    /// Logs a user in at a given second: issues a token for the user, with
    /// application-defined claims, and writes it to the configured
    /// location. Without a configuration nothing happens, and the outcome
    /// says so.
    pub fn login_at(
        &mut self,
        subject: Option<&str>,
        custom_claims: Vec<(String, ClaimValue)>,
        now: u64,
    ) -> (outcome: Result<(), TokenError>)
        ensures
            final(self)@ == after_login(
                old(self)@,
                name_view(subject),
                custom_view(custom_claims@),
                now,
            ),
            outcome is Err <==> old(self)@.config is None,
            outcome matches Err(e) ==> e == TokenError::MissingConfig,
    {
        let config = match self.config() {
            Some(config) => config,
            None => {
                return Err(TokenError::MissingConfig);
            },
        };
        if let Some(token) = config.make_token(subject, custom_claims, now) {
            proof {
                vstd::utf8::encode_utf8_decode_utf8(token@);
            }
            config.token_location().write(self, token, config.token_lifetime());
        }
        Ok(())
    }

    /// Logs the user out: clears the configured location. Without a
    /// configuration nothing happens, and the outcome says so.
    pub fn logout(&mut self) -> (outcome: Result<(), TokenError>)
        ensures
            final(self)@ == after_logout(old(self)@),
            outcome is Err <==> old(self)@.config is None,
            outcome matches Err(e) ==> e == TokenError::MissingConfig,
    {
        let config = match self.config() {
            Some(config) => config,
            None => {
                return Err(TokenError::MissingConfig);
            },
        };
        config.token_location().clear(self);
        Ok(())
    }
}

/// Extension trait for the request.
///
/// Use this trait to be able to get the authorized user for a request.
pub trait SessionRequestExtensions {
    /// The request as contracts see it.
    spec fn seen(&self) -> RequestView;

    /// Check if there is an authorized user.
    ///
    /// If there is an authorized user, Some(username) is returned,
    /// otherwise, None is returned.
    fn authorized_user(&self) -> (user: Option<String>)
        ensures
            text_view(user) == user_of(self.seen()),
    ;

    /// The application-defined claims of the verified token, if the
    /// request brought one.
    fn valid_custom_claims(&self) -> (claims: Option<Vec<(String, ClaimValue)>>)
        ensures
            claims_view(claims) == claims_of(self.seen()),
    ;

    /// The application-defined claims of the verified token, or the given
    /// ones if the request brought none.
    fn custom_claims_or(&self, fallback: Vec<(String, ClaimValue)>) -> (claims: Vec<
        (String, ClaimValue),
    >)
        ensures
            custom_view(claims@) == match claims_of(self.seen()) {
                Some(found) => found,
                None => custom_view(fallback@),
            },
    ;
}

impl SessionRequestExtensions for RequestContext {
    open spec fn seen(&self) -> RequestView {
        self@
    }

    fn authorized_user(&self) -> (user: Option<String>) {
        match self.session() {
            Some(session) => clone_text(session.identity()),
            None => None,
        }
    }

    fn valid_custom_claims(&self) -> (claims: Option<Vec<(String, ClaimValue)>>) {
        match self.session() {
            Some(session) => Some(clone_custom(session.claims())),
            None => None,
        }
    }

    fn custom_claims_or(&self, fallback: Vec<(String, ClaimValue)>) -> (claims: Vec<
        (String, ClaimValue),
    >) {
        match self.session() {
            Some(session) => clone_custom(session.claims()),
            None => fallback,
        }
    }
}

/// Extension trait for the response.
///
/// Use this trait to be able to set and clear a jwt token on a response.
pub trait SessionResponseExtensions {
    /// The response as contracts see it.
    spec fn sent(&self) -> ResponseView;

    /// Set the user.
    ///
    /// A jwt cookie signed with the secret key will be added to the
    /// response.
    /// It is the responsibility of the caller to actually validate
    /// the user (e.g. by password, or by CAS or some other mechanism)
    /// before calling this method.
    /// The token will be valid for the expiration_time specified on
    /// the `SessionMiddleware` from the current time.
    fn set_jwt_user(&mut self, user: &str)
        ensures
            exists|now: u64|
                final(self).sent() == #[trigger] after_login(
                    old(self).sent(),
                    Some(user@),
                    Seq::empty(),
                    now,
                ),
    ;

    /// Set the user, and claims of the application's own beside it.
    fn set_jwt_user_and_custom_claims(&mut self, user: &str, claims: Vec<(String, ClaimValue)>)
        ensures
            exists|now: u64|
                final(self).sent() == #[trigger] after_login(
                    old(self).sent(),
                    Some(user@),
                    custom_view(claims@),
                    now,
                ),
    ;

    /// Set claims of the application's own, and no user: for an
    /// application that keeps the identity among these claims.
    fn set_jwt_custom_claims(&mut self, claims: Vec<(String, ClaimValue)>)
        ensures
            exists|now: u64|
                final(self).sent() == #[trigger] after_login(
                    old(self).sent(),
                    None,
                    custom_view(claims@),
                    now,
                ),
    ;

    /// Clear the user.
    ///
    /// The response will clear the jwt cookie (set it to empty with
    /// zero max_age).
    fn clear_jwt_user(&mut self)
        ensures
            final(self).sent() == after_logout(old(self).sent()),
    ;
}

impl<'a> SessionResponseExtensions for ResponseContext<'a> {
    open spec fn sent(&self) -> ResponseView {
        self@
    }

    fn set_jwt_user(&mut self, user: &str) {
        let now = current_numeric_date();
        let claims: Vec<(String, ClaimValue)> = Vec::new();
        assert(custom_view(claims@) =~= Seq::empty());
        let _ = self.login_at(Some(user), claims, now);
        assert(self.sent() == after_login(old(self).sent(), Some(user@), Seq::empty(), now));
    }

    fn set_jwt_user_and_custom_claims(&mut self, user: &str, claims: Vec<(String, ClaimValue)>) {
        let now = current_numeric_date();
        let ghost given = custom_view(claims@);
        let _ = self.login_at(Some(user), claims, now);
        assert(self.sent() == after_login(old(self).sent(), Some(user@), given, now));
    }

    fn set_jwt_custom_claims(&mut self, claims: Vec<(String, ClaimValue)>) {
        let now = current_numeric_date();
        let ghost given = custom_view(claims@);
        let _ = self.login_at(None, claims, now);
        assert(self.sent() == after_login(old(self).sent(), None, given, now));
    }

    fn clear_jwt_user(&mut self) {
        let _ = self.logout();
    }
}

} // verus!
