//! The middleware: its configuration, and what it does with each request.

use crate::claims::{
    clone_text,
    custom_view,
    plain_claims,
    text_view,
    valid_names,
    ClaimSet,
    ClaimSetView,
    ClaimValue,
    ClaimValueView,
};
use crate::clock::current_numeric_date;
use crate::codec::{sign, signed, token_view, verified, verify};
use crate::context::{
    RequestContext,
    RequestSession,
    RequestView,
    ResponseContext,
    ResponseView,
    SessionView,
};
use crate::error::TokenError;
use crate::laws::law_round_trip;
use crate::payload::{outcome_view, parsed_view, reads_back};
use crate::transport::{token_at, TokenLocation, TokenLocationView};
use vstd::prelude::*;
use vstd::utf8::encode_utf8;

verus! {

/// For how many seconds a token holds unless the configuration says
/// otherwise: one day.
pub const DEFAULT_EXPIRATION_TIME: u64 = 86400;

/// The middleware itself: the key that signs the tokens, who issues them,
/// how long they hold, and where they travel. It is made once and never
/// changed; every request reads it. It cannot be printed, and the key
/// cannot be read back.
pub struct SessionMiddleware {
    server_key: String,
    issuer: Option<String>,
    expiration_time: u64,
    location: TokenLocation,
}

/// The configuration as contracts see it.
pub ghost struct SessionConfigView {
    pub key: Seq<u8>,
    pub issuer: Option<Seq<char>>,
    pub expiration_time: u64,
    pub location: TokenLocationView,
}

impl View for SessionMiddleware {
    type V = SessionConfigView;

    closed spec fn view(&self) -> SessionConfigView {
        SessionConfigView {
            key: encode_utf8(self.server_key@),
            issuer: text_view(self.issuer),
            expiration_time: self.expiration_time,
            location: self.location@,
        }
    }
}

impl Clone for SessionMiddleware {
    fn clone(&self) -> (copy: Self)
        ensures
            copy@ == self@,
    {
        SessionMiddleware {
            server_key: self.server_key.clone(),
            issuer: clone_text(&self.issuer),
            expiration_time: self.expiration_time,
            location: self.location.clone(),
        }
    }
}

/// Where the middleware leaves a request.
#[derive(Debug, Clone, Copy, PartialEq, Eq, Structural)]
pub enum RequestState {
    /// The request brought no token. It goes on without a user.
    NoToken,
    /// The token is genuine and holds now. The request has a session.
    Verified,
    /// The token was not signed with the server's key.
    SignatureInvalid,
    /// What the request brought is no token.
    Malformed,
    /// The token is genuine but starts to hold only later.
    NotYetValid,
    /// The token is genuine but has expired.
    Expired,
}

/// Whether a claim set holds at a given second: not before its start, and
/// not after its end. An end that is missing is never reached, and a start
/// that is missing has always passed.
pub open spec fn in_window(claims: ClaimSetView, now: u64) -> Result<ClaimSetView, TokenError> {
    if claims.issued_not_before is Some && now < claims.issued_not_before->0 {
        Err(TokenError::NotYetValid)
    } else if claims.expires_at is Some && now > claims.expires_at->0 {
        Err(TokenError::Expired)
    } else {
        Ok(claims)
    }
}

/// What a token is worth under a key at a given second: its claim set, once
/// it is verified and found to hold.
pub open spec fn checked(key: Seq<u8>, token: Seq<u8>, now: u64) -> Result<
    ClaimSetView,
    TokenError,
> {
    match verified(token, key) {
        Ok(claims) => in_window(claims, now),
        Err(e) => Err(e),
    }
}

/// What the middleware finds in a request at a given second: nothing where
/// the request brought no token, and else what the token is worth.
pub open spec fn examined(config: SessionConfigView, request: RequestView, now: u64) -> Option<
    Result<ClaimSetView, TokenError>,
> {
    match token_at(config.location, request.cookies, request.authorization) {
        Some(token) => Some(checked(config.key, encode_utf8(token), now)),
        None => None,
    }
}

/// The state that stands for what the middleware found.
pub open spec fn state_of(found: Option<Result<ClaimSetView, TokenError>>) -> RequestState {
    match found {
        None => RequestState::NoToken,
        Some(Ok(_)) => RequestState::Verified,
        Some(Err(TokenError::BadSignature)) => RequestState::SignatureInvalid,
        Some(Err(TokenError::NotYetValid)) => RequestState::NotYetValid,
        Some(Err(TokenError::Expired)) => RequestState::Expired,
        Some(Err(_)) => RequestState::Malformed,
    }
}

/// The session that a claim set gives a request: its subject as the user,
/// and its application-defined claims.
pub open spec fn session_of(claims: ClaimSetView) -> SessionView {
    SessionView { identity: claims.subject, claims: claims.custom_claims }
}

/// The request after the middleware has seen it: with a session where its
/// token was verified, and as it was in every other case.
pub open spec fn after_invoke(config: SessionConfigView, request: RequestView, now: u64) -> RequestView {
    match examined(config, request, now) {
        Some(Ok(claims)) => RequestView { session: Some(session_of(claims)), ..request },
        _ => request,
    }
}

/// The claim set of a token issued at a given second: it holds from then
/// on for as long as the configuration says. There is none where the end
/// of that time cannot be written in 64 bits, and none where the
/// application-defined claims are not named as a claim set wants them.
pub open spec fn minted(
    config: SessionConfigView,
    subject: Option<Seq<char>>,
    custom_claims: Seq<(Seq<char>, ClaimValueView)>,
    now: u64,
) -> Option<ClaimSetView> {
    if now + config.expiration_time <= u64::MAX && valid_names(custom_claims) {
        Some(
            plain_claims(
                config.issuer,
                subject,
                Some(now),
                Some((now + config.expiration_time) as u64),
                custom_claims,
            ),
        )
    } else {
        None
    }
}

/// The token issued at a given second, where there is one.
pub open spec fn issued(
    config: SessionConfigView,
    subject: Option<Seq<char>>,
    custom_claims: Seq<(Seq<char>, ClaimValueView)>,
    now: u64,
) -> Option<Seq<u8>> {
    match minted(config, subject, custom_claims, now) {
        Some(claims) => signed(claims, config.key),
        None => None,
    }
}

/// An optional user name as contracts see it.
pub open spec fn name_view(name: Option<&str>) -> Option<Seq<char>> {
    match name {
        Some(n) => Some(n@),
        None => None,
    }
}

/// Finds out whether a claim set holds at a given second.
pub fn check_window(claims: ClaimSet, now: u64) -> (outcome: Result<ClaimSet, TokenError>)
    ensures
        outcome_view(outcome) == in_window(claims@, now),
        outcome matches Ok(c) ==> c == claims,
{
    if let Some(start) = claims.issued_not_before() {
        if now < start {
            return Err(TokenError::NotYetValid);
        }
    }
    if let Some(end) = claims.expires_at() {
        if now > end {
            return Err(TokenError::Expired);
        }
    }
    Ok(claims)
}

/// The state that stands for the outcome of a check.
pub fn state_for(outcome: &Result<ClaimSet, TokenError>) -> (state: RequestState)
    ensures
        state == state_of(Some(outcome_view(*outcome))),
{
    match outcome {
        Ok(_) => RequestState::Verified,
        Err(TokenError::BadSignature) => RequestState::SignatureInvalid,
        Err(TokenError::NotYetValid) => RequestState::NotYetValid,
        Err(TokenError::Expired) => RequestState::Expired,
        Err(_) => RequestState::Malformed,
    }
}

impl SessionMiddleware {
    /// Create a new instance.
    ///
    /// The `server_key` is used for signing and validating the jwt token.
    /// Tokens name no issuer, hold for a day and travel in the cookie `jwt`.
    pub fn new(server_key: &str) -> (middleware: SessionMiddleware)
        ensures
            middleware@ == (SessionConfigView {
                key: encode_utf8(server_key@),
                issuer: None,
                expiration_time: DEFAULT_EXPIRATION_TIME,
                location: TokenLocationView::Cookie("jwt"@),
            }),
    {
        SessionMiddleware {
            server_key: server_key.to_owned(),
            issuer: None,
            expiration_time: DEFAULT_EXPIRATION_TIME,
            location: TokenLocation::Cookie("jwt".to_owned()),
        }
    }

    /// Set a value for the iss (issuer) jwt claim.
    pub fn issuer(self, issuer: &str) -> (middleware: Self)
        ensures
            middleware@ == (SessionConfigView { issuer: Some(issuer@), ..self@ }),
    {
        let mut middleware = self;
        middleware.issuer = Some(issuer.to_owned());
        middleware
    }

    /// Set how long a token should be valid after creation (in seconds).
    pub fn expiration_time(self, expiration_time: u64) -> (middleware: Self)
        ensures
            middleware@ == (SessionConfigView { expiration_time, ..self@ }),
    {
        let mut middleware = self;
        middleware.expiration_time = expiration_time;
        middleware
    }

    /// Set where the token travels.
    pub fn using(self, location: TokenLocation) -> (middleware: Self)
        ensures
            middleware@ == (SessionConfigView { location: location@, ..self@ }),
    {
        let mut middleware = self;
        middleware.location = location;
        middleware
    }

    /// Where the token travels.
    pub fn token_location(&self) -> (location: &TokenLocation)
        ensures
            location@ == self@.location,
    {
        &self.location
    }

    /// For how many seconds a token holds.
    pub fn token_lifetime(&self) -> (seconds: u64)
        ensures
            seconds == self@.expiration_time,
    {
        self.expiration_time
    }

    /// The claim set of a token issued now for a user, with
    /// application-defined claims.
    pub fn mint(
        &self,
        subject: Option<&str>,
        custom_claims: Vec<(String, ClaimValue)>,
        now: u64,
    ) -> (claims: Option<ClaimSet>)
        ensures
            parsed_view(claims) == minted(self@, name_view(subject), custom_view(custom_claims@), now),
            claims matches Some(c) ==> c.wf(),
    {
        let end = match now.checked_add(self.expiration_time) {
            Some(end) => end,
            None => {
                return None;
            },
        };
        let subject = match subject {
            Some(name) => Some(name.to_owned()),
            None => None,
        };
        ClaimSet::new(clone_text(&self.issuer), subject, Some(now), Some(end), custom_claims)
    }

    /// The token issued now for a user, with application-defined claims:
    /// it names the configured issuer, starts to hold now and expires when
    /// the configured time has passed. Where its claims read back from
    /// their JSON text, the token verifies under the server's key to these
    /// very claims.
    pub fn make_token(
        &self,
        subject: Option<&str>,
        custom_claims: Vec<(String, ClaimValue)>,
        now: u64,
    ) -> (token: Option<String>)
        ensures
            token_view(token) == issued(
                self@,
                name_view(subject),
                custom_view(custom_claims@),
                now,
            ),
            token is Some && reads_back(
                minted(self@, name_view(subject), custom_view(custom_claims@), now)->0,
            ) ==> verified(token_view(token)->0, self@.key) == Ok::<ClaimSetView, TokenError>(
                minted(self@, name_view(subject), custom_view(custom_claims@), now)->0,
            ),
    {
        match self.mint(subject, custom_claims, now) {
            Some(claims) => {
                let token = sign(&claims, self.server_key.as_str().as_bytes());
                proof {
                    if token is Some {
                        law_round_trip(claims@, self@.key);
                    }
                }
                token
            },
            None => None,
        }
    }

    /// What a token is worth now: its claim set, once it is verified under
    /// the server's key and found to hold.
    pub fn check(&self, token: &str, now: u64) -> (outcome: Result<ClaimSet, TokenError>)
        ensures
            outcome_view(outcome) == checked(self@.key, encode_utf8(token@), now),
            outcome matches Ok(claims) ==> claims.wf(),
    {
        match verify(token, self.server_key.as_str().as_bytes()) {
            Ok(claims) => check_window(claims, now),
            Err(e) => Err(e),
        }
    }

    /// Sees a request in at a given second. The response gets to know the
    /// configuration. Where the request brought a token that is genuine and
    /// holds, the request gets its session. In every case the request goes
    /// on: the state says how, and stops nothing.
    pub fn invoke_at<'a>(
        &'a self,
        request: &mut RequestContext,
        response: &mut ResponseContext<'a>,
        now: u64,
    ) -> (state: RequestState)
        ensures
            final(response)@ == (ResponseView { config: Some(self@), ..old(response)@ }),
            final(request)@ == after_invoke(self@, old(request)@, now),
            state == state_of(examined(self@, old(request)@, now)),
    {
        response.configure(self);
        let token = match self.location.read(request) {
            Some(token) => token,
            None => {
                return RequestState::NoToken;
            },
        };
        let outcome = self.check(token.as_str(), now);
        let state = state_for(&outcome);
        if let Ok(claims) = outcome {
            let (identity, custom_claims) = claims.into_identity();
            request.attach(RequestSession::new(identity, custom_claims));
        }
        state
    }

    /// Sees a request in, at the second that the clock reads.
    pub fn invoke<'a>(
        &'a self,
        request: &mut RequestContext,
        response: &mut ResponseContext<'a>,
    ) -> (state: RequestState)
        ensures
            final(response)@ == (ResponseView { config: Some(self@), ..old(response)@ }),
            exists|now: u64|
                final(request)@ == #[trigger] after_invoke(self@, old(request)@, now) && state
                    == state_of(examined(self@, old(request)@, now)),
    {
        let now = current_numeric_date();
        self.invoke_at(request, response, now)
    }
}

} // verus!
