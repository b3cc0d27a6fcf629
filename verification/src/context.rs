//! What the library knows of one request and of the response to it.
//!
//! The server makes a `RequestContext` from the headers that came in, lets
//! the middleware look at it, and hands it on to its handlers, which ask it
//! for the user. It makes a `ResponseContext` beside it, on which a handler
//! logs the user in or out, and puts the cookie that it then holds on the
//! response that goes out.

use crate::claims::{clone_custom, clone_text, custom_view, text_view, ClaimValue, ClaimValueView};
use crate::middleware::{SessionConfigView, SessionMiddleware};
use crate::transport::{cookie_view, cookies_view, SetCookie, SetCookieView};
use vstd::prelude::*;

verus! {

/// What a verified token says of the request that brought it.
#[derive(Debug, PartialEq, Eq)]
pub struct RequestSession {
    identity: Option<String>,
    claims: Vec<(String, ClaimValue)>,
}

/// A session as contracts see it.
pub ghost struct SessionView {
    pub identity: Option<Seq<char>>,
    pub claims: Seq<(Seq<char>, ClaimValueView)>,
}

impl View for RequestSession {
    type V = SessionView;

    closed spec fn view(&self) -> SessionView {
        SessionView { identity: text_view(self.identity), claims: custom_view(self.claims@) }
    }
}

/// An optional session as contracts see it.
pub open spec fn session_view(session: Option<RequestSession>) -> Option<SessionView> {
    match session {
        Some(s) => Some(s@),
        None => None,
    }
}

impl RequestSession {
    /// The session of a user with application-defined claims.
    pub fn new(identity: Option<String>, claims: Vec<(String, ClaimValue)>) -> (session: Self)
        ensures
            session@ == (SessionView {
                identity: text_view(identity),
                claims: custom_view(claims@),
            }),
    {
        RequestSession { identity, claims }
    }

    /// The user.
    pub fn identity(&self) -> (identity: &Option<String>)
        ensures
            text_view(*identity) == self@.identity,
    {
        &self.identity
    }

    /// The application-defined claims.
    pub fn claims(&self) -> (claims: &Vec<(String, ClaimValue)>)
        ensures
            custom_view(claims@) == self@.claims,
    {
        &self.claims
    }
}

/// One request: the cookies and the authorization header that it brought,
/// and the session that the middleware found in them.
#[derive(Debug)]
pub struct RequestContext {
    cookies: Vec<(String, String)>,
    authorization: Option<String>,
    session: Option<RequestSession>,
}

/// A request as contracts see it.
pub ghost struct RequestView {
    pub cookies: Seq<(Seq<char>, Seq<char>)>,
    pub authorization: Option<Seq<char>>,
    pub session: Option<SessionView>,
}

impl View for RequestContext {
    type V = RequestView;

    closed spec fn view(&self) -> RequestView {
        RequestView {
            cookies: cookies_view(self.cookies@),
            authorization: text_view(self.authorization),
            session: session_view(self.session),
        }
    }
}

impl RequestContext {
    /// A request that brought these cookies, in the order of its header,
    /// and this authorization header. It has no session yet.
    pub fn new(cookies: Vec<(String, String)>, authorization: Option<String>) -> (request: Self)
        ensures
            request@ == (RequestView {
                cookies: cookies_view(cookies@),
                authorization: text_view(authorization),
                session: None,
            }),
    {
        RequestContext { cookies, authorization, session: None }
    }

    /// The cookies that the request brought.
    pub fn cookies(&self) -> (cookies: &Vec<(String, String)>)
        ensures
            cookies_view(cookies@) == self@.cookies,
    {
        &self.cookies
    }

    /// The authorization header that the request brought.
    pub fn authorization(&self) -> (authorization: &Option<String>)
        ensures
            text_view(*authorization) == self@.authorization,
    {
        &self.authorization
    }

    /// The session that the middleware found.
    pub fn session(&self) -> (session: &Option<RequestSession>)
        ensures
            session_view(*session) == self@.session,
    {
        &self.session
    }

    /// Attaches a session to the request.
    pub(crate) fn attach(&mut self, session: RequestSession)
        ensures
            final(self)@ == (RequestView { session: Some(session@), ..old(self)@ }),
    {
        self.session = Some(session);
    }
}

/// The response to one request: the configuration under which tokens are
/// issued, once the middleware has seen the request, and the cookie to set.
pub struct ResponseContext<'a> {
    config: Option<&'a SessionMiddleware>,
    set_cookie: Option<SetCookie>,
}

/// A response as contracts see it.
pub ghost struct ResponseView {
    pub config: Option<SessionConfigView>,
    pub set_cookie: Option<SetCookieView>,
}

/// An optional configuration as contracts see it.
pub open spec fn config_view(config: Option<&SessionMiddleware>) -> Option<SessionConfigView> {
    match config {
        Some(c) => Some(c@),
        None => None,
    }
}

impl<'a> View for ResponseContext<'a> {
    type V = ResponseView;

    closed spec fn view(&self) -> ResponseView {
        ResponseView { config: config_view(self.config), set_cookie: cookie_view(self.set_cookie) }
    }
}

impl<'a> ResponseContext<'a> {
    /// A response that knows of no configuration and sets no cookie.
    pub fn new() -> (response: Self)
        ensures
            response@ == (ResponseView { config: None, set_cookie: None }),
    {
        ResponseContext { config: None, set_cookie: None }
    }

    /// A response that the middleware has seen: it knows the configuration
    /// and sets no cookie.
    pub fn configured(config: &'a SessionMiddleware) -> (response: Self)
        ensures
            response@ == (ResponseView { config: Some(config@), set_cookie: None }),
    {
        ResponseContext { config: Some(config), set_cookie: None }
    }

    /// The configuration under which tokens are issued.
    pub fn config(&self) -> (config: Option<&'a SessionMiddleware>)
        ensures
            config_view(config) == self@.config,
    {
        self.config
    }

    /// The cookie that the response sets.
    pub fn cookie(&self) -> (cookie: &Option<SetCookie>)
        ensures
            cookie_view(*cookie) == self@.set_cookie,
    {
        &self.set_cookie
    }

    /// Attaches the configuration to the response.
    pub(crate) fn configure(&mut self, config: &'a SessionMiddleware)
        ensures
            final(self)@ == (ResponseView { config: Some(config@), ..old(self)@ }),
    {
        self.config = Some(config);
    }

    /// Makes the response set a cookie, in place of the one it would have
    /// set.
    pub(crate) fn set_cookie(&mut self, cookie: SetCookie)
        ensures
            final(self)@ == (ResponseView { set_cookie: Some(cookie@), ..old(self)@ }),
    {
        self.set_cookie = Some(cookie);
    }
}

} // verus!
