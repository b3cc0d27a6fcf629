//! Where a token travels: in a named cookie, or in the authorization header.
//!
//! A request is seen as the cookies and the authorization header that it
//! brought, a response as the cookie that it will set. Reading the header
//! lines and writing them is left to the server around the library.

use crate::claims::{clone_text, text_view};
use crate::context::{RequestContext, ResponseContext};
use vstd::prelude::*;

verus! {

/// Places the token could be located.
#[derive(Debug, PartialEq, Eq)]
pub enum TokenLocation {
    /// The value of the cookie with this name.
    Cookie(String),
    /// The value of the authorization header, as it stands. The server
    /// reads it and never writes it: the client hears of a new token in
    /// some other way.
    AuthorizationHeader,
}

/// A token location as contracts see it.
pub ghost enum TokenLocationView {
    Cookie(Seq<char>),
    AuthorizationHeader,
}

impl View for TokenLocation {
    type V = TokenLocationView;

    open spec fn view(&self) -> TokenLocationView {
        match self {
            TokenLocation::Cookie(name) => TokenLocationView::Cookie(name@),
            TokenLocation::AuthorizationHeader => TokenLocationView::AuthorizationHeader,
        }
    }
}

impl Clone for TokenLocation {
    fn clone(&self) -> (copy: Self)
        ensures
            copy@ == self@,
    {
        match self {
            TokenLocation::Cookie(name) => TokenLocation::Cookie(name.clone()),
            TokenLocation::AuthorizationHeader => TokenLocation::AuthorizationHeader,
        }
    }
}

/// A cookie that a response sets: its name, its value, and for how many
/// seconds the client is to keep it.
#[derive(Debug, PartialEq, Eq)]
pub struct SetCookie {
    pub name: String,
    pub value: String,
    pub max_age: u64,
}

/// A cookie to set as contracts see it.
pub ghost struct SetCookieView {
    pub name: Seq<char>,
    pub value: Seq<char>,
    pub max_age: u64,
}

impl View for SetCookie {
    type V = SetCookieView;

    open spec fn view(&self) -> SetCookieView {
        SetCookieView { name: self.name@, value: self.value@, max_age: self.max_age }
    }
}

/// An optional cookie to set as contracts see it.
pub open spec fn cookie_view(cookie: Option<SetCookie>) -> Option<SetCookieView> {
    match cookie {
        Some(c) => Some(c@),
        None => None,
    }
}

/// The cookie that carries a token for `max_age` seconds.
pub open spec fn fresh_cookie(name: Seq<char>, token: Seq<char>, max_age: u64) -> SetCookieView {
    SetCookieView { name, value: token, max_age }
}

/// The cookie that tells the client to forget the token at once: no value,
/// and no time to live.
pub open spec fn stale_cookie(name: Seq<char>) -> SetCookieView {
    SetCookieView { name, value: Seq::<char>::empty(), max_age: 0 }
}

/// The cookies of a request as contracts see them: names and values, in the
/// order of the header.
pub open spec fn cookies_view(cookies: Seq<(String, String)>) -> Seq<(Seq<char>, Seq<char>)> {
    cookies.map_values(|pair: (String, String)| (pair.0@, pair.1@))
}

/// The value of the first cookie with the given name, if there is one.
/// Names are compared exactly, capitals included.
pub open spec fn cookie_value(cookies: Seq<(Seq<char>, Seq<char>)>, name: Seq<char>) -> Option<
    Seq<char>,
>
    decreases cookies.len(),
{
    if cookies.len() == 0 {
        None
    } else if cookies[0].0 == name {
        Some(cookies[0].1)
    } else {
        cookie_value(cookies.skip(1), name)
    }
}

/// What a location holds, given the cookies and the authorization header of
/// a request.
pub open spec fn token_at(
    location: TokenLocationView,
    cookies: Seq<(Seq<char>, Seq<char>)>,
    authorization: Option<Seq<char>>,
) -> Option<Seq<char>> {
    match location {
        TokenLocationView::Cookie(name) => cookie_value(cookies, name),
        TokenLocationView::AuthorizationHeader => authorization,
    }
}

/// The cookie that a response sets after a token was written to a location:
/// a fresh one for a cookie location, and the one it had for the header.
pub open spec fn after_write(
    location: TokenLocationView,
    before: Option<SetCookieView>,
    token: Seq<char>,
    max_age: u64,
) -> Option<SetCookieView> {
    match location {
        TokenLocationView::Cookie(name) => Some(fresh_cookie(name, token, max_age)),
        TokenLocationView::AuthorizationHeader => before,
    }
}

/// The cookie that a response sets after a location was cleared: a stale
/// one for a cookie location, and the one it had for the header.
pub open spec fn after_clear(location: TokenLocationView, before: Option<SetCookieView>) -> Option<
    SetCookieView,
> {
    match location {
        TokenLocationView::Cookie(name) => Some(stale_cookie(name)),
        TokenLocationView::AuthorizationHeader => before,
    }
}

/// The value of the first cookie with the given name.
pub fn get_cookie(cookies: &Vec<(String, String)>, name: &str) -> (value: Option<String>)
    ensures
        text_view(value) == cookie_value(cookies_view(cookies@), name@),
{
    let wanted = name.to_owned();
    let mut i: usize = 0;
    proof {
        assert(cookies_view(cookies@).skip(0) =~= cookies_view(cookies@));
    }
    while i < cookies.len()
        invariant
            i <= cookies@.len(),
            wanted@ == name@,
            cookie_value(cookies_view(cookies@), name@) == cookie_value(
                cookies_view(cookies@).skip(i as int),
                name@,
            ),
        decreases cookies@.len() - i,
    {
        proof {
            let rest = cookies_view(cookies@).skip(i as int);
            assert(rest[0] == (cookies@[i as int].0@, cookies@[i as int].1@));
            assert(rest.skip(1) =~= cookies_view(cookies@).skip(i + 1));
        }
        if cookies[i].0 == wanted {
            return Some(cookies[i].1.clone());
        }
        i += 1;
    }
    None
}

impl TokenLocation {
    /// The token that a request carries at this location, if it carries one.
    pub fn read(&self, request: &RequestContext) -> (token: Option<String>)
        ensures
            text_view(token) == token_at(self@, request@.cookies, request@.authorization),
    {
        match self {
            TokenLocation::Cookie(name) => get_cookie(request.cookies(), name.as_str()),
            TokenLocation::AuthorizationHeader => clone_text(request.authorization()),
        }
    }

    /// Puts a token where the client will find it: in a cookie that lives
    /// `max_age` seconds. For the authorization header nothing is written.
    pub fn write(&self, response: &mut ResponseContext, token: String, max_age: u64)
        ensures
            final(response)@.config == old(response)@.config,
            final(response)@.set_cookie == after_write(
                self@,
                old(response)@.set_cookie,
                token@,
                max_age,
            ),
    {
        match self {
            TokenLocation::Cookie(name) => {
                response.set_cookie(SetCookie { name: name.clone(), value: token, max_age });
            },
            TokenLocation::AuthorizationHeader => {},
        }
    }

    /// Tells the client to forget the token: a cookie with no value that
    /// lives no time. For the authorization header nothing is written.
    pub fn clear(&self, response: &mut ResponseContext)
        ensures
            final(response)@.config == old(response)@.config,
            final(response)@.set_cookie == after_clear(self@, old(response)@.set_cookie),
    {
        match self {
            TokenLocation::Cookie(name) => {
                response.set_cookie(
                    SetCookie { name: name.clone(), value: String::new(), max_age: 0 },
                );
            },
            TokenLocation::AuthorizationHeader => {},
        }
    }
}

} // verus!
