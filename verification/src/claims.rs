//! What a token says: who the user is, in which time window the token holds,
//! and whatever else the application put into it.
//!
//! The claims of the application are held in the order of their names, each
//! name once and none of them a name that the token format keeps for
//! itself. A value that is no simple one, such as a list of roles, is held
//! as its JSON text.

use vstd::prelude::*;
use vstd::utf8::encode_utf8;

verus! {

/// The value of one application-defined claim.
#[derive(Debug, PartialEq, Eq)]
pub enum ClaimValue {
    Null,
    Bool(bool),
    /// A number that is an integer of 64 bits.
    Integer(i64),
    Text(String),
    /// Any other value, as its JSON text: a list, an object, or a number
    /// that is no integer of 64 bits.
    Json(String),
}

/// A claim value as contracts see it.
pub ghost enum ClaimValueView {
    Null,
    Bool(bool),
    Integer(i64),
    Text(Seq<char>),
    Json(Seq<char>),
}

impl View for ClaimValue {
    type V = ClaimValueView;

    open spec fn view(&self) -> ClaimValueView {
        match self {
            ClaimValue::Null => ClaimValueView::Null,
            ClaimValue::Bool(b) => ClaimValueView::Bool(*b),
            ClaimValue::Integer(n) => ClaimValueView::Integer(*n),
            ClaimValue::Text(s) => ClaimValueView::Text(s@),
            ClaimValue::Json(s) => ClaimValueView::Json(s@),
        }
    }
}

impl Clone for ClaimValue {
    fn clone(&self) -> (copy: Self)
        ensures
            copy@ == self@,
    {
        match self {
            ClaimValue::Null => ClaimValue::Null,
            ClaimValue::Bool(b) => ClaimValue::Bool(*b),
            ClaimValue::Integer(n) => ClaimValue::Integer(*n),
            ClaimValue::Text(s) => ClaimValue::Text(s.clone()),
            ClaimValue::Json(s) => ClaimValue::Json(s.clone()),
        }
    }
}

impl ClaimValue {
    /// Finds out whether two values are the same.
    pub fn same(&self, other: &ClaimValue) -> (same: bool)
        ensures
            same == (self@ == other@),
    {
        match (self, other) {
            (ClaimValue::Null, ClaimValue::Null) => true,
            (ClaimValue::Bool(a), ClaimValue::Bool(b)) => *a == *b,
            (ClaimValue::Integer(a), ClaimValue::Integer(b)) => *a == *b,
            (ClaimValue::Text(a), ClaimValue::Text(b)) => *a == *b,
            (ClaimValue::Json(a), ClaimValue::Json(b)) => *a == *b,
            _ => false,
        }
    }
}

/// Finds out whether two optional texts are the same.
pub fn same_text(left: &Option<String>, right: &Option<String>) -> (same: bool)
    ensures
        same == (text_view(*left) == text_view(*right)),
{
    match (left, right) {
        (Some(a), Some(b)) => *a == *b,
        (None, None) => true,
        _ => false,
    }
}

/// Finds out whether two lists of application-defined claims are the same.
pub fn same_custom(left: &Vec<(String, ClaimValue)>, right: &Vec<(String, ClaimValue)>) -> (same:
    bool)
    ensures
        same == (custom_view(left@) == custom_view(right@)),
{
    if left.len() != right.len() {
        assert(custom_view(left@).len() != custom_view(right@).len());
        return false;
    }
    let mut i: usize = 0;
    while i < left.len()
        invariant
            i <= left@.len(),
            left@.len() == right@.len(),
            forall|k: int|
                0 <= k < i ==> custom_view(left@)[k] == #[trigger] custom_view(right@)[k],
        decreases left@.len() - i,
    {
        let same_name = left[i].0 == right[i].0;
        let same_value = left[i].1.same(&right[i].1);
        if !same_name || !same_value {
            assert(custom_view(left@)[i as int] != custom_view(right@)[i as int]);
            return false;
        }
        i += 1;
    }
    assert(custom_view(left@) =~= custom_view(right@));
    true
}

/// The application-defined claims as contracts see them: names and values,
/// in the order in which they are held.
pub open spec fn custom_view(claims: Seq<(String, ClaimValue)>) -> Seq<(Seq<char>, ClaimValueView)> {
    claims.map_values(|entry: (String, ClaimValue)| (entry.0@, entry.1@))
}

/// A copy of a list of application-defined claims.
pub fn clone_custom(claims: &Vec<(String, ClaimValue)>) -> (copy: Vec<(String, ClaimValue)>)
    ensures
        custom_view(copy@) == custom_view(claims@),
{
    let mut copy: Vec<(String, ClaimValue)> = Vec::new();
    let mut i: usize = 0;
    while i < claims.len()
        invariant
            i <= claims@.len(),
            copy@.len() == i,
            forall|k: int|
                0 <= k < i ==> (#[trigger] copy@[k]).0@ == claims@[k].0@ && copy@[k].1@
                    == claims@[k].1@,
        decreases claims@.len() - i,
    {
        let name = claims[i].0.clone();
        let value = claims[i].1.clone();
        copy.push((name, value));
        i += 1;
    }
    assert(custom_view(copy@) =~= custom_view(claims@));
    copy
}

/// Whether one byte string comes before another in the order of a
/// dictionary: at the first place where they differ it has the smaller
/// byte, or it ends there and the other goes on.
pub open spec fn precedes(left: Seq<u8>, right: Seq<u8>) -> bool
    decreases left.len(),
{
    if right.len() == 0 {
        false
    } else if left.len() == 0 {
        true
    } else if left[0] != right[0] {
        left[0] < right[0]
    } else {
        precedes(left.skip(1), right.skip(1))
    }
}

/// Whether a name belongs to the claims that every token may carry
/// outside its application-defined claims.
pub open spec fn reserved(name: Seq<char>) -> bool {
    name == "iss"@ || name == "sub"@ || name == "aud"@ || name == "exp"@ || name == "nbf"@ || name
        == "iat"@ || name == "jti"@
}

/// Whether application-defined claims are named as a claim set wants them:
/// no name is reserved, and each comes after the one before it in the
/// order of the bytes of their names. So no name occurs twice.
pub open spec fn valid_names(claims: Seq<(Seq<char>, ClaimValueView)>) -> bool {
    &&& forall|i: int| 0 <= i < claims.len() ==> !reserved(#[trigger] claims[i].0)
    &&& forall|i: int|
        0 <= i && i + 1 < claims.len() ==> precedes(
            encode_utf8(#[trigger] claims[i].0),
            encode_utf8(claims[i + 1].0),
        )
}

/// Finds out whether one name comes before another.
pub fn comes_before(left: &str, right: &str) -> (before: bool)
    ensures
        before == precedes(encode_utf8(left@), encode_utf8(right@)),
{
    let a = left.as_bytes();
    let b = right.as_bytes();
    let mut i: usize = 0;
    proof {
        assert(a@.skip(0) =~= a@);
        assert(b@.skip(0) =~= b@);
    }
    while i < a.len() && i < b.len()
        invariant
            i <= a@.len(),
            i <= b@.len(),
            a@ == encode_utf8(left@),
            b@ == encode_utf8(right@),
            precedes(a@, b@) == precedes(a@.skip(i as int), b@.skip(i as int)),
        decreases a@.len() - i,
    {
        proof {
            assert(a@.skip(i as int).skip(1) =~= a@.skip(i + 1));
            assert(b@.skip(i as int).skip(1) =~= b@.skip(i + 1));
            assert(a@.skip(i as int)[0] == a@[i as int]);
            assert(b@.skip(i as int)[0] == b@[i as int]);
        }
        if a[i] != b[i] {
            return a[i] < b[i];
        }
        i += 1;
    }
    i < b.len()
}

/// Finds out whether a name is reserved.
pub fn is_reserved(name: &String) -> (found: bool)
    ensures
        found == reserved(name@),
{
    *name == "iss".to_owned() || *name == "sub".to_owned() || *name == "aud".to_owned() || *name
        == "exp".to_owned() || *name == "nbf".to_owned() || *name == "iat".to_owned() || *name
        == "jti".to_owned()
}

/// Finds out whether application-defined claims are named as a claim set
/// wants them.
pub fn has_valid_names(claims: &Vec<(String, ClaimValue)>) -> (valid: bool)
    ensures
        valid == valid_names(custom_view(claims@)),
{
    let ghost seen = custom_view(claims@);
    let mut i: usize = 0;
    while i < claims.len()
        invariant
            i <= claims@.len(),
            seen == custom_view(claims@),
            forall|k: int| 0 <= k < i ==> !reserved(#[trigger] seen[k].0),
            forall|k: int|
                0 <= k && k + 1 < i ==> precedes(
                    encode_utf8(#[trigger] seen[k].0),
                    encode_utf8(seen[k + 1].0),
                ),
        decreases claims@.len() - i,
    {
        assert(seen[i as int].0 == claims@[i as int].0@);
        if is_reserved(&claims[i].0) {
            return false;
        }
        if i > 0 {
            assert(seen[i - 1].0 == claims@[i - 1].0@);
            if !comes_before(claims[i - 1].0.as_str(), claims[i].0.as_str()) {
                assert(!precedes(encode_utf8(seen[i - 1].0), encode_utf8(seen[i - 1 + 1].0)));
                return false;
            }
        }
        i += 1;
    }
    true
}

/// The claims of one token.
#[derive(Debug, PartialEq, Eq)]
pub struct ClaimSet {
    pub(crate) issuer: Option<String>,
    pub(crate) subject: Option<String>,
    pub(crate) audience: Option<String>,
    pub(crate) expiration: Option<u64>,
    pub(crate) not_before: Option<u64>,
    pub(crate) issued_at: Option<u64>,
    pub(crate) json_web_token_id: Option<String>,
    pub(crate) custom_claims: Vec<(String, ClaimValue)>,
}

/// A claim set as contracts see it.
pub ghost struct ClaimSetView {
    pub issuer: Option<Seq<char>>,
    pub subject: Option<Seq<char>>,
    pub audience: Option<Seq<char>>,
    pub expires_at: Option<u64>,
    pub issued_not_before: Option<u64>,
    pub issued_at: Option<u64>,
    pub token_id: Option<Seq<char>>,
    pub custom_claims: Seq<(Seq<char>, ClaimValueView)>,
}

impl ClaimSetView {
    /// Where both ends of the window are given, the token does not expire
    /// before it starts to hold.
    pub open spec fn window_ordered(self) -> bool {
        self.issued_not_before is Some && self.expires_at is Some ==> self.issued_not_before->0
            <= self.expires_at->0
    }

    /// The invariant of a claim set: its window is ordered, and its
    /// application-defined claims are named as `valid_names` says.
    pub open spec fn wf(self) -> bool {
        self.window_ordered() && valid_names(self.custom_claims)
    }
}

/// An optional text as contracts see it.
pub open spec fn text_view(text: Option<String>) -> Option<Seq<char>> {
    match text {
        Some(s) => Some(s@),
        None => None,
    }
}

/// A copy of an optional text.
pub fn clone_text(text: &Option<String>) -> (copy: Option<String>)
    ensures
        copy == *text,
{
    match text {
        Some(s) => Some(s.clone()),
        None => None,
    }
}

impl View for ClaimSet {
    type V = ClaimSetView;

    closed spec fn view(&self) -> ClaimSetView {
        ClaimSetView {
            issuer: text_view(self.issuer),
            subject: text_view(self.subject),
            audience: text_view(self.audience),
            expires_at: self.expiration,
            issued_not_before: self.not_before,
            issued_at: self.issued_at,
            token_id: text_view(self.json_web_token_id),
            custom_claims: custom_view(self.custom_claims@),
        }
    }
}

impl Clone for ClaimSet {
    fn clone(&self) -> (copy: Self)
        ensures
            copy@ == self@,
    {
        ClaimSet {
            issuer: clone_text(&self.issuer),
            subject: clone_text(&self.subject),
            audience: clone_text(&self.audience),
            expiration: self.expiration,
            not_before: self.not_before,
            issued_at: self.issued_at,
            json_web_token_id: clone_text(&self.json_web_token_id),
            custom_claims: clone_custom(&self.custom_claims),
        }
    }
}

/// The claim set with an issuer, a subject, a window and
/// application-defined claims, and nothing else.
pub open spec fn plain_claims(
    issuer: Option<Seq<char>>,
    subject: Option<Seq<char>>,
    issued_not_before: Option<u64>,
    expires_at: Option<u64>,
    custom_claims: Seq<(Seq<char>, ClaimValueView)>,
) -> ClaimSetView {
    ClaimSetView {
        issuer,
        subject,
        audience: None,
        expires_at,
        issued_not_before,
        issued_at: None,
        token_id: None,
        custom_claims,
    }
}

impl ClaimSet {
    /// The invariant of a claim set.
    pub open spec fn wf(&self) -> bool {
        self@.wf()
    }

    /// Finds out whether two claim sets are the same.
    pub fn same(&self, other: &ClaimSet) -> (same: bool)
        ensures
            same == (self@ == other@),
    {
        same_text(&self.issuer, &other.issuer) && same_text(&self.subject, &other.subject)
            && same_text(&self.audience, &other.audience) && self.expiration == other.expiration
            && self.not_before == other.not_before && self.issued_at == other.issued_at
            && same_text(&self.json_web_token_id, &other.json_web_token_id) && same_custom(
            &self.custom_claims,
            &other.custom_claims,
        )
    }

    /// Finds out whether the invariant holds.
    pub fn is_well_formed(&self) -> (holds: bool)
        ensures
            holds == self.wf(),
    {
        let ordered = match (self.not_before, self.expiration) {
            (Some(start), Some(end)) => start <= end,
            _ => true,
        };
        ordered && has_valid_names(&self.custom_claims)
    }

    /// A claim set with the given claims, unless the window would end before
    /// it starts, an application-defined claim has a reserved name, or the
    /// application-defined claims are not in the order of their names.
    pub fn new(
        issuer: Option<String>,
        subject: Option<String>,
        issued_not_before: Option<u64>,
        expires_at: Option<u64>,
        custom_claims: Vec<(String, ClaimValue)>,
    ) -> (claims: Option<ClaimSet>)
        ensures
            claims is Some <==> plain_claims(
                text_view(issuer),
                text_view(subject),
                issued_not_before,
                expires_at,
                custom_view(custom_claims@),
            ).wf(),
            claims matches Some(c) ==> c.wf() && c@ == plain_claims(
                text_view(issuer),
                text_view(subject),
                issued_not_before,
                expires_at,
                custom_view(custom_claims@),
            ),
    {
        let claims = ClaimSet {
            issuer,
            subject,
            audience: None,
            expiration: expires_at,
            not_before: issued_not_before,
            issued_at: None,
            json_web_token_id: None,
            custom_claims,
        };
        if claims.is_well_formed() {
            Some(claims)
        } else {
            None
        }
    }

    /// The same claim set for the given audience.
    pub fn with_audience(self, audience: String) -> (claims: ClaimSet)
        ensures
            claims@ == (ClaimSetView { audience: Some(audience@), ..self@ }),
    {
        let mut claims = self;
        claims.audience = Some(audience);
        claims
    }

    /// The same claim set, issued at the given second.
    pub fn with_issued_at(self, issued_at: u64) -> (claims: ClaimSet)
        ensures
            claims@ == (ClaimSetView { issued_at: Some(issued_at), ..self@ }),
    {
        let mut claims = self;
        claims.issued_at = Some(issued_at);
        claims
    }

    /// The same claim set with the given identifier of the token.
    pub fn with_token_id(self, token_id: String) -> (claims: ClaimSet)
        ensures
            claims@ == (ClaimSetView { token_id: Some(token_id@), ..self@ }),
    {
        let mut claims = self;
        claims.json_web_token_id = Some(token_id);
        claims
    }

    /// Who issued the token.
    pub fn issuer(&self) -> (issuer: &Option<String>)
        ensures
            text_view(*issuer) == self@.issuer,
    {
        &self.issuer
    }

    /// Whom the token identifies.
    pub fn subject(&self) -> (subject: &Option<String>)
        ensures
            text_view(*subject) == self@.subject,
    {
        &self.subject
    }

    /// For whom the token is meant.
    pub fn audience(&self) -> (audience: &Option<String>)
        ensures
            text_view(*audience) == self@.audience,
    {
        &self.audience
    }

    /// The first second at which the token holds.
    pub fn issued_not_before(&self) -> (start: Option<u64>)
        ensures
            start == self@.issued_not_before,
    {
        self.not_before
    }

    /// The last second at which the token holds.
    pub fn expires_at(&self) -> (end: Option<u64>)
        ensures
            end == self@.expires_at,
    {
        self.expiration
    }

    /// The second at which the token was issued.
    pub fn issued_at(&self) -> (issued_at: Option<u64>)
        ensures
            issued_at == self@.issued_at,
    {
        self.issued_at
    }

    /// The identifier of the token.
    pub fn token_id(&self) -> (token_id: &Option<String>)
        ensures
            text_view(*token_id) == self@.token_id,
    {
        &self.json_web_token_id
    }

    /// The application-defined claims.
    pub fn custom_claims(&self) -> (custom: &Vec<(String, ClaimValue)>)
        ensures
            custom_view(custom@) == self@.custom_claims,
    {
        &self.custom_claims
    }

    /// Gives up the claim set for what it says of the user: the subject and
    /// the application-defined claims.
    pub fn into_identity(self) -> (parts: (Option<String>, Vec<(String, ClaimValue)>))
        ensures
            text_view(parts.0) == self@.subject,
            custom_view(parts.1@) == self@.custom_claims,
    {
        (self.subject, self.custom_claims)
    }
}

} // verus!
