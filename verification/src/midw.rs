//! The bearer-token policy of the protected endpoints: what is made of the
//! `Authorization` header, and which claims a gateway token must carry.

use crate::json::{json_of_value, Json, JsonView};
use vstd::prelude::*;

verus! {

/// Seconds for which a gateway token is valid: 72 hours.
pub const TOKEN_LIFETIME_SECS: i64 = 259_200;

/// The HTTP status of every denial.
pub const UNAUTHORIZED: u16 = 401;

/// The claims of a gateway token.
#[derive(Debug, PartialEq, Eq)]
pub struct GatewayAuthClaims {
    /// Issuer.
    pub iss: String,
    /// Whether the bearer may pass the gateway.
    pub gateway_access: bool,
    /// Expiration time, in seconds since the Unix epoch.
    pub exp: i64,
    /// Time of issue, in seconds since the Unix epoch.
    pub iat: i64,
}

/// The mathematical value of [`GatewayAuthClaims`].
pub struct GatewayAuthClaimsView {
    pub iss: Seq<char>,
    pub gateway_access: bool,
    pub exp: int,
    pub iat: int,
}

impl View for GatewayAuthClaims {
    type V = GatewayAuthClaimsView;

    open spec fn view(&self) -> GatewayAuthClaimsView {
        GatewayAuthClaimsView {
            iss: self.iss@,
            gateway_access: self.gateway_access,
            exp: self.exp as int,
            iat: self.iat as int,
        }
    }
}

/// What the `Authorization` header of a request holds.
#[derive(Debug, PartialEq, Eq)]
pub enum Credentials {
    /// The request has no such header.
    Absent,
    /// The header is there but is no visible text.
    Unreadable,
    /// The header's text.
    Present(String),
}

/// What the check of a token's signature and expiry found.
#[derive(Debug, PartialEq, Eq)]
pub enum TokenCheck {
    /// The token is signed with the secret and has not expired; these are its claims.
    Verified(Json),
    /// The token is signed with the secret but has expired; its claims were
    /// not looked at.
    Expired,
    /// The token is no token, or fails the check in any other way.
    Rejected,
}

/// Why a request is turned away.
#[derive(Debug, Clone, Copy, PartialEq, Eq, Structural)]
pub enum Denial {
    NotLoggedIn,
    MissingCreds,
    TokenExpired,
    InvalidToken,
}

/// `text` with every match of `from` replaced by `to`, matches taken from the
/// left and never overlapping.
pub open spec fn replaced(text: Seq<char>, from: Seq<char>, to: Seq<char>) -> Seq<char>
    decreases text.len(),
{
    if from.len() == 0 || text.len() < from.len() {
        text
    } else if text.subrange(0, from.len() as int) == from {
        to + replaced(text.subrange(from.len() as int, text.len() as int), from, to)
    } else {
        seq![text[0]] + replaced(text.drop_first(), from, to)
    }
}

/// The prefix that announces a bearer token.
pub open spec fn bearer_prefix() -> Seq<char> {
    "Bearer "@
}

/// The claims that a token's payload holds, where it holds all four in their types.
pub open spec fn claims_spec(payload: JsonView) -> Option<GatewayAuthClaimsView> {
    match (
        payload.member("iss"@),
        payload.member("gateway_access"@),
        payload.member("exp"@),
        payload.member("iat"@),
    ) {
        (
            Some(JsonView::Text(iss)),
            Some(JsonView::Bool(gateway_access)),
            Some(JsonView::Integer(exp)),
            Some(JsonView::Integer(iat)),
        ) => Some(GatewayAuthClaimsView { iss, gateway_access, exp, iat }),
        _ => None,
    }
}

/// The verdict on a checked token: its claims, or the reason to turn the
/// request away.
pub open spec fn judge_spec(check: TokenCheck) -> Result<GatewayAuthClaimsView, Denial> {
    match check {
        TokenCheck::Verified(payload) => match claims_spec(payload@) {
            Some(claims) => Ok(claims),
            None => Err(Denial::InvalidToken),
        },
        TokenCheck::Expired => Err(Denial::TokenExpired),
        TokenCheck::Rejected => Err(Denial::InvalidToken),
    }
}

/// `str::replace` with a pattern that is not empty: every match of `from`,
/// found from the left, gives way to `to`.
#[verifier::external_body]
fn replace(text: &str, from: &str, to: &str) -> (out: String)
    requires
        from@.len() > 0,
    ensures
        out@ == replaced(text@, from@, to@),
{
    text.replace(from, to)
}

/// `jsonwebtoken::decode` with `Validation::new(Algorithm::HS256)` and the
/// secret as an HMAC key. The outcome depends on the clock, so nothing is
/// claimed of it. The three outcomes are told apart by the error's kind:
/// `ExpiredSignature`, or any other. The claims are read as a document, so
/// of a claim that the token repeats the last one counts. `jsonwebtoken`
/// panics where the system clock reads a time before 1970.
#[verifier::external_body]
fn verify_hs256(token: &str, secret: &[u8]) -> (check: TokenCheck) {
    let key = jsonwebtoken::DecodingKey::from_secret(secret);
    let validation = jsonwebtoken::Validation::new(jsonwebtoken::Algorithm::HS256);
    match jsonwebtoken::decode::<serde_json::Value>(token, &key, &validation) {
        Ok(data) => TokenCheck::Verified(json_of_value(data.claims)),
        Err(error) => match error.kind() {
            jsonwebtoken::errors::ErrorKind::ExpiredSignature => TokenCheck::Expired,
            _ => TokenCheck::Rejected,
        },
    }
}

/// The latest time that `chrono` can tell in seconds since the Unix epoch: it
/// counts the days in an `i32`, takes the 719 163 days before the epoch off,
/// and adds the second of the day, which it holds in a `u32`.
pub open spec fn latest_reading() -> int {
    (i32::MAX - 719_163) * 86_400 + u32::MAX
}

/// `chrono::Utc::now().timestamp()`: the system clock's seconds since the
/// Unix epoch. Which time the clock reads is not claimed, only that the
/// reading is none that `chrono` cannot tell. `chrono` panics where the
/// system clock reads a time before 1970.
#[verifier::external_body]
fn unix_now() -> (seconds: i64)
    ensures
        seconds <= latest_reading(),
{
    chrono::Utc::now().timestamp()
}

impl GatewayAuthClaims {
    /// The claims of a token issued at `iat` that is valid for 72 hours.
    pub fn issued_at(issuer: String, gateway_access: bool, iat: i64) -> (claims: Self)
        requires
            iat + TOKEN_LIFETIME_SECS <= i64::MAX,
        ensures
            claims@ == (GatewayAuthClaimsView {
                iss: issuer@,
                gateway_access,
                exp: iat + TOKEN_LIFETIME_SECS,
                iat: iat as int,
            }),
    {
        GatewayAuthClaims { iss: issuer, gateway_access, exp: iat + TOKEN_LIFETIME_SECS, iat }
    }

    /// The claims of a token issued now: they name the issuer, carry the
    /// grant, and expire 72 hours after the clock's reading.
    pub fn _new(issuer: String, gateway_access: bool) -> (claims: Self)
        ensures
            claims.iss@ == issuer@,
            claims.gateway_access == gateway_access,
            claims.exp == claims.iat + TOKEN_LIFETIME_SECS,
            claims.iat <= latest_reading(),
    {
        GatewayAuthClaims::issued_at(issuer, gateway_access, unix_now())
    }

    /// Reads the claims out of a token's payload.
    pub fn from_payload(payload: &Json) -> (claims: Option<Self>)
        ensures
            match claims {
                Some(c) => claims_spec(payload@) == Some(c@),
                None => claims_spec(payload@) is None,
            },
    {
        let iss = match payload.get("iss") {
            Some(Json::Text(iss)) => iss,
            _ => { return None; },
        };
        let gateway_access = match payload.get("gateway_access") {
            Some(Json::Bool(gateway_access)) => gateway_access,
            _ => { return None; },
        };
        let exp = match payload.get("exp") {
            Some(Json::Integer(exp)) => exp,
            _ => { return None; },
        };
        let iat = match payload.get("iat") {
            Some(Json::Integer(iat)) => iat,
            _ => { return None; },
        };
        Some(GatewayAuthClaims { iss, gateway_access, exp, iat })
    }
}

impl Denial {
    /// The words that the denial is reported with.
    pub open spec fn message_spec(self) -> Seq<char> {
        match self {
            Denial::NotLoggedIn => "Not Logged In"@,
            Denial::MissingCreds => "Missing Creds"@,
            Denial::TokenExpired => "Token Expired"@,
            Denial::InvalidToken => "Invalid Token"@,
        }
    }

    /// The words that the denial is reported with.
    pub fn message(&self) -> (words: String)
        ensures
            words@ == self.message_spec(),
    {
        match self {
            Denial::NotLoggedIn => "Not Logged In".to_owned(),
            Denial::MissingCreds => "Missing Creds".to_owned(),
            Denial::TokenExpired => "Token Expired".to_owned(),
            Denial::InvalidToken => "Invalid Token".to_owned(),
        }
    }
}

/// The token in the text of an `Authorization` header: the text without any
/// `"Bearer "` in it.
pub fn bearer_token(header: &str) -> (token: String)
    ensures
        token@ == replaced(header@, bearer_prefix(), Seq::<char>::empty()),
{
    proof {
        reveal_strlit("Bearer ");
        reveal_strlit("");
        assert(""@ =~= Seq::<char>::empty());
    }
    replace(header, "Bearer ", "")
}

/// The token that a request offers: the header's text without any `"Bearer "`
/// in it, or the reason why there is none to look at.
pub open spec fn token_spec(credentials: Credentials) -> Result<Seq<char>, Denial> {
    match credentials {
        Credentials::Absent => Err(Denial::NotLoggedIn),
        Credentials::Unreadable => Err(Denial::MissingCreds),
        Credentials::Present(header) => Ok(
            replaced(header@, bearer_prefix(), Seq::<char>::empty()),
        ),
    }
}

/// Takes the token out of what the `Authorization` header holds.
pub fn token_of(credentials: &Credentials) -> (token: Result<String, Denial>)
    ensures
        match token {
            Ok(t) => token_spec(*credentials) == Ok::<Seq<char>, Denial>(t@),
            Err(denial) => token_spec(*credentials) == Err::<Seq<char>, Denial>(denial),
        },
{
    match credentials {
        Credentials::Absent => Err(Denial::NotLoggedIn),
        Credentials::Unreadable => Err(Denial::MissingCreds),
        Credentials::Present(header) => Ok(bearer_token(header.as_str())),
    }
}

/// Gives the verdict on a checked token.
pub fn judge(check: TokenCheck) -> (verdict: Result<GatewayAuthClaims, Denial>)
    ensures
        match verdict {
            Ok(claims) => judge_spec(check) == Ok::<GatewayAuthClaimsView, Denial>(claims@),
            Err(denial) => judge_spec(check) == Err::<GatewayAuthClaimsView, Denial>(denial),
        },
{
    match check {
        TokenCheck::Verified(payload) => match GatewayAuthClaims::from_payload(&payload) {
            Some(claims) => Ok(claims),
            None => Err(Denial::InvalidToken),
        },
        TokenCheck::Expired => Err(Denial::TokenExpired),
        TokenCheck::Rejected => Err(Denial::InvalidToken),
    }
}

/// The policy itself: it wraps a service in the check.
pub struct Auth;

/// A service behind the bearer-token check.
pub struct AuthMiddleware<S> {
    pub service: S,
}

impl Auth {
    /// Puts `service` behind the check.
    pub fn new_transform<S>(&self, service: S) -> (guarded: AuthMiddleware<S>)
        ensures
            guarded.service == service,
    {
        AuthMiddleware { service }
    }
}

impl<S> AuthMiddleware<S> {
    /// Hands out the service where the checked token carries the claims of a
    /// gateway token, and says why where it does not.
    pub fn grant(&self, check: TokenCheck) -> (admission: Result<&S, Denial>)
        ensures
            match judge_spec(check) {
                Ok(_) => admission == Ok::<&S, Denial>(&self.service),
                Err(denial) => admission == Err::<&S, Denial>(denial),
            },
    {
        match judge(check) {
            Ok(_) => Ok(&self.service),
            Err(denial) => Err(denial),
        }
    }

    /// Decides on a request: hands out the service where the request carries a
    /// token that passes the check, and says why where it does not. Without a
    /// header, or with one that cannot be read, no token is checked.
    pub fn call(&self, credentials: &Credentials, secret: &str) -> (admission: Result<&S, Denial>)
        ensures
            match token_spec(*credentials) {
                Err(denial) => admission == Err::<&S, Denial>(denial),
                Ok(_) => match admission {
                    Ok(service) => *service == self.service,
                    Err(denial) => denial == Denial::TokenExpired || denial
                        == Denial::InvalidToken,
                },
            },
    {
        match token_of(credentials) {
            Err(denial) => Err(denial),
            Ok(token) => self.grant(verify_hs256(token.as_str(), secret.as_bytes())),
        }
    }
}

} // verus!
