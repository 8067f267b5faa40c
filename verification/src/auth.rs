//! The token validator: from a credential to an identity, or to the
//! reason why there is none.
use vstd::prelude::*;
use crate::json::{json_of, parse_json, Json, JsonTree};
use crate::payloads::{Frame, FrameView};
use crate::text::chars_of;
use crate::time::Timestamp;

verus! {

/// The identity that a token carries.
#[derive(Debug)]
pub struct Claims {
    pub sub: i64,
    pub email: String,
    pub roles: Vec<String>,
    pub is_admin: bool,
    pub is_user: bool,
    pub exp: usize,
}

/// An identity as plain values.
pub struct ClaimsView {
    pub sub: i64,
    pub email: Seq<char>,
    pub roles: Seq<Seq<char>>,
    pub is_admin: bool,
    pub is_user: bool,
    pub exp: usize,
}

impl View for Claims {
    type V = ClaimsView;

    open spec fn view(&self) -> ClaimsView {
        ClaimsView {
            sub: self.sub,
            email: self.email@,
            roles: self.roles@.map_values(|r: String| r@),
            is_admin: self.is_admin,
            is_user: self.is_user,
            exp: self.exp,
        }
    }
}

impl Clone for Claims {
    fn clone(&self) -> (copy: Self)
        ensures
            copy@ == self@,
    {
        let mut roles: Vec<String> = Vec::new();
        let mut i: usize = 0;
        while i < self.roles.len()
            invariant
                0 <= i <= self.roles.len(),
                roles@.map_values(|r: String| r@) == self.roles@.map_values(|r: String| r@).take(
                    i as int,
                ),
            decreases self.roles.len() - i,
        {
            let ghost before = roles@.map_values(|r: String| r@);
            let role = self.roles[i].clone();
            roles.push(role);
            assert(roles@.map_values(|r: String| r@) =~= before.push(role@));
            assert(self.roles@.map_values(|r: String| r@).take(i as int + 1)
                =~= self.roles@.map_values(|r: String| r@).take(i as int).push(role@));
            i += 1;
        }
        assert(self.roles@.map_values(|r: String| r@).take(i as int) =~= self.roles@.map_values(
            |r: String| r@,
        ));
        Claims {
            sub: self.sub,
            email: self.email.clone(),
            roles,
            is_admin: self.is_admin,
            is_user: self.is_user,
            exp: self.exp,
        }
    }
}

/// Why a credential gives no identity.
#[derive(Clone, Copy, Debug, PartialEq, Eq, Structural)]
pub enum AuthError {
    /// No credential was handed over.
    Missing,
    /// The credential was valid once and is not any more.
    Expired,
    /// What was handed over is no credential, or not one of this service.
    Malformed,
    /// The signature does not fit the credential.
    InvalidSignature,
    /// The service has no secret to check a credential against.
    Internal,
}

impl AuthError {
    /// The code under which the error is reported to the client: it tells
    /// each error from every other.
    pub open spec fn code_text(self) -> Seq<char> {
        match self {
            AuthError::Missing => "token_missing"@,
            AuthError::Expired => "token_expired"@,
            AuthError::Malformed => "token_malformed"@,
            AuthError::InvalidSignature => "signature_invalid"@,
            AuthError::Internal => "internal_error"@,
        }
    }

    /// The status under which the error is answered: 400 for a missing
    /// credential, 401 for one that is refused, 500 where the service
    /// cannot check any.
    pub open spec fn status_code(self) -> u16 {
        match self {
            AuthError::Missing => 400,
            AuthError::Expired => 401,
            AuthError::Malformed => 401,
            AuthError::InvalidSignature => 401,
            AuthError::Internal => 500,
        }
    }

    /// The error in words.
    pub open spec fn text(self) -> Seq<char> {
        match self {
            AuthError::Missing => "Missing token"@,
            AuthError::Expired => "Token expired"@,
            AuthError::Malformed => "Invalid token"@,
            AuthError::InvalidSignature => "Invalid signature"@,
            AuthError::Internal => "Internal auth error"@,
        }
    }

    pub fn code(&self) -> (code: &'static str)
        ensures
            code@ == self.code_text(),
    {
        match self {
            AuthError::Missing => "token_missing",
            AuthError::Expired => "token_expired",
            AuthError::Malformed => "token_malformed",
            AuthError::InvalidSignature => "signature_invalid",
            AuthError::Internal => "internal_error",
        }
    }

    pub fn status(&self) -> (status: u16)
        ensures
            status == self.status_code(),
    {
        match self {
            AuthError::Missing => 400,
            AuthError::Expired => 401,
            AuthError::Malformed => 401,
            AuthError::InvalidSignature => 401,
            AuthError::Internal => 500,
        }
    }

    pub fn message(&self) -> (text: &'static str)
        ensures
            text@ == self.text(),
    {
        match self {
            AuthError::Missing => "Missing token",
            AuthError::Expired => "Token expired",
            AuthError::Malformed => "Invalid token",
            AuthError::InvalidSignature => "Invalid signature",
            AuthError::Internal => "Internal auth error",
        }
    }
}

/// Two errors with the same code are the same error.
pub proof fn law_codes_tell_errors_apart(a: AuthError, b: AuthError)
    requires
        a.code_text() == b.code_text(),
    ensures
        a == b,
{
    reveal_strlit("token_missing");
    reveal_strlit("token_expired");
    reveal_strlit("token_malformed");
    reveal_strlit("signature_invalid");
    reveal_strlit("internal_error");
    let x = a.code_text();
    let y = b.code_text();
    assert(x.len() == y.len());
    assert(x[6] == y[6]);
    assert(x[7] == y[7]);
}

/// Why the check of a token's signature and form failed.
#[derive(Clone, Copy, Debug, PartialEq, Eq, Structural)]
pub enum TokenFault {
    InvalidToken,
    InvalidSignature,
    Other,
}

/// The texts of a list of JSON strings; nothing where an item is no string.
pub open spec fn texts_of(items: Seq<JsonTree>) -> Option<Seq<Seq<char>>> {
    if forall|i: int| 0 <= i < items.len() ==> (#[trigger] items[i]) is Text {
        Some(items.map_values(|t: JsonTree| t->Text_0))
    } else {
        None
    }
}

/// The identity that a JSON object of claims holds: `sub` a whole number,
/// `email` a string, `roles` a list of strings, `is_admin` and `is_user`
/// booleans, `exp` a whole number that is not negative. Nothing where a
/// member is missing or of another kind.
pub open spec fn claims_in(value: JsonTree) -> Option<ClaimsView> {
    match (
        match value.member("sub"@) {
            Some(sub) => sub.signed(),
            None => None,
        },
        value.text_at("email"@),
        match value.member("roles"@) {
            Some(JsonTree::Array(items)) => texts_of(items),
            _ => None,
        },
        value.flag_at("is_admin"@),
        value.flag_at("is_user"@),
        value.unsigned_at("exp"@),
    ) {
        (Some(sub), Some(email), Some(roles), Some(is_admin), Some(is_user), Some(exp)) => if exp
            <= usize::MAX {
            Some(ClaimsView { sub, email, roles, is_admin, is_user, exp: exp as usize })
        } else {
            None
        },
        _ => None,
    }
}

/// The view of an optional identity.
pub open spec fn claims_view(claims: Option<Claims>) -> Option<ClaimsView> {
    match claims {
        Some(c) => Some(c@),
        None => None,
    }
}

fn texts(items: &Vec<Json>) -> (out: Option<Vec<String>>)
    ensures
        match out {
            Some(list) => texts_of(items@.map_values(|j: Json| j@)) == Some(
                list@.map_values(|s: String| s@),
            ),
            None => texts_of(items@.map_values(|j: Json| j@)) is None,
        },
{
    let ghost trees = items@.map_values(|j: Json| j@);
    let mut list: Vec<String> = Vec::new();
    let mut i: usize = 0;
    while i < items.len()
        invariant
            0 <= i <= items.len(),
            trees == items@.map_values(|j: Json| j@),
            list@.len() == i,
            forall|k: int| 0 <= k < i ==> (#[trigger] trees[k]) is Text && trees[k]->Text_0 == list@[k]@,
        decreases items.len() - i,
    {
        match items[i].as_str() {
            Some(text) => {
                list.push(text.to_owned());
            },
            None => {
                assert(!(trees[i as int] is Text));
                return None;
            },
        }
        i += 1;
    }
    assert(list@.map_values(|s: String| s@) =~= trees.map_values(|t: JsonTree| t->Text_0));
    Some(list)
}

impl Claims {
    /// Reads an identity from a JSON object of claims.
    pub fn from_json(value: &Json) -> (claims: Option<Claims>)
        ensures
            claims_view(claims) == claims_in(value@),
    {
        let sub = match value.get("sub") {
            Some(sub) => sub.as_i64(),
            None => None,
        };
        let email = value.str_at("email");
        let roles = match value.get("roles") {
            Some(roles) => match roles.as_array() {
                Some(items) => {
                    assert(roles@->Array_0 =~= items@.map_values(|j: Json| j@));
                    texts(items)
                },
                None => None,
            },
            None => None,
        };
        let is_admin = value.bool_at("is_admin");
        let is_user = value.bool_at("is_user");
        let exp = value.u64_at("exp");
        match (sub, email, roles, is_admin, is_user, exp) {
            (Some(sub), Some(email), Some(roles), Some(is_admin), Some(is_user), Some(exp)) => {
                if exp <= usize::MAX as u64 {
                    Some(
                        Claims {
                            sub,
                            email: email.to_owned(),
                            roles,
                            is_admin,
                            is_user,
                            exp: exp as usize,
                        },
                    )
                } else {
                    None
                }
            },
            _ => None,
        }
    }
}

/// What `jsonwebtoken` makes of a token and a secret when it checks the
/// form of the token and its signature, for the algorithm HS256, and does
/// not look at the clock: the claims of the token, or why there are none.
pub uninterp spec fn token_check(token: Seq<char>, secret: Seq<u8>) -> Result<JsonTree, TokenFault>;

/// Checks a token with `jsonwebtoken::decode`, for the algorithm HS256 and
/// the rules of `Validation::new` with the check of the expiry switched
/// off, against the secret, and hands out the claims as JSON.
///
/// The contract gives the result a name: with the expiry left to the
/// caller, `decode` reads no clock, and the same token and secret always
/// get the same answer. A failure is told apart by `Error::kind`.
#[verifier::external_body]
pub(crate) fn check_token(token: &str, secret: &[u8]) -> (checked: Result<Json, TokenFault>)
    ensures
        checked_view(checked) == token_check(token@, secret@),
{
    let key = jsonwebtoken::DecodingKey::from_secret(secret);
    let mut rules = jsonwebtoken::Validation::new(jsonwebtoken::Algorithm::HS256);
    rules.validate_exp = false;
    match jsonwebtoken::decode::<serde_json::Value>(token, &key, &rules) {
        Ok(data) => Ok(json_of(data.claims)),
        Err(e) => Err(
            match e.kind() {
                jsonwebtoken::errors::ErrorKind::InvalidToken => TokenFault::InvalidToken,
                jsonwebtoken::errors::ErrorKind::InvalidSignature => TokenFault::InvalidSignature,
                _ => TokenFault::Other,
            },
        ),
    }
}

/// The token that `jsonwebtoken` makes of claims and a secret, with the
/// algorithm HS256; nothing where it makes none.
pub uninterp spec fn signed_token(claims: JsonTree, secret: Seq<u8>) -> Option<Seq<char>>;

/// Signs claims with `jsonwebtoken::encode`, under the default header and
/// the secret.
///
/// The contract gives the result a name: the same claims and secret always
/// give the same token.
#[verifier::external_body]
pub(crate) fn sign_token(claims: &Json, secret: &[u8]) -> (token: Option<String>)
    ensures
        match token {
            Some(t) => signed_token(claims@, secret@) == Some(t@),
            None => signed_token(claims@, secret@) is None,
        },
{
    let key = jsonwebtoken::EncodingKey::from_secret(secret);
    jsonwebtoken::encode(&jsonwebtoken::Header::default(), &crate::json::value_of(claims), &key).ok()
}

/// How long a token is valid, in seconds.
pub const TOKEN_LIFETIME: i64 = 86400;

/// The claims of a token for a user, as JSON.
pub open spec fn claims_tree(sub: i64, email: Seq<char>, is_admin: bool, exp: u64) -> JsonTree {
    JsonTree::Object(
        seq![
            (
                "sub"@,
                JsonTree::Number(
                    if sub >= 0 {
                        crate::json::NumberView::Unsigned(sub as u64)
                    } else {
                        crate::json::NumberView::Negative(sub)
                    },
                ),
            ),
            ("email"@, JsonTree::Text(email)),
            ("roles"@, JsonTree::Array(seq![JsonTree::Text("USER"@)])),
            ("is_admin"@, JsonTree::Bool(is_admin)),
            ("is_user"@, JsonTree::Bool(true)),
            ("exp"@, JsonTree::Number(crate::json::NumberView::Unsigned(exp))),
        ],
    )
}

/// The time at which a token made at `now` expires: a day later. Nothing
/// where that time is before 1970 or beyond what the clock can count.
pub open spec fn expiry(now: Timestamp) -> Option<u64> {
    if 0 <= now.secs + TOKEN_LIFETIME <= i64::MAX {
        Some((now.secs + TOKEN_LIFETIME) as u64)
    } else {
        None
    }
}

/// Computes `expiry`.
pub fn expiry_of(now: Timestamp) -> (exp: Option<u64>)
    ensures
        exp == expiry(now),
{
    if now.secs > i64::MAX - TOKEN_LIFETIME || now.secs < -TOKEN_LIFETIME {
        None
    } else {
        Some((now.secs + TOKEN_LIFETIME) as u64)
    }
}

/// Writes the claims of a token for a user.
pub fn claims_json(sub: i64, email: &str, is_admin: bool, exp: u64) -> (claims: Json)
    ensures
        claims@ == claims_tree(sub, email@, is_admin, exp),
{
    let mut roles: Vec<Json> = Vec::new();
    roles.push(Json::text("USER"));
    let roles = Json::list(roles);
    assert(roles@->Array_0 =~= seq![JsonTree::Text("USER"@)]);
    let mut members = crate::json::Members::new();
    members.put("sub", Json::signed(sub));
    members.put_text("email", email);
    members.put("roles", roles);
    members.put("is_admin", Json::Bool(is_admin));
    members.put("is_user", Json::Bool(true));
    members.put("exp", Json::unsigned(exp));
    let claims = members.finish();
    assert(claims@->Object_0 =~= claims_tree(sub, email@, is_admin, exp)->Object_0);
    claims
}

/// The claims that are written for a token are the identity that is read
/// from it.
pub proof fn law_claims_are_read_as_written(sub: i64, email: Seq<char>, is_admin: bool, exp: u64)
    requires
        exp <= usize::MAX,
    ensures
        claims_in(claims_tree(sub, email, is_admin, exp)) == Some(
            ClaimsView {
                sub,
                email,
                roles: seq!["USER"@],
                is_admin,
                is_user: true,
                exp: exp as usize,
            },
        ),
{
    reveal_strlit("sub");
    reveal_strlit("email");
    reveal_strlit("roles");
    reveal_strlit("is_admin");
    reveal_strlit("is_user");
    reveal_strlit("exp");
    let tree = claims_tree(sub, email, is_admin, exp);
    let members = tree->Object_0;
    let all = crate::json::names(members);
    assert(all[0] == "sub"@ && all[1] == "email"@ && all[2] == "roles"@ && all[3] == "is_admin"@
        && all[4] == "is_user"@ && all[5] == "exp"@);
    assert("sub"@[0] == 's' && "email"@[1] == 'm' && "roles"@[0] == 'r' && "is_admin"@[3] == 'a'
        && "is_user"@[3] == 'u' && "exp"@[1] == 'x');
    crate::lookup::lemma_first_match_is(all, "sub"@, 0);
    crate::lookup::lemma_first_match_is(all, "email"@, 1);
    crate::lookup::lemma_first_match_is(all, "roles"@, 2);
    crate::lookup::lemma_first_match_is(all, "is_admin"@, 3);
    crate::lookup::lemma_first_match_is(all, "is_user"@, 4);
    crate::lookup::lemma_first_match_is(all, "exp"@, 5);
    let items = seq![JsonTree::Text("USER"@)];
    assert(texts_of(items) == Some(seq!["USER"@])) by {
        assert(items[0] is Text);
        assert(items.map_values(|t: JsonTree| t->Text_0) =~= seq!["USER"@]);
    }
}

/// Why no token was made.
#[derive(Clone, Copy, Debug, PartialEq, Eq, Structural)]
pub enum TokenError {
    /// The service has no secret.
    NoSecret,
    /// The expiry cannot be counted.
    InvalidExpiry,
    /// The token could not be signed.
    Unsigned,
}

/// The token for a user, made at `now`: it expires a day later.
pub open spec fn token_for(
    sub: i64,
    email: Seq<char>,
    is_admin: bool,
    secret: Option<Seq<u8>>,
    now: Timestamp,
) -> Result<Seq<char>, TokenError> {
    match secret {
        None => Err(TokenError::NoSecret),
        Some(secret) => match expiry(now) {
            None => Err(TokenError::InvalidExpiry),
            Some(exp) => match signed_token(claims_tree(sub, email, is_admin, exp), secret) {
                Some(token) => Ok(token),
                None => Err(TokenError::Unsigned),
            },
        },
    }
}

/// The view of a token or the reason why there is none.
pub open spec fn token_text(token: Result<String, TokenError>) -> Result<Seq<char>, TokenError> {
    match token {
        Ok(t) => Ok(t@),
        Err(e) => Err(e),
    }
}

/// Makes the token for a user at the time `now`.
pub fn generate_token_at(user_id: i64, email: &str, is_admin: bool, secret: Option<&[u8]>, now: Timestamp) -> (token:
    Result<String, TokenError>)
    ensures
        token_text(token) == token_for(user_id, email@, is_admin, secret_view(secret), now),
{
    let secret = match secret {
        Some(secret) => secret,
        None => {
            return Err(TokenError::NoSecret);
        },
    };
    let exp = match expiry_of(now) {
        Some(exp) => exp,
        None => {
            return Err(TokenError::InvalidExpiry);
        },
    };
    let claims = claims_json(user_id, email, is_admin, exp);
    match sign_token(&claims, secret) {
        Some(token) => Ok(token),
        None => Err(TokenError::Unsigned),
    }
}

/// Makes the token for a user at the time of the call.
pub fn generate_token(user_id: i64, email: &str, is_admin: bool, secret: Option<&[u8]>) -> (token: Result<
    String,
    TokenError,
>)
    ensures
        exists|now: Timestamp|
            token_text(token) == #[trigger] token_for(
                user_id,
                email@,
                is_admin,
                secret_view(secret),
                now,
            ),
        secret is None ==> token == Err::<String, TokenError>(TokenError::NoSecret),
        secret is Some ==> token != Err::<String, TokenError>(TokenError::NoSecret),
{
    let at = crate::time::now();
    generate_token_at(user_id, email, is_admin, secret, at)
}

/// For how many seconds behind its expiry a token is still taken.
pub const LEEWAY: u64 = 60;

/// Whether a token that expires at `exp`, in seconds since 1970, has
/// expired at `now`: its expiry lies more than `LEEWAY` seconds back.
pub open spec fn expired(exp: usize, now: Timestamp) -> bool {
    exp + LEEWAY < now.secs
}

/// Tests `expired`.
pub fn is_expired(exp: usize, now: Timestamp) -> (yes: bool)
    ensures
        yes == expired(exp, now),
{
    now.secs >= 0 && (exp as u128) + (LEEWAY as u128) < (now.secs as u128)
}

/// What the check of a token comes to at `now`: the identity in its
/// claims, if it has not expired. For a token that failed the check, the
/// error that names the failure; for claims that hold no identity,
/// `Malformed`; for an identity that has expired, `Expired`.
pub open spec fn verdict(checked: Result<JsonTree, TokenFault>, now: Timestamp) -> Result<
    ClaimsView,
    AuthError,
> {
    match checked {
        Ok(claims) => match claims_in(claims) {
            Some(identity) => if expired(identity.exp, now) {
                Err(AuthError::Expired)
            } else {
                Ok(identity)
            },
            None => Err(AuthError::Malformed),
        },
        Err(TokenFault::InvalidSignature) => Err(AuthError::InvalidSignature),
        Err(_) => Err(AuthError::Malformed),
    }
}

/// The view of the check of a token.
pub open spec fn checked_view(checked: Result<Json, TokenFault>) -> Result<JsonTree, TokenFault> {
    match checked {
        Ok(claims) => Ok(claims@),
        Err(fault) => Err(fault),
    }
}

/// The view of the outcome of a validation.
pub open spec fn outcome_view(outcome: Result<Claims, AuthError>) -> Result<ClaimsView, AuthError> {
    match outcome {
        Ok(claims) => Ok(claims@),
        Err(e) => Err(e),
    }
}

/// The view of an optional secret.
pub open spec fn secret_view(secret: Option<&[u8]>) -> Option<Seq<u8>> {
    match secret {
        Some(s) => Some(s@),
        None => None,
    }
}

/// What the validation of a token comes to at `now`: without a secret,
/// the internal error; with one, the verdict on the check of the token.
pub open spec fn decoded(token: Seq<char>, secret: Option<Seq<u8>>, now: Timestamp) -> Result<
    ClaimsView,
    AuthError,
> {
    match secret {
        Some(s) => verdict(token_check(token, s), now),
        None => Err(AuthError::Internal),
    }
}

/// Turns the check of a token into an identity or an error, at `now`.
pub fn judge(checked: Result<Json, TokenFault>, now: Timestamp) -> (outcome: Result<Claims, AuthError>)
    ensures
        outcome_view(outcome) == verdict(checked_view(checked), now),
{
    match checked {
        Ok(claims) => match Claims::from_json(&claims) {
            Some(identity) => if is_expired(identity.exp, now) {
                Err(AuthError::Expired)
            } else {
                Ok(identity)
            },
            None => Err(AuthError::Malformed),
        },
        Err(TokenFault::InvalidSignature) => Err(AuthError::InvalidSignature),
        Err(_) => Err(AuthError::Malformed),
    }
}

/// Validates a token against the secret of the service, at `now`: the
/// token is accepted where its form and signature are right, its claims
/// hold an identity, and it has not expired.
pub fn decode_token_at(token: &str, secret: Option<&[u8]>, now: Timestamp) -> (outcome: Result<
    Claims,
    AuthError,
>)
    ensures
        outcome_view(outcome) == decoded(token@, secret_view(secret), now),
        secret is Some ==> outcome != Err::<Claims, AuthError>(AuthError::Internal),
        outcome != Err::<Claims, AuthError>(AuthError::Missing),
{
    match secret {
        Some(secret) => judge(check_token(token, secret), now),
        None => Err(AuthError::Internal),
    }
}

/// Validates a token against the secret of the service, at the time of
/// the call. Without a secret every token fails with `Internal`, and only
/// then; no token fails with `Missing`.
pub fn decode_token(token: &str, secret: Option<&[u8]>) -> (outcome: Result<Claims, AuthError>)
    ensures
        exists|now: Timestamp|
            outcome_view(outcome) == #[trigger] decoded(token@, secret_view(secret), now),
        secret is None <==> outcome == Err::<Claims, AuthError>(AuthError::Internal),
        outcome != Err::<Claims, AuthError>(AuthError::Missing),
{
    let at = crate::time::now();
    decode_token_at(token, secret, at)
}

/// The first position from `from` up to `to` at which `s` holds `mark`;
/// `to` where it holds none there.
pub open spec fn next_at(s: Seq<char>, mark: char, from: int, to: int) -> int
    decreases to - from,
{
    if from >= to {
        to
    } else if s[from] == mark {
        from
    } else {
        next_at(s, mark, from + 1, to)
    }
}

/// The value of the first pair named `token` among the pairs of a query
/// that start at or behind `start`. Pairs are parted by `&`; name and value
/// of a pair by `=`, and the value ends where a further `=` stands.
pub open spec fn token_from(query: Seq<char>, start: int) -> Option<Seq<char>>
    decreases query.len() - start,
{
    if start < 0 || start > query.len() {
        None
    } else {
        let end = next_at(query, '&', start, query.len() as int);
        let eq = next_at(query, '=', start, end);
        if eq < end && query.subrange(start, eq) == "token"@ {
            Some(query.subrange(eq + 1, next_at(query, '=', eq + 1, end)))
        } else if start <= end < query.len() {
            token_from(query, end + 1)
        } else {
            None
        }
    }
}

/// The token that a query string hands over.
pub open spec fn query_token(query: Seq<char>) -> Option<Seq<char>> {
    token_from(query, 0)
}

/// `next_at` stays within its bounds.
pub proof fn lemma_next_at(s: Seq<char>, mark: char, from: int, to: int)
    requires
        from <= to,
    ensures
        from <= next_at(s, mark, from, to) <= to,
    decreases to - from,
{
    if from < to && s[from] != mark {
        lemma_next_at(s, mark, from + 1, to);
    }
}

fn find_char(s: &Vec<char>, mark: char, from: usize, to: usize) -> (at: usize)
    requires
        from <= to <= s.len(),
    ensures
        at == next_at(s@, mark, from as int, to as int),
        from <= at <= to,
{
    let mut at = from;
    while at < to && s[at] != mark
        invariant
            from <= at <= to <= s.len(),
            next_at(s@, mark, from as int, to as int) == next_at(s@, mark, at as int, to as int),
        decreases to - at,
    {
        at += 1;
    }
    at
}

fn is_token_name(s: &Vec<char>, from: usize, to: usize) -> (yes: bool)
    requires
        from <= to <= s.len(),
    ensures
        yes == (s@.subrange(from as int, to as int) == "token"@),
{
    proof {
        reveal_strlit("token");
    }
    let ghost name = s@.subrange(from as int, to as int);
    if to - from != 5 {
        assert(name.len() != "token"@.len());
        return false;
    }
    let yes = s[from] == 't' && s[from + 1] == 'o' && s[from + 2] == 'k' && s[from + 3] == 'e'
        && s[from + 4] == 'n';
    proof {
        if yes {
            assert(name =~= "token"@);
        } else {
            assert(name[0] == s@[from as int] && name[1] == s@[from + 1] && name[2] == s@[from + 2]
                && name[3] == s@[from + 3] && name[4] == s@[from + 4]);
        }
    }
    yes
}

/// The view of an optional string.
pub open spec fn string_view(s: Option<String>) -> Option<Seq<char>> {
    match s {
        Some(s) => Some(s@),
        None => None,
    }
}

/// Finds the token in a query string.
pub fn token_in_query(query: &str) -> (token: Option<String>)
    ensures
        string_view(token) == query_token(query@),
{
    let chars = chars_of(query);
    let n = chars.len();
    let mut start: usize = 0;
    loop
        invariant
            0 <= start <= n,
            n == chars.len(),
            chars@ == query@,
            query_token(query@) == token_from(query@, start as int),
        decreases n - start,
    {
        let end = find_char(&chars, '&', start, n);
        let eq = find_char(&chars, '=', start, end);
        if eq < end && is_token_name(&chars, start, eq) {
            let stop = find_char(&chars, '=', eq + 1, end);
            return Some(query.substring_char(eq + 1, stop).to_owned());
        }
        if end < n {
            start = end + 1;
        } else {
            return None;
        }
    }
}

/// The credential of an `Authorization` header: what follows `Bearer `.
pub open spec fn bearer_of(header: Seq<char>) -> Option<Seq<char>> {
    if header.len() >= 7 && header.take(7) == "Bearer "@ {
        Some(header.skip(7))
    } else {
        None
    }
}

/// Takes the credential out of an `Authorization` header.
pub fn bearer_token(header: &str) -> (token: Option<String>)
    ensures
        string_view(token) == bearer_of(header@),
{
    let len = header.unicode_len();
    if len < 7 {
        return None;
    }
    let head = header.substring_char(0, 7);
    assert(header@.subrange(0, 7) == header@.take(7));
    if crate::text::same_text(head, "Bearer ") {
        let rest = header.substring_char(7, len);
        assert(header@.subrange(7, len as int) == header@.skip(7));
        Some(rest.to_owned())
    } else {
        None
    }
}

/// An error of the authentication service, in words.
#[derive(Debug)]
pub struct ErrorResponse {
    pub error: String,
}

impl ErrorResponse {
    /// The error that tells why a credential gives no identity.
    pub fn of(error: AuthError) -> (response: ErrorResponse)
        ensures
            response.error@ == error.text(),
    {
        ErrorResponse { error: error.message().to_owned() }
    }
}

/// The identity of a connection.
#[derive(Debug)]
pub struct WsAuth(pub Claims);

/// Why the first frame of a connection hands over no token.
#[derive(Clone, Copy, Debug, PartialEq, Eq, Structural)]
pub enum HandshakeFault {
    /// The frame is not a text.
    NotText,
    /// The text is not JSON.
    NotJson,
    /// The JSON has no member `token` that is a string.
    NoToken,
}

impl HandshakeFault {
    /// The error that the fault amounts to: no token where the frame holds
    /// none, a malformed one where the frame cannot be read.
    pub open spec fn error(self) -> AuthError {
        match self {
            HandshakeFault::NoToken => AuthError::Missing,
            _ => AuthError::Malformed,
        }
    }

    pub fn as_error(&self) -> (error: AuthError)
        ensures
            error == self.error(),
    {
        match self {
            HandshakeFault::NoToken => AuthError::Missing,
            _ => AuthError::Malformed,
        }
    }

    /// The fault in words.
    pub open spec fn text(self) -> Seq<char> {
        match self {
            HandshakeFault::NotText => "Expected text message"@,
            HandshakeFault::NotJson => "Invalid JSON"@,
            HandshakeFault::NoToken => "Missing token field"@,
        }
    }

    pub fn message(&self) -> (text: &'static str)
        ensures
            text@ == self.text(),
    {
        match self {
            HandshakeFault::NotText => "Expected text message",
            HandshakeFault::NotJson => "Invalid JSON",
            HandshakeFault::NoToken => "Missing token field",
        }
    }
}

/// The token in a parsed first frame, or why there is none.
pub open spec fn token_of_parsed(parsed: Result<JsonTree, crate::json::JsonError>) -> Result<
    Seq<char>,
    HandshakeFault,
> {
    match parsed {
        Ok(value) => match value.text_at("token"@) {
            Some(token) => Ok(token),
            None => Err(HandshakeFault::NoToken),
        },
        Err(_) => Err(HandshakeFault::NotJson),
    }
}

/// The token in the first frame of a connection, or why there is none.
pub open spec fn token_of_frame(frame: FrameView) -> Result<Seq<char>, HandshakeFault> {
    match frame {
        FrameView::Text(text) => token_of_parsed(crate::json::json_reading(text)),
        _ => Err(HandshakeFault::NotText),
    }
}

/// The view of a token or fault.
pub open spec fn token_view(token: Result<String, HandshakeFault>) -> Result<
    Seq<char>,
    HandshakeFault,
> {
    match token {
        Ok(t) => Ok(t@),
        Err(e) => Err(e),
    }
}

/// Takes the token out of a parsed first frame.
pub fn token_in_value(parsed: &Result<Json, crate::json::JsonError>) -> (token: Result<
    String,
    HandshakeFault,
>)
    ensures
        token_view(token) == token_of_parsed(
            match parsed {
                Ok(value) => Ok(value@),
                Err(e) => Err(*e),
            },
        ),
{
    match parsed {
        Ok(value) => match value.str_at("token") {
            Some(token) => Ok(token.to_owned()),
            None => Err(HandshakeFault::NoToken),
        },
        Err(_) => Err(HandshakeFault::NotJson),
    }
}

/// Takes the token out of the first frame of a connection.
pub fn token_in_frame(frame: &Frame) -> (token: Result<String, HandshakeFault>)
    ensures
        token_view(token) == token_of_frame(frame@),
{
    match frame {
        Frame::Text(text) => {
            let parsed = parse_json(text.as_str());
            token_in_value(&parsed)
        },
        _ => Err(HandshakeFault::NotText),
    }
}

/// Why a connection is refused: the status, the code and the words under
/// which the refusal is reported.
#[derive(Debug)]
pub struct Rejection {
    pub status: u16,
    pub code: String,
    pub message: String,
}

/// A refusal as plain values.
pub struct RejectionView {
    pub status: u16,
    pub code: Seq<char>,
    pub message: Seq<char>,
}

impl View for Rejection {
    type V = RejectionView;

    open spec fn view(&self) -> RejectionView {
        RejectionView { status: self.status, code: self.code@, message: self.message@ }
    }
}

/// The refusal for a first frame that hands over no token.
pub open spec fn refusal_for_fault(fault: HandshakeFault) -> RejectionView {
    RejectionView { status: 400, code: fault.error().code_text(), message: fault.text() }
}

/// The refusal for a token that gives no identity.
pub open spec fn refusal_for_error(error: AuthError) -> RejectionView {
    RejectionView { status: error.status_code(), code: error.code_text(), message: error.text() }
}

impl Rejection {
    pub fn for_fault(fault: HandshakeFault) -> (r: Rejection)
        ensures
            r@ == refusal_for_fault(fault),
    {
        Rejection {
            status: 400,
            code: fault.as_error().code().to_owned(),
            message: fault.message().to_owned(),
        }
    }

    pub fn for_error(error: AuthError) -> (r: Rejection)
        ensures
            r@ == refusal_for_error(error),
    {
        Rejection {
            status: error.status(),
            code: error.code().to_owned(),
            message: error.message().to_owned(),
        }
    }

    /// The refusal for a query string without a token.
    pub fn missing_in_query() -> (r: Rejection)
        ensures
            r@ == refusal_for_query(),
    {
        Rejection {
            status: 400,
            code: AuthError::Missing.code().to_owned(),
            message: "Missing token in query".to_owned(),
        }
    }
}

/// What the validation of a token for a connection comes to at `now`:
/// the identity, or the refusal with the status, code and words of the
/// error.
pub open spec fn validated(token: Seq<char>, secret: Option<Seq<u8>>, now: Timestamp) -> Result<
    ClaimsView,
    RejectionView,
> {
    match decoded(token, secret, now) {
        Ok(identity) => Ok(identity),
        Err(e) => Err(refusal_for_error(e)),
    }
}

/// What the first frame of a connection comes to at `now`: a frame that
/// hands over no token is refused with the status 400 and the words of the
/// fault; a token is validated.
pub open spec fn frame_validated(frame: FrameView, secret: Option<Seq<u8>>, now: Timestamp)
    -> Result<ClaimsView, RejectionView> {
    match token_of_frame(frame) {
        Ok(token) => validated(token, secret, now),
        Err(fault) => Err(refusal_for_fault(fault)),
    }
}

/// The refusal for a query string without a token.
pub open spec fn refusal_for_query() -> RejectionView {
    RejectionView {
        status: 400,
        code: AuthError::Missing.code_text(),
        message: "Missing token in query"@,
    }
}

/// What the query string of an upgrade request comes to at `now`.
pub open spec fn query_validated(query: Seq<char>, secret: Option<Seq<u8>>, now: Timestamp)
    -> Result<ClaimsView, RejectionView> {
    match query_token(query) {
        Some(token) => validated(token, secret, now),
        None => Err(refusal_for_query()),
    }
}

/// The view of an authentication.
pub open spec fn auth_view(auth: Result<WsAuth, Rejection>) -> Result<ClaimsView, RejectionView> {
    match auth {
        Ok(a) => Ok(a.0@),
        Err(r) => Err(r@),
    }
}

impl WsAuth {
    /// Validates a token at `now`.
    pub fn validate_token_at(token: &str, secret: Option<&[u8]>, now: Timestamp) -> (auth: Result<
        WsAuth,
        Rejection,
    >)
        ensures
            auth_view(auth) == validated(token@, secret_view(secret), now),
    {
        match decode_token_at(token, secret, now) {
            Ok(claims) => Ok(WsAuth(claims)),
            Err(e) => Err(Rejection::for_error(e)),
        }
    }

    /// Validates a token at the time of the call. A token that is refused
    /// is refused with the status, code and words of its error: the
    /// internal error where the service has no secret, and only there; an
    /// error of the token otherwise.
    pub fn validate_token(token: &str, secret: Option<&[u8]>) -> (auth: Result<WsAuth, Rejection>)
        ensures
            exists|now: Timestamp|
                auth_view(auth) == #[trigger] validated(token@, secret_view(secret), now),
            auth matches Err(r) ==> exists|e: AuthError|
                e != AuthError::Missing && (e == AuthError::Internal <==> secret is None) && r@
                    == #[trigger] refusal_for_error(e),
            secret is None ==> auth is Err && auth->Err_0@ == refusal_for_error(AuthError::Internal),
    {
        let at = crate::time::now();
        let auth = WsAuth::validate_token_at(token, secret, at);
        proof {
            lemma_refusal(token@, secret_view(secret), at);
        }
        auth
    }

    /// Authenticates a connection by its first frame, at `now`.
    pub fn from_first_message_at(frame: &Frame, secret: Option<&[u8]>, now: Timestamp) -> (auth:
        Result<WsAuth, Rejection>)
        ensures
            auth_view(auth) == frame_validated(frame@, secret_view(secret), now),
    {
        match token_in_frame(frame) {
            Ok(token) => WsAuth::validate_token_at(token.as_str(), secret, now),
            Err(fault) => Err(Rejection::for_fault(fault)),
        }
    }

    /// Authenticates a connection by its first frame: a text that is a JSON
    /// object with the token in its member `token`. A frame that hands
    /// over no token is refused with status 400 and the words of the
    /// fault, and only such a frame is; a token is validated at the time of
    /// the call.
    pub fn from_first_message(frame: &Frame, secret: Option<&[u8]>) -> (auth: Result<WsAuth, Rejection>)
        ensures
            exists|now: Timestamp|
                auth_view(auth) == #[trigger] frame_validated(frame@, secret_view(secret), now),
            token_of_frame(frame@) matches Err(fault) ==> auth is Err && auth->Err_0@
                == refusal_for_fault(fault),
            token_of_frame(frame@) is Ok ==> (auth matches Err(r) ==> exists|e: AuthError|
                e != AuthError::Missing && (e == AuthError::Internal <==> secret is None) && r@
                    == #[trigger] refusal_for_error(e)),
    {
        let at = crate::time::now();
        let auth = WsAuth::from_first_message_at(frame, secret, at);
        proof {
            if token_of_frame(frame@) is Ok {
                lemma_refusal(token_of_frame(frame@)->Ok_0, secret_view(secret), at);
            }
        }
        auth
    }

    /// Authenticates a connection by the query string of its upgrade
    /// request, at `now`.
    pub fn from_query_at(query: &str, secret: Option<&[u8]>, now: Timestamp) -> (auth: Result<
        WsAuth,
        Rejection,
    >)
        ensures
            auth_view(auth) == query_validated(query@, secret_view(secret), now),
    {
        match token_in_query(query) {
            Some(token) => WsAuth::validate_token_at(token.as_str(), secret, now),
            None => Err(Rejection::missing_in_query()),
        }
    }

    /// Authenticates a connection by the query string of its upgrade
    /// request: the value of the first pair named `token`, validated at
    /// the time of the call. A query without a token is refused with the
    /// status 400, and only such a query is refused for a missing token.
    pub fn from_query(query: &str, secret: Option<&[u8]>) -> (auth: Result<WsAuth, Rejection>)
        ensures
            exists|now: Timestamp|
                auth_view(auth) == #[trigger] query_validated(query@, secret_view(secret), now),
            query_token(query@) is None ==> auth is Err && auth->Err_0@ == refusal_for_query(),
            query_token(query@) is Some ==> (auth matches Err(r) ==> exists|e: AuthError|
                e != AuthError::Missing && (e == AuthError::Internal <==> secret is None) && r@
                    == #[trigger] refusal_for_error(e)),
    {
        let at = crate::time::now();
        let auth = WsAuth::from_query_at(query, secret, at);
        proof {
            if query_token(query@) is Some {
                lemma_refusal(query_token(query@)->Some_0, secret_view(secret), at);
            }
        }
        auth
    }
}

/// A token is refused for an error that is neither `Missing` nor, with a
/// secret, `Internal`; without a secret it is refused for `Internal`.
pub proof fn lemma_refusal(token: Seq<char>, secret: Option<Seq<u8>>, now: Timestamp)
    ensures
        validated(token, secret, now) matches Err(r) ==> exists|e: AuthError|
            e != AuthError::Missing && (e == AuthError::Internal <==> secret is None) && r
                == #[trigger] refusal_for_error(e),
{
    match decoded(token, secret, now) {
        Err(e) => {
            assert(e != AuthError::Missing && (e == AuthError::Internal <==> secret is None)
                && validated(token, secret, now)->Err_0 == refusal_for_error(e));
        },
        Ok(_) => {},
    }
}

/// The identity behind a request that carries a bearer token.
#[derive(Debug)]
pub struct AuthUser(pub Claims);

/// The identity behind a request of an administrator.
#[derive(Debug)]
pub struct AdminUser(pub Claims);

/// Why a request is turned away.
#[derive(Clone, Copy, Debug, PartialEq, Eq, Structural)]
pub enum Denial {
    /// The request carries no bearer token.
    NoToken,
    /// The token has expired.
    Expired,
    /// The token is refused for another reason.
    Invalid,
    /// The identity is no administrator.
    NotAdmin,
}

impl Denial {
    /// The status with which the request is answered.
    pub open spec fn status_code(self) -> u16 {
        match self {
            Denial::NotAdmin => 403,
            _ => 401,
        }
    }

    /// The denial in words.
    pub open spec fn text(self) -> Seq<char> {
        match self {
            Denial::NoToken => "Missing authorization token"@,
            Denial::Expired => "Token has expired"@,
            Denial::Invalid => "Invalid token"@,
            Denial::NotAdmin => "Access denied: Admins only"@,
        }
    }

    pub fn status(&self) -> (status: u16)
        ensures
            status == self.status_code(),
    {
        match self {
            Denial::NotAdmin => 403,
            _ => 401,
        }
    }

    pub fn message(&self) -> (text: &'static str)
        ensures
            text@ == self.text(),
    {
        match self {
            Denial::NoToken => "Missing authorization token",
            Denial::Expired => "Token has expired",
            Denial::Invalid => "Invalid token",
            Denial::NotAdmin => "Access denied: Admins only",
        }
    }
}

/// The denial for a token that gives no identity.
pub open spec fn denial_for(error: AuthError) -> Denial {
    match error {
        AuthError::Expired => Denial::Expired,
        _ => Denial::Invalid,
    }
}

impl AuthUser {
    /// What a validated bearer token comes to.
    pub fn accept(outcome: Result<Claims, AuthError>) -> (user: Result<AuthUser, Denial>)
        ensures
            match outcome {
                Ok(claims) => user is Ok && user->Ok_0.0 == claims,
                Err(e) => user == Err::<AuthUser, Denial>(denial_for(e)),
            },
    {
        match outcome {
            Ok(claims) => Ok(AuthUser(claims)),
            Err(AuthError::Expired) => Err(Denial::Expired),
            Err(_) => Err(Denial::Invalid),
        }
    }

    /// Identifies a request by its `Authorization` header, at `now`.
    pub fn from_header_at(authorization: Option<&str>, secret: Option<&[u8]>, now: Timestamp) -> (user:
        Result<AuthUser, Denial>)
        ensures
            user_view(user) == identified(header_view(authorization), secret_view(secret), now),
    {
        let token = match authorization {
            Some(header) => bearer_token(header),
            None => None,
        };
        match token {
            Some(token) => {
                let outcome = decode_token_at(token.as_str(), secret, now);
                AuthUser::accept(outcome)
            },
            None => Err(Denial::NoToken),
        }
    }

    /// Identifies a request by its `Authorization` header, at the time of
    /// the call. A request without a bearer token is turned away for that,
    /// and only such a request is.
    pub fn from_header(authorization: Option<&str>, secret: Option<&[u8]>) -> (user: Result<
        AuthUser,
        Denial,
    >)
        ensures
            exists|now: Timestamp|
                user_view(user) == #[trigger] identified(
                    header_view(authorization),
                    secret_view(secret),
                    now,
                ),
            (authorization is None || bearer_of(authorization.unwrap()@) is None) <==> user == Err::<
                AuthUser,
                Denial,
            >(Denial::NoToken),
            user matches Err(d) ==> d != Denial::NotAdmin,
    {
        let at = crate::time::now();
        AuthUser::from_header_at(authorization, secret, at)
    }
}

/// The view of an optional header.
pub open spec fn header_view(header: Option<&str>) -> Option<Seq<char>> {
    match header {
        Some(h) => Some(h@),
        None => None,
    }
}

/// The view of an identification.
pub open spec fn user_view(user: Result<AuthUser, Denial>) -> Result<ClaimsView, Denial> {
    match user {
        Ok(u) => Ok(u.0@),
        Err(d) => Err(d),
    }
}

/// What the `Authorization` header of a request comes to at `now`: the
/// identity in its bearer token, or why the request is turned away.
pub open spec fn identified(header: Option<Seq<char>>, secret: Option<Seq<u8>>, now: Timestamp)
    -> Result<ClaimsView, Denial> {
    match header {
        None => Err(Denial::NoToken),
        Some(h) => match bearer_of(h) {
            None => Err(Denial::NoToken),
            Some(token) => match decoded(token, secret, now) {
                Ok(identity) => Ok(identity),
                Err(e) => Err(denial_for(e)),
            },
        },
    }
}

impl AdminUser {
    /// Accepts an identified user that is an administrator.
    pub fn accept(user: AuthUser) -> (admin: Result<AdminUser, Denial>)
        ensures
            match admin {
                Ok(a) => user.0.is_admin && a.0 == user.0,
                Err(d) => !user.0.is_admin && d == Denial::NotAdmin,
            },
    {
        if user.0.is_admin {
            Ok(AdminUser(user.0))
        } else {
            Err(Denial::NotAdmin)
        }
    }
}

} // verus!
